//! What a test keeps at hand while it works on one program: the program's
//! address, and the account that the test funds to pay with.

use crate::encode::{AnchorSerialize, EncodeError};
use crate::instruction::{
    anchor_instruction_data, build_anchor_instruction, AccountMeta, Instruction,
};
use crate::instruction_builder::{InstructionBuilder, InstructionBuilderView};
use crate::program::Program;
use crate::pubkey::{base58, program_address, seeds_out_of_bounds, Pubkey};
use crate::transaction::{prepare_transaction, TransactionError, TransactionRequest};
use vstd::prelude::*;
use vstd::string::StringExecFns;

verus! {

/// The program under test and the account that the test pays with.
#[derive(Clone, Copy, Debug)]
pub struct AnchorContext {
    /// The program whose instructions the test builds.
    pub program_id: Pubkey,
    /// The account that the test funds first and that pays where the test
    /// names it as the first signer.
    pub payer: Pubkey,
}

/// The name under which a single instruction is sent.
pub open spec fn instruction_label(program_id: Pubkey) -> Seq<char> {
    "instruction to "@ + base58(program_id@)
}

/// The name under which several instructions are sent together.
pub open spec fn batch_label() -> Seq<char> {
    "batch transaction"@
}

impl AnchorContext {
    /// A context for the program `program_id`, with `payer` as the account
    /// to pay with.
    pub fn new(program_id: Pubkey, payer: Pubkey) -> (r: Self)
        ensures
            r.program_id == program_id,
            r.payer == payer,
    {
        AnchorContext { program_id, payer }
    }

    /// The program under test, for requests in the manner of Anchor's client.
    pub fn program(&self) -> (r: Program)
        ensures
            r.spec_id() == self.program_id,
    {
        Program::new(self.program_id)
    }

    /// The account to pay with.
    pub fn payer(&self) -> (r: Pubkey)
        ensures
            r == self.payer,
    {
        self.payer
    }

    /// Makes `program_id` the program under test.
    pub fn set_program_id(&mut self, program_id: Pubkey)
        ensures
            final(self).program_id == program_id,
            final(self).payer == old(self).payer,
    {
        self.program_id = program_id;
    }

    /// Builds the call of `instruction_name` in the program under test on
    /// `accounts` with `args`. It fails only if `args` has no encoding.
    pub fn build_instruction<T: AnchorSerialize>(
        &self,
        instruction_name: &str,
        accounts: Vec<AccountMeta>,
        args: T,
    ) -> (r: Result<Instruction, EncodeError>)
        ensures
            r.is_ok() == args.encodable(),
            r matches Ok(ix) ==> {
                &&& ix.program_id == self.program_id
                &&& ix.accounts@ == accounts@
                &&& ix.data@ == anchor_instruction_data(instruction_name@, args.encoding())
            },
    {
        build_anchor_instruction(&self.program_id, instruction_name, accounts, args)
    }

    /// A builder for the instruction `instruction_name` of the program under
    /// test.
    pub fn instruction_builder(&self, instruction_name: &str) -> (r: InstructionBuilder)
        ensures
            r@ == (InstructionBuilderView {
                program_id: self.program_id,
                instruction_name: instruction_name@,
                accounts: Seq::empty(),
                data: Seq::empty(),
            }),
    {
        InstructionBuilder::new(&self.program_id, instruction_name)
    }

    /// The address that the program under test derives from `seeds`, and the
    /// bump seed that goes with it.
    pub fn find_pda(&self, seeds: &[&[u8]]) -> (r: (Pubkey, u8))
        requires
            program_address(seeds.deep_view(), self.program_id@) is Some,
        ensures
            program_address(seeds.deep_view(), self.program_id@) == Some((r.0@, r.1)),
    {
        Pubkey::find_program_address(seeds, &self.program_id)
    }

    /// The address that the program under test derives from `seeds` with its
    /// bump seed, or `None` where the seeds give none.
    pub fn try_find_pda(&self, seeds: &[&[u8]]) -> (r: Option<(Pubkey, u8)>)
        ensures
            r is Some == program_address(seeds.deep_view(), self.program_id@) is Some,
            r matches Some(found) ==> program_address(seeds.deep_view(), self.program_id@) == Some(
                (found.0@, found.1),
            ),
            seeds_out_of_bounds(seeds.deep_view()) ==> r is None,
    {
        match Pubkey::try_find_program_address(seeds, &self.program_id) {
            Some(_) => Some(self.find_pda(seeds)),
            None => None,
        }
    }

    /// Puts `instruction` into a transaction that `signers` sign and the
    /// first of them pays for, and names it after the program it calls.
    /// Without a signer there is nothing to hand to the ledger.
    pub fn execute_instruction(&self, instruction: Instruction, signers: Vec<Pubkey>) -> (r: Result<
        (TransactionRequest, String),
        TransactionError,
    >)
        ensures
            match r {
                Ok(prepared) => {
                    &&& signers@.len() > 0
                    &&& prepared.0.instructions@ == seq![instruction]
                    &&& prepared.0.signers == signers
                    &&& prepared.0.payer == signers@[0]
                    &&& prepared.1@ == instruction_label(instruction.program_id)
                },
                Err(e) => {
                    &&& signers@.len() == 0
                    &&& e is BuildError
                    &&& e.detail() == "No signers provided"@
                },
            },
    {
        let label = String::from_str("instruction to ").concat(
            instruction.program_id.to_string().as_str(),
        );
        let mut instructions: Vec<Instruction> = Vec::new();
        instructions.push(instruction);
        match prepare_transaction(instructions, signers) {
            Ok(request) => Ok((request, label)),
            Err(e) => Err(e),
        }
    }

    /// Puts `instructions` into one transaction that `signers` sign and the
    /// first of them pays for. Without a signer there is nothing to hand to
    /// the ledger.
    pub fn execute_instructions(&self, instructions: Vec<Instruction>, signers: Vec<Pubkey>) -> (r:
        Result<(TransactionRequest, String), TransactionError>)
        ensures
            match r {
                Ok(prepared) => {
                    &&& signers@.len() > 0
                    &&& prepared.0.instructions == instructions
                    &&& prepared.0.signers == signers
                    &&& prepared.0.payer == signers@[0]
                    &&& prepared.1@ == batch_label()
                },
                Err(e) => {
                    &&& signers@.len() == 0
                    &&& e is BuildError
                    &&& e.detail() == "No signers provided"@
                },
            },
    {
        match prepare_transaction(instructions, signers) {
            Ok(request) => Ok((request, String::from_str("batch transaction"))),
            Err(e) => Err(e),
        }
    }
}

} // verus!

//! A request builder with the calls of Anchor's client: accounts, then
//! arguments, then the instructions.

use crate::instruction::{AccountMeta, Instruction, InstructionView};
use crate::pubkey::Pubkey;
use crate::transaction::TransactionError;
use vstd::prelude::*;
use vstd::string::StringExecFns;

verus! {

/// A program, by its address.
#[derive(Clone, Copy, Debug)]
pub struct Program {
    program_id: Pubkey,
}

impl Program {
    /// The address of the program as a mathematical value.
    pub closed spec fn spec_id(&self) -> Pubkey {
        self.program_id
    }

    /// The program at `program_id`.
    pub fn new(program_id: Pubkey) -> (r: Self)
        ensures
            r.spec_id() == program_id,
    {
        Program { program_id }
    }

    /// Starts a request to the program, with no account and no payload.
    pub fn request(&self) -> (r: RequestBuilder)
        ensures
            r@ == (InstructionView {
                program_id: self.spec_id(),
                accounts: Seq::empty(),
                data: Seq::empty(),
            }),
    {
        RequestBuilder::new(self.program_id)
    }

    /// The address of the program.
    pub fn id(&self) -> (r: Pubkey)
        ensures
            r == self.spec_id(),
    {
        self.program_id
    }
}

/// What is said when the instructions are asked for before the payload was
/// set.
pub open spec fn missing_payload_message() -> Seq<char> {
    "No instruction data provided. Call .args() before .instructions()"@
}

/// A request to a program while it is put together.
#[derive(Debug)]
pub struct RequestBuilder {
    program_id: Pubkey,
    accounts: Vec<AccountMeta>,
    data: Vec<u8>,
}

impl View for RequestBuilder {
    type V = InstructionView;

    closed spec fn view(&self) -> InstructionView {
        InstructionView { program_id: self.program_id, accounts: self.accounts@, data: self.data@ }
    }
}

impl RequestBuilder {
    fn new(program_id: Pubkey) -> (r: Self)
        ensures
            r@ == (InstructionView { program_id, accounts: Seq::empty(), data: Seq::empty() }),
    {
        RequestBuilder { program_id, accounts: Vec::new(), data: Vec::new() }
    }

    /// Sets the accounts of the request, in place of those set before.
    pub fn accounts(self, accounts: Vec<AccountMeta>) -> (r: Self)
        ensures
            r@ == (InstructionView { accounts: accounts@, ..self@ }),
    {
        let mut request = self;
        request.accounts = accounts;
        request
    }

    /// Sets the payload of the request, in place of the one set before.
    pub fn args(self, data: Vec<u8>) -> (r: Self)
        ensures
            r@ == (InstructionView { data: data@, ..self@ }),
    {
        let mut request = self;
        request.data = data;
        request
    }

    /// The one instruction of the request. Fails if the payload was never
    /// set, or is empty.
    pub fn instruction(self) -> (r: Result<Instruction, TransactionError>)
        ensures
            match r {
                Ok(ix) => self@.data.len() > 0 && ix@ == self@,
                Err(e) => {
                    &&& self@.data.len() == 0
                    &&& e is BuildError
                    &&& e.detail() == missing_payload_message()
                },
            },
    {
        if self.data.len() == 0 {
            return Err(
                TransactionError::BuildError(
                    String::from_str(
                        "No instruction data provided. Call .args() before .instructions()",
                    ),
                ),
            );
        }
        Ok(Instruction { program_id: self.program_id, accounts: self.accounts, data: self.data })
    }

    /// The instructions of the request: there is one. Fails if the payload
    /// was never set, or is empty.
    pub fn instructions(self) -> (r: Result<Vec<Instruction>, TransactionError>)
        ensures
            match r {
                Ok(ixs) => self@.data.len() > 0 && ixs@.len() == 1 && ixs@[0]@ == self@,
                Err(e) => {
                    &&& self@.data.len() == 0
                    &&& e is BuildError
                    &&& e.detail() == missing_payload_message()
                },
            },
    {
        match self.instruction() {
            Ok(ix) => {
                let mut ixs: Vec<Instruction> = Vec::new();
                ixs.push(ix);
                Ok(ixs)
            },
            Err(e) => Err(e),
        }
    }
}

} // verus!

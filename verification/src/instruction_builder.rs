//! A builder that puts an instruction together account by account.

use crate::encode::{le_bytes, lemma_le_bytes_len, AnchorSerialize, EncodeError};
use crate::instruction::{
    anchor_discriminator, anchor_instruction_data, calculate_anchor_discriminator, AccountMeta,
    Instruction, InstructionView,
};
use crate::programs::{
    associated_token_program_id, rent_sysvar_id, system_program_id, token_program_id,
    ASSOCIATED_TOKEN_PROGRAM, RENT_SYSVAR, SYSTEM_PROGRAM, TOKEN_PROGRAM,
};
use crate::pubkey::Pubkey;
use crate::text::str_eq;
use crate::transaction::{prepare_transaction, TransactionError, TransactionRequest};
use vstd::prelude::*;
use vstd::string::StringExecFns;

verus! {

/// What an `InstructionBuilder` holds, as mathematical values.
pub struct InstructionBuilderView {
    pub program_id: Pubkey,
    pub instruction_name: Seq<char>,
    /// The accounts in the order in which they were added, each with the name
    /// it was added under.
    pub accounts: Seq<(Seq<char>, AccountMeta)>,
    /// The payload; empty until the arguments are set.
    pub data: Seq<u8>,
}

/// The account that was last added to `accounts` under `name`.
pub open spec fn last_named(accounts: Seq<(Seq<char>, AccountMeta)>, name: Seq<char>) -> Option<
    AccountMeta,
>
    decreases accounts.len(),
{
    if accounts.len() == 0 {
        None
    } else if accounts.last().0 == name {
        Some(accounts.last().1)
    } else {
        last_named(accounts.drop_last(), name)
    }
}

impl InstructionBuilderView {
    /// The builder with one more account at the end.
    pub open spec fn with_account(self, name: Seq<char>, meta: AccountMeta) -> Self {
        InstructionBuilderView { accounts: self.accounts.push((name, meta)), ..self }
    }

    /// The builder with the accounts of `added` at the end, in their order.
    pub open spec fn with_accounts(self, added: Seq<(Seq<char>, AccountMeta)>) -> Self {
        InstructionBuilderView { accounts: self.accounts + added, ..self }
    }

    /// The builder with its payload set for arguments that encode as `args`.
    pub open spec fn with_args(self, args: Seq<u8>) -> Self {
        InstructionBuilderView {
            data: anchor_instruction_data(self.instruction_name, args),
            ..self
        }
    }

    /// The accounts without their names.
    pub open spec fn metas(self) -> Seq<AccountMeta> {
        self.accounts.map_values(|entry: (Seq<char>, AccountMeta)| entry.1)
    }

    /// The instruction that the builder stands for, if its arguments were set.
    pub open spec fn built(self) -> Option<InstructionView> {
        if self.data.len() == 0 {
            None
        } else {
            Some(
                InstructionView {
                    program_id: self.program_id,
                    accounts: self.metas(),
                    data: self.data,
                },
            )
        }
    }
}

/// Once the arguments are set the instruction can be built, whatever they
/// are and whether or not there is an account: its payload is the tag of the
/// instruction's name followed by the encoded arguments.
pub proof fn lemma_args_make_buildable(builder: InstructionBuilderView, args: Seq<u8>)
    ensures
        builder.with_args(args).built() is Some,
        builder.with_args(args).built().unwrap().data == anchor_instruction_data(
            builder.instruction_name,
            args,
        ),
        builder.with_args(args).built().unwrap().data.len() == 8 + args.len(),
        is_tagged(builder.with_args(args).built().unwrap().data, builder.instruction_name),
{
    assert(anchor_instruction_data(builder.instruction_name, args).subrange(0, 8)
        =~= anchor_discriminator(builder.instruction_name));
}

/// A builder whose arguments were never set cannot be built, however many
/// accounts are added to it.
pub proof fn lemma_accounts_alone_not_buildable(
    builder: InstructionBuilderView,
    added: Seq<(Seq<char>, AccountMeta)>,
)
    requires
        builder.data.len() == 0,
    ensures
        builder.with_accounts(added).built() is None,
{
}

/// Accounts that are added one after the other stand in the built
/// instruction in that order, behind those that were there before, and
/// whatever name and flags each was added with.
pub proof fn lemma_insertion_order_preserved(
    builder: InstructionBuilderView,
    added: Seq<(Seq<char>, AccountMeta)>,
    args: Seq<u8>,
)
    ensures
        builder.with_accounts(added).with_args(args).built() is Some,
        builder.with_accounts(added).with_args(args).built().unwrap().accounts
            == builder.metas() + added.map_values(|entry: (Seq<char>, AccountMeta)| entry.1),
        forall|name: Seq<char>, meta: AccountMeta|
            builder.with_accounts(added).with_account(name, meta) == #[trigger] builder.with_accounts(
                added.push((name, meta)),
            ),
        builder.with_accounts(Seq::empty()) == builder,
{
    let built = builder.with_accounts(added).with_args(args).built().unwrap();
    assert forall|name: Seq<char>, meta: AccountMeta|
        builder.with_accounts(added).with_account(name, meta) == #[trigger] builder.with_accounts(
            added.push((name, meta)),
        ) by {
    }
}

/// The payload for a single 64-bit argument has sixteen bytes: the tag, then
/// the argument in little-endian order.
pub proof fn lemma_single_u64_payload(name: Seq<char>, value: u64)
    ensures
        anchor_instruction_data(name, TupleArgs((value,)).encoding()).len() == 16,
        anchor_instruction_data(name, TupleArgs((value,)).encoding()).subrange(8, 16) == le_bytes(
            value as nat,
            8,
        ),
{
    lemma_le_bytes_len(value as nat, 8);
}

/// Whether `data` begins with the tag of the instruction `name`.
pub open spec fn is_tagged(data: Seq<u8>, name: Seq<char>) -> bool {
    data.len() >= 8 && data.subrange(0, 8) == anchor_discriminator(name)
}

/// What is said when an instruction is built before its arguments were set.
pub open spec fn missing_args_message() -> Seq<char> {
    "No instruction data provided. Call .args() before .build()"@
}

/// Puts an instruction together: accounts are added one by one and keep
/// their order, then the arguments are set, then the instruction is built.
#[derive(Debug)]
pub struct InstructionBuilder {
    program_id: Pubkey,
    instruction_name: String,
    accounts: Vec<(String, AccountMeta)>,
    data: Vec<u8>,
}

/// The view of one named account.
pub open spec fn entry_view(entry: (String, AccountMeta)) -> (Seq<char>, AccountMeta) {
    (entry.0@, entry.1)
}

impl View for InstructionBuilder {
    type V = InstructionBuilderView;

    closed spec fn view(&self) -> InstructionBuilderView {
        InstructionBuilderView {
            program_id: self.program_id,
            instruction_name: self.instruction_name@,
            accounts: self.accounts@.map_values(|entry: (String, AccountMeta)| entry_view(entry)),
            data: self.data@,
        }
    }
}

impl InstructionBuilder {
    /// A payload that is not empty begins with the tag of the instruction's
    /// name.
    #[verifier::type_invariant]
    spec fn payload_is_tagged(self) -> bool {
        self.data@.len() == 0 || is_tagged(self.data@, self.instruction_name@)
    }

    /// A builder for the instruction `instruction_name` of the program
    /// `program_id`, with no account and no arguments yet.
    pub fn new(program_id: &Pubkey, instruction_name: &str) -> (r: Self)
        ensures
            r@ == (InstructionBuilderView {
                program_id: *program_id,
                instruction_name: instruction_name@,
                accounts: Seq::empty(),
                data: Seq::empty(),
            }),
    {
        let r = InstructionBuilder {
            program_id: *program_id,
            instruction_name: String::from_str(instruction_name),
            accounts: Vec::new(),
            data: Vec::new(),
        };
        assert(r@.accounts =~= Seq::empty());
        r
    }

    fn push(self, name: &str, meta: AccountMeta) -> (r: Self)
        ensures
            r@ == self@.with_account(name@, meta),
    {
        proof {
            use_type_invariant(&self);
        }
        let mut accounts = self.accounts;
        accounts.push((String::from_str(name), meta));
        let builder = InstructionBuilder {
            program_id: self.program_id,
            instruction_name: self.instruction_name,
            accounts,
            data: self.data,
        };
        assert(builder@.accounts =~= self@.accounts.push((name@, meta)));
        builder
    }

    /// Adds an account that the program only reads.
    pub fn account(self, name: &str, pubkey: Pubkey) -> (r: Self)
        ensures
            r@ == self@.with_account(
                name@,
                AccountMeta { pubkey, is_signer: false, is_writable: false },
            ),
    {
        self.push(name, AccountMeta::new_readonly(pubkey, false))
    }

    /// Adds an account that the program may change.
    pub fn account_mut(self, name: &str, pubkey: Pubkey) -> (r: Self)
        ensures
            r@ == self@.with_account(
                name@,
                AccountMeta { pubkey, is_signer: false, is_writable: true },
            ),
    {
        self.push(name, AccountMeta::new(pubkey, false))
    }

    /// Adds an account that signs and that the program may change.
    pub fn signer(self, name: &str, pubkey: Pubkey) -> (r: Self)
        ensures
            r@ == self@.with_account(
                name@,
                AccountMeta { pubkey, is_signer: true, is_writable: true },
            ),
    {
        self.push(name, AccountMeta::new(pubkey, true))
    }

    /// Adds an account that signs and that the program only reads.
    pub fn signer_readonly(self, name: &str, pubkey: Pubkey) -> (r: Self)
        ensures
            r@ == self@.with_account(
                name@,
                AccountMeta { pubkey, is_signer: true, is_writable: false },
            ),
    {
        self.push(name, AccountMeta::new_readonly(pubkey, true))
    }

    /// Adds the system program, under the name `system_program`.
    pub fn system_program(self) -> (r: Self)
        ensures
            r@ == self@.with_account(
                "system_program"@,
                AccountMeta { pubkey: Pubkey(SYSTEM_PROGRAM), is_signer: false, is_writable: false },
            ),
    {
        self.account("system_program", system_program_id())
    }

    /// Adds the token program, under the name `token_program`.
    pub fn token_program(self) -> (r: Self)
        ensures
            r@ == self@.with_account(
                "token_program"@,
                AccountMeta { pubkey: Pubkey(TOKEN_PROGRAM), is_signer: false, is_writable: false },
            ),
    {
        self.account("token_program", token_program_id())
    }

    /// Adds the associated token account program, under the name
    /// `associated_token_program`.
    pub fn associated_token_program(self) -> (r: Self)
        ensures
            r@ == self@.with_account(
                "associated_token_program"@,
                AccountMeta { pubkey: Pubkey(ASSOCIATED_TOKEN_PROGRAM), is_signer: false, is_writable: false },
            ),
    {
        self.account("associated_token_program", associated_token_program_id())
    }

    /// Adds the account that holds the rent parameters, under the name `rent`.
    pub fn rent_sysvar(self) -> (r: Self)
        ensures
            r@ == self@.with_account(
                "rent"@,
                AccountMeta { pubkey: Pubkey(RENT_SYSVAR), is_signer: false, is_writable: false },
            ),
    {
        self.account("rent", rent_sysvar_id())
    }

    /// Sets the arguments: the payload becomes the instruction's tag and the
    /// encoded arguments. Where `args` has no encoding the builder comes back
    /// unchanged, with the reason.
    pub fn try_args<T: AnchorSerialize>(self, args: T) -> (r: Result<Self, (Self, EncodeError)>)
        ensures
            r is Ok == args.encodable(),
            match r {
                Ok(builder) => builder@ == self@.with_args(args.encoding()),
                Err(unchanged) => unchanged.0@ == self@,
            },
    {
        let tag = calculate_anchor_discriminator(self.instruction_name.as_str());
        let mut data: Vec<u8> = Vec::new();
        data.extend_from_slice(tag.as_slice());
        match args.serialize(&mut data) {
            Ok(()) => {
                assert(data@.subrange(0, 8) =~= anchor_discriminator(self@.instruction_name));
                let builder = InstructionBuilder {
                    program_id: self.program_id,
                    instruction_name: self.instruction_name,
                    accounts: self.accounts,
                    data,
                };
                Ok(builder)
            },
            Err(e) => Err((self, e)),
        }
    }

    /// Sets the arguments: the payload becomes the instruction's tag and the
    /// encoded arguments.
    pub fn args<T: AnchorSerialize>(self, args: T) -> (r: Self)
        requires
            args.encodable(),
        ensures
            r@ == self@.with_args(args.encoding()),
    {
        match self.try_args(args) {
            Ok(builder) => builder,
            Err(unchanged) => unchanged.0,
        }
    }

    /// Builds the instruction: its accounts are those of the builder in the
    /// order in which they were added. Fails if the arguments were never set.
    pub fn build(self) -> (r: Result<Instruction, TransactionError>)
        ensures
            match r {
                Ok(ix) => self@.built() == Some(ix@) && is_tagged(ix.data@, self@.instruction_name),
                Err(e) => {
                    &&& self@.built() is None
                    &&& e is BuildError
                    &&& e.detail() == missing_args_message()
                },
            },
    {
        proof {
            use_type_invariant(&self);
        }
        if self.data.len() == 0 {
            return Err(
                TransactionError::BuildError(
                    String::from_str("No instruction data provided. Call .args() before .build()"),
                ),
            );
        }
        let mut accounts: Vec<AccountMeta> = Vec::new();
        let mut i: usize = 0;
        while i < self.accounts.len()
            invariant
                i <= self.accounts@.len(),
                accounts@ == self@.metas().take(i as int),
            decreases self.accounts@.len() - i,
        {
            accounts.push(self.accounts[i].1);
            i += 1;
        }
        assert(accounts@ =~= self@.metas());
        Ok(Instruction { program_id: self.program_id, accounts, data: self.data })
    }

    /// The account that was last added under `name`, if there is one. The
    /// accounts are looked through from the last to the first.
    pub fn get_account(&self, name: &str) -> (r: Option<&AccountMeta>)
        ensures
            r is Some == last_named(self@.accounts, name@) is Some,
            r matches Some(meta) ==> last_named(self@.accounts, name@) == Some(*meta),
    {
        let mut i: usize = self.accounts.len();
        assert(self@.accounts.take(i as int) =~= self@.accounts);
        while i > 0
            invariant
                i <= self.accounts@.len(),
                last_named(self@.accounts, name@) == last_named(
                    self@.accounts.take(i as int),
                    name@,
                ),
            decreases i,
        {
            let ghost head = self@.accounts.take(i as int);
            i -= 1;
            proof {
                assert(head.drop_last() =~= self@.accounts.take(i as int));
            }
            if str_eq(self.accounts[i].0.as_str(), name) {
                return Some(&self.accounts[i].1);
            }
        }
        None
    }

    /// The accounts in the order in which they were added.
    pub fn accounts(&self) -> (r: Vec<&AccountMeta>)
        ensures
            r@.len() == self@.accounts.len(),
            forall|i: int| 0 <= i < r@.len() ==> *#[trigger] r@[i] == self@.metas()[i],
    {
        let mut metas: Vec<&AccountMeta> = Vec::new();
        let mut i: usize = 0;
        while i < self.accounts.len()
            invariant
                i <= self.accounts@.len(),
                metas@.len() == i,
                forall|j: int| 0 <= j < i ==> *#[trigger] metas@[j] == self@.metas()[j],
            decreases self.accounts@.len() - i,
        {
            metas.push(&self.accounts[i].1);
            i += 1;
        }
        metas
    }

    /// The name of the instruction.
    pub fn instruction_name(&self) -> (r: &str)
        ensures
            r@ == self@.instruction_name,
    {
        self.instruction_name.as_str()
    }

    /// Builds the instruction and puts it into a transaction that `signers`
    /// sign and the first of them pays for; with it comes the name under
    /// which the result is kept. Fails if the arguments were never set, and
    /// then if there is no signer.
    pub fn execute(self, signers: Vec<Pubkey>) -> (r: Result<
        (TransactionRequest, String),
        TransactionError,
    >)
        ensures
            match r {
                Ok(prepared) => {
                    &&& signers@.len() > 0
                    &&& prepared.0.instructions@.len() == 1
                    &&& self@.built() == Some(prepared.0.instructions@[0]@)
                    &&& is_tagged(prepared.0.instructions@[0].data@, self@.instruction_name)
                    &&& prepared.0.payer == signers@[0]
                    &&& prepared.0.signers == signers
                    &&& prepared.1@ == self@.instruction_name
                },
                Err(e) => {
                    &&& e is BuildError
                    &&& if self@.built() is None {
                        e.detail() == missing_args_message()
                    } else {
                        signers@.len() == 0 && e.detail() == "No signers provided"@
                    }
                },
            },
    {
        let name = self.instruction_name.clone();
        match self.build() {
            Ok(ix) => {
                let mut instructions: Vec<Instruction> = Vec::new();
                instructions.push(ix);
                match prepare_transaction(instructions, signers) {
                    Ok(request) => Ok((request, name)),
                    Err(e) => Err(e),
                }
            },
            Err(e) => Err(e),
        }
    }
}

/// Arguments given as a tuple, which are encoded one after the other.
pub struct TupleArgs<T>(pub T);

/// Wraps a tuple of up to four values so that it can be given as arguments.
pub fn tuple_args<T>(args: T) -> (r: TupleArgs<T>)
    ensures
        r.0 == args,
{
    TupleArgs(args)
}

impl AnchorSerialize for TupleArgs<()> {
    open spec fn encodable(&self) -> bool {
        true
    }

    open spec fn encoding(&self) -> Seq<u8> {
        Seq::empty()
    }

    fn serialize(&self, out: &mut Vec<u8>) -> (r: Result<(), EncodeError>) {
        Ok(())
    }
}

impl<T1: AnchorSerialize> AnchorSerialize for TupleArgs<(T1,)> {
    open spec fn encodable(&self) -> bool {
        self.0.0.encodable()
    }

    open spec fn encoding(&self) -> Seq<u8> {
        self.0.0.encoding()
    }

    fn serialize(&self, out: &mut Vec<u8>) -> (r: Result<(), EncodeError>) {
        self.0.0.serialize(out)
    }
}

impl<T1: AnchorSerialize, T2: AnchorSerialize> AnchorSerialize for TupleArgs<(T1, T2)> {
    open spec fn encodable(&self) -> bool {
        self.0.0.encodable() && self.0.1.encodable()
    }

    open spec fn encoding(&self) -> Seq<u8> {
        self.0.0.encoding() + self.0.1.encoding()
    }

    fn serialize(&self, out: &mut Vec<u8>) -> (r: Result<(), EncodeError>) {
        match self.0.0.serialize(out) {
            Ok(()) => {},
            Err(e) => {
                return Err(e);
            },
        }
        let r = self.0.1.serialize(out);
        r
    }
}

impl<T1: AnchorSerialize, T2: AnchorSerialize, T3: AnchorSerialize> AnchorSerialize for TupleArgs<
    (T1, T2, T3),
> {
    open spec fn encodable(&self) -> bool {
        self.0.0.encodable() && self.0.1.encodable() && self.0.2.encodable()
    }

    open spec fn encoding(&self) -> Seq<u8> {
        self.0.0.encoding() + self.0.1.encoding() + self.0.2.encoding()
    }

    fn serialize(&self, out: &mut Vec<u8>) -> (r: Result<(), EncodeError>) {
        match self.0.0.serialize(out) {
            Ok(()) => {},
            Err(e) => {
                return Err(e);
            },
        }
        match self.0.1.serialize(out) {
            Ok(()) => {},
            Err(e) => {
                return Err(e);
            },
        }
        let r = self.0.2.serialize(out);
        r
    }
}

impl<
    T1: AnchorSerialize,
    T2: AnchorSerialize,
    T3: AnchorSerialize,
    T4: AnchorSerialize,
> AnchorSerialize for TupleArgs<(T1, T2, T3, T4)> {
    open spec fn encodable(&self) -> bool {
        &&& self.0.0.encodable()
        &&& self.0.1.encodable()
        &&& self.0.2.encodable()
        &&& self.0.3.encodable()
    }

    open spec fn encoding(&self) -> Seq<u8> {
        self.0.0.encoding() + self.0.1.encoding() + self.0.2.encoding() + self.0.3.encoding()
    }

    fn serialize(&self, out: &mut Vec<u8>) -> (r: Result<(), EncodeError>) {
        match self.0.0.serialize(out) {
            Ok(()) => {},
            Err(e) => {
                return Err(e);
            },
        }
        match self.0.1.serialize(out) {
            Ok(()) => {},
            Err(e) => {
                return Err(e);
            },
        }
        match self.0.2.serialize(out) {
            Ok(()) => {},
            Err(e) => {
                return Err(e);
            },
        }
        let r = self.0.3.serialize(out);
        r
    }
}

} // verus!

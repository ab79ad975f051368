//! Instructions as a program receives them, and the eight-byte tags that
//! Anchor programs dispatch on.

use crate::encode::{AnchorSerialize, EncodeError};
use crate::pubkey::Pubkey;
use vstd::prelude::*;
use vstd::utf8::encode_utf8;

verus! {

/// An account that an instruction names, with what the program may do to it.
#[derive(Clone, Copy, Debug, PartialEq, Eq, Hash)]
pub struct AccountMeta {
    /// The account's address.
    pub pubkey: Pubkey,
    /// Whether the transaction must carry a signature for this address.
    pub is_signer: bool,
    /// Whether the program may change the account.
    pub is_writable: bool,
}

impl AccountMeta {
    /// A writable account.
    pub fn new(pubkey: Pubkey, is_signer: bool) -> (r: Self)
        ensures
            r == (AccountMeta { pubkey, is_signer, is_writable: true }),
    {
        AccountMeta { pubkey, is_signer, is_writable: true }
    }

    /// An account that the program only reads.
    pub fn new_readonly(pubkey: Pubkey, is_signer: bool) -> (r: Self)
        ensures
            r == (AccountMeta { pubkey, is_signer, is_writable: false }),
    {
        AccountMeta { pubkey, is_signer, is_writable: false }
    }
}

/// One call of a program: which program, on which accounts in which order,
/// with which payload.
#[derive(Clone, Debug, PartialEq, Eq)]
pub struct Instruction {
    /// The program that is called.
    pub program_id: Pubkey,
    /// The accounts handed to it, in the order in which it expects them.
    pub accounts: Vec<AccountMeta>,
    /// The payload: for an Anchor program, a discriminator and the encoded
    /// arguments.
    pub data: Vec<u8>,
}

/// What an instruction holds, as mathematical values.
pub struct InstructionView {
    pub program_id: Pubkey,
    pub accounts: Seq<AccountMeta>,
    pub data: Seq<u8>,
}

impl View for Instruction {
    type V = InstructionView;

    open spec fn view(&self) -> InstructionView {
        InstructionView { program_id: self.program_id, accounts: self.accounts@, data: self.data@ }
    }
}

/// The SHA-256 digest of `data`.
pub uninterp spec fn sha256(data: Seq<u8>) -> Seq<u8>;

/// Calls `sha2::Sha256::digest`. The contract names the 32 bytes that come
/// back after the bytes that went in; it says nothing else of them.
#[verifier::external_body]
fn sha256_digest(data: &[u8]) -> (digest: [u8; 32])
    ensures
        digest@ == sha256(data@),
{
    <sha2::Sha256 as sha2::Digest>::digest(data).into()
}

/// The eight-byte tag of `name` in `namespace`: the head of the digest of the
/// two, joined by a colon.
pub open spec fn discriminator_of(namespace: Seq<char>, name: Seq<char>) -> Seq<u8> {
    let digest = sha256(encode_utf8(namespace) + seq![58u8] + encode_utf8(name));
    Seq::new(8, |i: int| digest[i])
}

/// The tag by which an Anchor program recognises the instruction `name`.
pub open spec fn anchor_discriminator(name: Seq<char>) -> Seq<u8> {
    discriminator_of("global"@, name)
}

/// The tag that an Anchor program puts before an event of type `name`.
pub open spec fn anchor_event_discriminator(name: Seq<char>) -> Seq<u8> {
    discriminator_of("event"@, name)
}

/// Computes the tag of `name` in `namespace`.
pub fn discriminator(namespace: &str, name: &str) -> (tag: [u8; 8])
    ensures
        tag@ == discriminator_of(namespace@, name@),
{
    let mut preimage: Vec<u8> = Vec::new();
    preimage.extend_from_slice(namespace.as_bytes());
    preimage.push(58);
    preimage.extend_from_slice(name.as_bytes());
    assert(preimage@ =~= encode_utf8(namespace@) + seq![58u8] + encode_utf8(name@));
    let digest = sha256_digest(preimage.as_slice());
    let tag: [u8; 8] = [
        digest[0],
        digest[1],
        digest[2],
        digest[3],
        digest[4],
        digest[5],
        digest[6],
        digest[7],
    ];
    tag
}

/// Computes the tag of the instruction `instruction_name`.
pub fn calculate_anchor_discriminator(instruction_name: &str) -> (tag: [u8; 8])
    ensures
        tag@ == anchor_discriminator(instruction_name@),
        tag@.len() == 8,
{
    discriminator("global", instruction_name)
}

/// Computes the tag of the event type `event_name`.
pub fn calculate_event_discriminator(event_name: &str) -> (tag: [u8; 8])
    ensures
        tag@ == anchor_event_discriminator(event_name@),
        tag@.len() == 8,
{
    discriminator("event", event_name)
}

/// A tag has eight bytes and depends on the name alone: equal names have
/// equal tags, so two names whose tags differ are different names. The
/// converse is no law: a tag has eight bytes, and a name may be of any length.
pub proof fn lemma_discriminator_deterministic(first: Seq<char>, second: Seq<char>)
    ensures
        anchor_discriminator(first).len() == 8,
        first == second ==> anchor_discriminator(first) == anchor_discriminator(second),
        anchor_discriminator(first) != anchor_discriminator(second) ==> first != second,
{
}

/// The payload of an Anchor instruction: its tag, then its arguments.
pub open spec fn anchor_instruction_data(name: Seq<char>, args: Seq<u8>) -> Seq<u8> {
    anchor_discriminator(name) + args
}

/// Builds the call of `instruction_name` in the program `program_id` on
/// `accounts` with `args`. It fails only if `args` has no encoding.
pub fn build_anchor_instruction<T: AnchorSerialize>(
    program_id: &Pubkey,
    instruction_name: &str,
    accounts: Vec<AccountMeta>,
    args: T,
) -> (r: Result<Instruction, EncodeError>)
    ensures
        r.is_ok() == args.encodable(),
        r matches Ok(ix) ==> {
            &&& ix.program_id == *program_id
            &&& ix.accounts@ == accounts@
            &&& ix.data@ == anchor_instruction_data(instruction_name@, args.encoding())
        },
{
    let tag = calculate_anchor_discriminator(instruction_name);
    let mut data: Vec<u8> = Vec::new();
    data.extend_from_slice(tag.as_slice());
    match args.serialize(&mut data) {
        Ok(()) => {
            Ok(Instruction { program_id: *program_id, accounts, data })
        },
        Err(e) => Err(e),
    }
}

} // verus!

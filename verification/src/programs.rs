//! The programs that every ledger has: their addresses, the instructions of
//! theirs that a test sends most often, and the layout of a token account and
//! of a mint.

use crate::encode::le_bytes;
use crate::instruction::{AccountMeta, Instruction};
use crate::pubkey::{program_address, Pubkey};
use vstd::prelude::*;

verus! {

/// The bytes of a mint account.
pub const MINT_LEN: u64 = 82;

/// The bytes of a token account.
pub const TOKEN_ACCOUNT_LEN: u64 = 165;

/// The bytes of the system program's address.
pub const SYSTEM_PROGRAM: [u8; 32] = [
    0, 0, 0, 0, 0, 0, 0, 0, 0, 0, 0, 0, 0, 0, 0, 0,
    0, 0, 0, 0, 0, 0, 0, 0, 0, 0, 0, 0, 0, 0, 0, 0,
];

/// The bytes of the system program's address.
pub open spec fn system_program_address() -> Seq<u8> {
    SYSTEM_PROGRAM@
}

/// The bytes of the token program's address.
pub const TOKEN_PROGRAM: [u8; 32] = [
    6, 221, 246, 225, 215, 101, 161, 147, 217, 203, 225, 70, 206, 235, 121, 172,
    28, 180, 133, 237, 95, 91, 55, 145, 58, 140, 245, 133, 126, 255, 0, 169,
];

/// The bytes of the token program's address.
pub open spec fn token_program_address() -> Seq<u8> {
    TOKEN_PROGRAM@
}

/// The bytes of the associated token account program's address.
pub const ASSOCIATED_TOKEN_PROGRAM: [u8; 32] = [
    140, 151, 37, 143, 78, 36, 137, 241, 187, 61, 16, 41, 20, 142, 13, 131,
    11, 90, 19, 153, 218, 255, 16, 132, 4, 142, 123, 216, 219, 233, 248, 89,
];

/// The bytes of the associated token account program's address.
pub open spec fn associated_token_program_address() -> Seq<u8> {
    ASSOCIATED_TOKEN_PROGRAM@
}

/// The bytes of the rent parameters account's address.
pub const RENT_SYSVAR: [u8; 32] = [
    6, 167, 213, 23, 25, 44, 92, 81, 33, 140, 201, 76, 61, 74, 241, 127,
    88, 218, 238, 8, 155, 161, 253, 68, 227, 219, 217, 138, 0, 0, 0, 0,
];

/// The bytes of the rent parameters account's address.
pub open spec fn rent_sysvar_address() -> Seq<u8> {
    RENT_SYSVAR@
}

/// The system program.
pub fn system_program_id() -> (r: Pubkey)
    ensures
        r == Pubkey(SYSTEM_PROGRAM),
{
    Pubkey(SYSTEM_PROGRAM)
}

/// The token program.
pub fn token_program_id() -> (r: Pubkey)
    ensures
        r == Pubkey(TOKEN_PROGRAM),
{
    Pubkey(TOKEN_PROGRAM)
}

/// The associated token account program.
pub fn associated_token_program_id() -> (r: Pubkey)
    ensures
        r == Pubkey(ASSOCIATED_TOKEN_PROGRAM),
{
    Pubkey(ASSOCIATED_TOKEN_PROGRAM)
}

/// The account that holds the rent parameters.
pub fn rent_sysvar_id() -> (r: Pubkey)
    ensures
        r == Pubkey(RENT_SYSVAR),
{
    Pubkey(RENT_SYSVAR)
}

/// A writable account, by the bytes of its address.
pub open spec fn writable(address: Seq<u8>, is_signer: bool, meta: AccountMeta) -> bool {
    meta.pubkey@ == address && meta.is_signer == is_signer && meta.is_writable
}

/// An account that is only read, by the bytes of its address.
pub open spec fn readonly(address: Seq<u8>, is_signer: bool, meta: AccountMeta) -> bool {
    meta.pubkey@ == address && meta.is_signer == is_signer && !meta.is_writable
}

/// The payload of the system program's instruction that creates an account.
pub uninterp spec fn create_account_data(lamports: u64, space: u64, owner: Seq<u8>) -> Seq<u8>;

/// Whether `ix` calls the system program on the paying account `from` and
/// the new account `to`, both of which sign.
pub open spec fn creates_account(ix: Instruction, from: Pubkey, to: Pubkey) -> bool {
    &&& ix.program_id@ == system_program_address()
    &&& ix.accounts@.len() == 2
    &&& writable(from@, true, ix.accounts@[0])
    &&& writable(to@, true, ix.accounts@[1])
}

/// Whether `ix` asks the system program to create the account `to`, paid
/// for by `from`, with `lamports`, `space` bytes and the owner `owner`.
pub open spec fn is_create_account(
    ix: Instruction,
    from: Pubkey,
    to: Pubkey,
    lamports: u64,
    space: u64,
    owner: Seq<u8>,
) -> bool {
    &&& creates_account(ix, from, to)
    &&& ix.data@ == create_account_data(lamports, space, owner)
}

/// Calls `solana_program::system_instruction::create_account`. The contract
/// states the program and the two accounts as the outside source lists them,
/// and names the payload, which a serializer writes, after the three values
/// that go into it.
#[verifier::external_body]
pub(crate) fn system_create_account(
    from: &Pubkey,
    to: &Pubkey,
    lamports: u64,
    space: u64,
    owner: &Pubkey,
) -> (ix: Instruction)
    ensures
        creates_account(ix, *from, *to),
        ix.data@ == create_account_data(lamports, space, owner@),
{
    let ix = solana_program::system_instruction::create_account(
        &from.0.into(),
        &to.0.into(),
        lamports,
        space,
        &owner.0.into(),
    );
    let accounts = ix.accounts.iter().map(|m| AccountMeta {
        pubkey: Pubkey(m.pubkey.to_bytes()), is_signer: m.is_signer, is_writable: m.is_writable,
    }).collect();
    Instruction { program_id: Pubkey(ix.program_id.to_bytes()), accounts, data: ix.data }
}

/// The bytes that stand for an optional address in the payload of a token
/// instruction: a 0, or a 1 and the address.
pub open spec fn optional_address(address: Option<Pubkey>) -> Seq<u8> {
    match address {
        None => seq![0u8],
        Some(key) => seq![1u8] + key@,
    }
}

/// Whether `ix` asks the token program at `token_program` to initialize
/// `mint` with `decimals` decimals, the minting authority `authority` and the
/// freeze authority `freeze_authority`, if any.
pub open spec fn is_initialize_mint(
    ix: Instruction,
    token_program: Seq<u8>,
    mint: Pubkey,
    authority: Pubkey,
    freeze_authority: Option<Pubkey>,
    decimals: u8,
) -> bool {
    &&& ix.program_id@ == token_program
    &&& ix.accounts@.len() == 2
    &&& writable(mint@, false, ix.accounts@[0])
    &&& readonly(rent_sysvar_address(), false, ix.accounts@[1])
    &&& ix.data@ == seq![0u8, decimals] + authority@ + optional_address(freeze_authority)
}

/// Calls `spl_token::instruction::initialize_mint`, which returns an error
/// for another program than the token program. The contract states the
/// instruction as the outside source packs it: the mint and the rent
/// account, and a payload of the tag 0, the decimals, the authority and the
/// optional freeze authority.
#[verifier::external_body]
pub(crate) fn token_initialize_mint(
    token_program: &Pubkey,
    mint: &Pubkey,
    authority: &Pubkey,
    freeze_authority: Option<Pubkey>,
    decimals: u8,
) -> (ix: Instruction)
    requires
        token_program@ == token_program_address(),
    ensures
        is_initialize_mint(ix, token_program@, *mint, *authority, freeze_authority, decimals),
{
    let freeze: Option<solana_program::pubkey::Pubkey> = freeze_authority.map(|k| k.0.into());
    let ix = spl_token::instruction::initialize_mint(
        &token_program.0.into(), &mint.0.into(), &authority.0.into(), freeze.as_ref(), decimals,
    ).unwrap();
    let accounts = ix.accounts.iter().map(|m| AccountMeta {
        pubkey: Pubkey(m.pubkey.to_bytes()), is_signer: m.is_signer, is_writable: m.is_writable,
    }).collect();
    Instruction { program_id: Pubkey(ix.program_id.to_bytes()), accounts, data: ix.data }
}

/// Whether `ix` asks the token program at `token_program` to initialize
/// `account` as an account of `owner` for tokens of `mint`.
pub open spec fn is_initialize_account(
    ix: Instruction,
    token_program: Seq<u8>,
    account: Pubkey,
    mint: Pubkey,
    owner: Pubkey,
) -> bool {
    &&& ix.program_id@ == token_program
    &&& ix.accounts@.len() == 4
    &&& writable(account@, false, ix.accounts@[0])
    &&& readonly(mint@, false, ix.accounts@[1])
    &&& readonly(owner@, false, ix.accounts@[2])
    &&& readonly(rent_sysvar_address(), false, ix.accounts@[3])
    &&& ix.data@ == seq![1u8]
}

/// Calls `spl_token::instruction::initialize_account`, which returns an
/// error for another program than the token program. The contract states
/// the instruction as the outside source packs it: four accounts and the
/// tag 1.
#[verifier::external_body]
pub(crate) fn token_initialize_account(
    token_program: &Pubkey,
    account: &Pubkey,
    mint: &Pubkey,
    owner: &Pubkey,
) -> (ix: Instruction)
    requires
        token_program@ == token_program_address(),
    ensures
        is_initialize_account(ix, token_program@, *account, *mint, *owner),
{
    let ix = spl_token::instruction::initialize_account(
        &token_program.0.into(), &account.0.into(), &mint.0.into(), &owner.0.into(),
    ).unwrap();
    let accounts = ix.accounts.iter().map(|m| AccountMeta {
        pubkey: Pubkey(m.pubkey.to_bytes()), is_signer: m.is_signer, is_writable: m.is_writable,
    }).collect();
    Instruction { program_id: Pubkey(ix.program_id.to_bytes()), accounts, data: ix.data }
}

/// Whether `ix` asks the token program at `token_program` to mint `amount`
/// tokens of `mint` to `account`. The authority `owner` signs itself where
/// `signers` is empty; else those of `signers` sign for it.
pub open spec fn is_mint_to(
    ix: Instruction,
    token_program: Seq<u8>,
    mint: Pubkey,
    account: Pubkey,
    owner: Pubkey,
    signers: Seq<Pubkey>,
    amount: u64,
) -> bool {
    &&& ix.program_id@ == token_program
    &&& ix.accounts@.len() == 3 + signers.len()
    &&& writable(mint@, false, ix.accounts@[0])
    &&& writable(account@, false, ix.accounts@[1])
    &&& readonly(owner@, signers.len() == 0, ix.accounts@[2])
    &&& forall|i: int|
        0 <= i < signers.len() ==> readonly(signers[i]@, true, #[trigger] ix.accounts@[3 + i])
    &&& ix.data@ == seq![7u8] + le_bytes(amount as nat, 8)
}

/// Calls `spl_token::instruction::mint_to`, which returns an error for
/// another program than the token program. The contract states the
/// instruction as the outside source packs it: the mint, the account, the
/// authority and the signers, and a payload of the tag 7 and the amount in
/// little-endian order.
#[verifier::external_body]
pub(crate) fn token_mint_to(
    token_program: &Pubkey,
    mint: &Pubkey,
    account: &Pubkey,
    owner: &Pubkey,
    signers: &[Pubkey],
    amount: u64,
) -> (ix: Instruction)
    requires
        token_program@ == token_program_address(),
    ensures
        is_mint_to(ix, token_program@, *mint, *account, *owner, signers@, amount),
{
    let keys: Vec<solana_program::pubkey::Pubkey> = signers.iter().map(|k| k.0.into()).collect();
    let refs: Vec<&solana_program::pubkey::Pubkey> = keys.iter().collect();
    let ix = spl_token::instruction::mint_to(
        &token_program.0.into(), &mint.0.into(), &account.0.into(), &owner.0.into(), &refs, amount,
    ).unwrap();
    let accounts = ix.accounts.iter().map(|m| AccountMeta {
        pubkey: Pubkey(m.pubkey.to_bytes()), is_signer: m.is_signer, is_writable: m.is_writable,
    }).collect();
    Instruction { program_id: Pubkey(ix.program_id.to_bytes()), accounts, data: ix.data }
}

/// The seeds from which the address of an associated token account is
/// derived: the wallet, the token program and the mint.
pub open spec fn associated_token_seeds(
    wallet: Seq<u8>,
    token_program: Seq<u8>,
    mint: Seq<u8>,
) -> Seq<Seq<u8>> {
    seq![wallet, token_program, mint]
}

/// The address of the account that holds `wallet`'s tokens of `mint` under
/// the token program at `token_program`, if the derivation gives one.
pub open spec fn associated_address(
    wallet: Seq<u8>,
    token_program: Seq<u8>,
    mint: Seq<u8>,
) -> Option<Seq<u8>> {
    match program_address(
        associated_token_seeds(wallet, token_program, mint),
        associated_token_program_address(),
    ) {
        Some(found) => Some(found.0),
        None => None,
    }
}

/// The address of the account that holds `wallet`'s tokens of `mint` by
/// convention, if the derivation gives one.
pub open spec fn associated_token_address(wallet: Seq<u8>, mint: Seq<u8>) -> Option<Seq<u8>> {
    associated_address(wallet, token_program_address(), mint)
}

/// Calls `spl_associated_token_account::get_associated_token_address`, which
/// derives an address for the associated token account program from the
/// wallet, the token program and the mint, in that order, and panics where
/// the derivation finds none.
#[verifier::external_body]
fn associated_token_address_of(wallet: &Pubkey, mint: &Pubkey) -> (r: Pubkey)
    requires
        associated_token_address(wallet@, mint@) is Some,
    ensures
        associated_token_address(wallet@, mint@) == Some(r@),
{
    Pubkey(
        spl_associated_token_account::get_associated_token_address(
            &wallet.0.into(),
            &mint.0.into(),
        ).to_bytes(),
    )
}

/// The address of the account that holds `wallet`'s tokens of `mint` by
/// convention.
pub fn get_associated_token_address(wallet: &Pubkey, mint: &Pubkey) -> (r: Pubkey)
    requires
        associated_token_address(wallet@, mint@) is Some,
    ensures
        associated_token_address(wallet@, mint@) == Some(r@),
{
    associated_token_address_of(wallet, mint)
}

/// The address of the account that holds `wallet`'s tokens of `mint` by
/// convention, or `None` where the derivation gives none.
pub fn try_get_associated_token_address(wallet: &Pubkey, mint: &Pubkey) -> (r: Option<Pubkey>)
    ensures
        r is Some == associated_token_address(wallet@, mint@) is Some,
        r matches Some(address) ==> associated_token_address(wallet@, mint@) == Some(address@),
{
    let token_program = token_program_id();
    let program = associated_token_program_id();
    let seeds: [&[u8]; 3] = [wallet.0.as_slice(), token_program.0.as_slice(), mint.0.as_slice()];
    let seeds = seeds.as_slice();
    assert(seeds.deep_view() =~~= associated_token_seeds(
        wallet@,
        token_program_address(),
        mint@,
    ));
    match Pubkey::try_find_program_address(seeds, &program) {
        Some(_) => Some(get_associated_token_address(wallet, mint)),
        None => None,
    }
}

/// Whether `ix` asks the associated token account program to create the
/// account that holds `wallet`'s tokens of `mint` under the token program at
/// `token_program`, paid for by `funder`.
pub open spec fn is_create_associated_token_account(
    ix: Instruction,
    funder: Pubkey,
    wallet: Pubkey,
    mint: Pubkey,
    token_program: Seq<u8>,
) -> bool {
    &&& ix.program_id@ == associated_token_program_address()
    &&& ix.accounts@.len() == 6
    &&& writable(funder@, true, ix.accounts@[0])
    &&& associated_address(wallet@, token_program, mint@) == Some(ix.accounts@[1].pubkey@)
    &&& !ix.accounts@[1].is_signer
    &&& ix.accounts@[1].is_writable
    &&& readonly(wallet@, false, ix.accounts@[2])
    &&& readonly(mint@, false, ix.accounts@[3])
    &&& readonly(system_program_address(), false, ix.accounts@[4])
    &&& readonly(token_program, false, ix.accounts@[5])
    &&& ix.data@ == seq![0u8]
}

/// Calls
/// `spl_associated_token_account::instruction::create_associated_token_account`.
/// The contract states the instruction as the outside source builds it: six
/// accounts, the second of them the derived address, and the tag 0. The
/// outside function panics where the derivation finds no address.
#[verifier::external_body]
pub(crate) fn associated_token_create(
    funder: &Pubkey,
    wallet: &Pubkey,
    mint: &Pubkey,
    token_program: &Pubkey,
) -> (ix: Instruction)
    requires
        associated_address(wallet@, token_program@, mint@) is Some,
    ensures
        is_create_associated_token_account(ix, *funder, *wallet, *mint, token_program@),
{
    let ix = spl_associated_token_account::instruction::create_associated_token_account(
        &funder.0.into(), &wallet.0.into(), &mint.0.into(), &token_program.0.into(),
    );
    let accounts = ix.accounts.iter().map(|m| AccountMeta {
        pubkey: Pubkey(m.pubkey.to_bytes()), is_signer: m.is_signer, is_writable: m.is_writable,
    }).collect();
    Instruction { program_id: Pubkey(ix.program_id.to_bytes()), accounts, data: ix.data }
}

/// The amount that the token program reads from the bytes of a token
/// account; `None` where it does not accept them as one.
pub uninterp spec fn token_account_amount(data: Seq<u8>) -> Option<u64>;

/// The supply that the token program reads from the bytes of a mint; `None`
/// where it does not accept them as one.
pub uninterp spec fn mint_supply(data: Seq<u8>) -> Option<u64>;

/// Calls `unpack` of `spl_token::state::Account` and picks the amount. The
/// contract names the outcome after the bytes, and says of it what the
/// outside source shows: what is accepted has 165 bytes, and the amount
/// stands in bytes 64 to 71, in little-endian order.
#[verifier::external_body]
pub(crate) fn unpack_token_amount(data: &[u8]) -> (r: Option<u64>)
    ensures
        r == token_account_amount(data@),
        r matches Some(amount) ==> {
            &&& data@.len() == 165
            &&& data@.subrange(64, 72) == le_bytes(amount as nat, 8)
        },
{
    <spl_token::state::Account as solana_program_pack::Pack>::unpack(data).ok().map(
        |account| account.amount,
    )
}

/// Calls `unpack` of `spl_token::state::Mint` and picks the supply. The
/// contract names the outcome after the bytes, and says of it what the
/// outside source shows: what is accepted has 82 bytes, and the supply stands
/// in bytes 36 to 43, in little-endian order.
#[verifier::external_body]
pub(crate) fn unpack_mint_supply(data: &[u8]) -> (r: Option<u64>)
    ensures
        r == mint_supply(data@),
        r matches Some(supply) ==> {
            &&& data@.len() == 82
            &&& data@.subrange(36, 44) == le_bytes(supply as nat, 8)
        },
{
    <spl_token::state::Mint as solana_program_pack::Pack>::unpack(data).ok().map(
        |mint| mint.supply,
    )
}

} // verus!

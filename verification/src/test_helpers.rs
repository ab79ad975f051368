//! The transactions that prepare the ledger for a test: a mint, a token
//! account, tokens in it. Each function puts one transaction together; the
//! ledger's answer to it goes through `confirm`.

use crate::instruction::Instruction;
use crate::programs::{
    associated_token_address, associated_token_create, get_associated_token_address,
    is_create_account, is_create_associated_token_account, is_initialize_account,
    is_initialize_mint, is_mint_to, system_create_account, token_initialize_account,
    token_initialize_mint, token_mint_to, token_program_address, token_program_id,
    try_get_associated_token_address, MINT_LEN, TOKEN_ACCOUNT_LEN,
};
use crate::pubkey::{program_address, seeds_out_of_bounds, Pubkey};
use crate::transaction::{
    FailedTransactionMetadata, TransactionError, TransactionMetadata, TransactionRequest,
};
use vstd::prelude::*;
use vstd::string::StringExecFns;

verus! {

/// The transaction that creates the mint `mint` with `decimals` decimals:
/// `authority` pays for the account, which gets the balance `rent`, and
/// becomes the minting authority. Both sign.
pub fn create_token_mint(authority: &Pubkey, mint: &Pubkey, rent: u64, decimals: u8) -> (r:
    TransactionRequest)
    ensures
        r.instructions@.len() == 2,
        is_create_account(
            r.instructions@[0],
            *authority,
            *mint,
            rent,
            MINT_LEN,
            token_program_address(),
        ),
        is_initialize_mint(
            r.instructions@[1],
            token_program_address(),
            *mint,
            *authority,
            None,
            decimals,
        ),
        r.payer == *authority,
        r.signers@ == seq![*authority, *mint],
{
    let token_program = token_program_id();
    let mut instructions: Vec<Instruction> = Vec::new();
    instructions.push(system_create_account(authority, mint, rent, MINT_LEN, &token_program));
    instructions.push(token_initialize_mint(&token_program, mint, authority, None, decimals));
    let mut signers: Vec<Pubkey> = Vec::new();
    signers.push(*authority);
    signers.push(*mint);
    TransactionRequest { instructions, payer: *authority, signers }
}

/// The transaction that creates the token account `token_account` for
/// tokens of `mint`: `owner` pays for the account, which gets the balance
/// `rent`, and owns it. Both sign.
pub fn create_token_account(
    mint: &Pubkey,
    owner: &Pubkey,
    token_account: &Pubkey,
    rent: u64,
) -> (r: TransactionRequest)
    ensures
        r.instructions@.len() == 2,
        is_create_account(
            r.instructions@[0],
            *owner,
            *token_account,
            rent,
            TOKEN_ACCOUNT_LEN,
            token_program_address(),
        ),
        is_initialize_account(
            r.instructions@[1],
            token_program_address(),
            *token_account,
            *mint,
            *owner,
        ),
        r.payer == *owner,
        r.signers@ == seq![*owner, *token_account],
{
    let token_program = token_program_id();
    let mut instructions: Vec<Instruction> = Vec::new();
    instructions.push(
        system_create_account(owner, token_account, rent, TOKEN_ACCOUNT_LEN, &token_program),
    );
    instructions.push(token_initialize_account(&token_program, token_account, mint, owner));
    let mut signers: Vec<Pubkey> = Vec::new();
    signers.push(*owner);
    signers.push(*token_account);
    TransactionRequest { instructions, payer: *owner, signers }
}

/// The address of the account that holds `owner`'s tokens of `mint` by
/// convention, and the transaction that creates it, which `owner` pays for
/// and signs.
pub fn create_associated_token_account(mint: &Pubkey, owner: &Pubkey) -> (r: (
    Pubkey,
    TransactionRequest,
))
    requires
        associated_token_address(owner@, mint@) is Some,
    ensures
        associated_token_address(owner@, mint@) == Some(r.0@),
        r.1.instructions@.len() == 1,
        is_create_associated_token_account(
            r.1.instructions@[0],
            *owner,
            *owner,
            *mint,
            token_program_address(),
        ),
        r.1.payer == *owner,
        r.1.signers@ == seq![*owner],
{
    let address = get_associated_token_address(owner, mint);
    let mut instructions: Vec<Instruction> = Vec::new();
    instructions.push(associated_token_create(owner, owner, mint, &token_program_id()));
    let mut signers: Vec<Pubkey> = Vec::new();
    signers.push(*owner);
    (address, TransactionRequest { instructions, payer: *owner, signers })
}

/// As `create_associated_token_account`, or `None` where no address can be
/// derived for `owner` and `mint`.
pub fn try_create_associated_token_account(mint: &Pubkey, owner: &Pubkey) -> (r: Option<
    (Pubkey, TransactionRequest),
>)
    ensures
        r is Some == associated_token_address(owner@, mint@) is Some,
        r matches Some(made) ==> {
            &&& associated_token_address(owner@, mint@) == Some(made.0@)
            &&& made.1.instructions@.len() == 1
            &&& is_create_associated_token_account(
                made.1.instructions@[0],
                *owner,
                *owner,
                *mint,
                token_program_address(),
            )
            &&& made.1.payer == *owner
            &&& made.1.signers@ == seq![*owner]
        },
{
    match try_get_associated_token_address(owner, mint) {
        Some(_) => Some(create_associated_token_account(mint, owner)),
        None => None,
    }
}

/// The transaction that mints `amount` tokens of `mint` to `account`, which
/// `authority` pays for and signs.
pub fn mint_to(mint: &Pubkey, account: &Pubkey, authority: &Pubkey, amount: u64) -> (r:
    TransactionRequest)
    ensures
        r.instructions@.len() == 1,
        is_mint_to(
            r.instructions@[0],
            token_program_address(),
            *mint,
            *account,
            *authority,
            Seq::empty(),
            amount,
        ),
        r.payer == *authority,
        r.signers@ == seq![*authority],
{
    let mut instructions: Vec<Instruction> = Vec::new();
    let no_further_signers: Vec<Pubkey> = Vec::new();
    instructions.push(
        token_mint_to(
            &token_program_id(),
            mint,
            account,
            authority,
            no_further_signers.as_slice(),
            amount,
        ),
    );
    let mut signers: Vec<Pubkey> = Vec::new();
    signers.push(*authority);
    TransactionRequest { instructions, payer: *authority, signers }
}

/// The address of the account that holds `owner`'s tokens of `mint` by
/// convention, and the transactions that create it and, where `mint_amount`
/// names an amount and the minting authority, mint that amount to it. They
/// are sent in this order, the second only if the first went through.
pub fn create_funded_token_account(
    owner: &Pubkey,
    mint: &Pubkey,
    mint_amount: Option<(u64, Pubkey)>,
) -> (r: (Pubkey, Vec<TransactionRequest>))
    requires
        associated_token_address(owner@, mint@) is Some,
    ensures
        associated_token_address(owner@, mint@) == Some(r.0@),
        r.1@.len() == if mint_amount is Some {
            2nat
        } else {
            1nat
        },
        r.1@[0].instructions@.len() == 1,
        is_create_associated_token_account(
            r.1@[0].instructions@[0],
            *owner,
            *owner,
            *mint,
            token_program_address(),
        ),
        r.1@[0].payer == *owner,
        r.1@[0].signers@ == seq![*owner],
        mint_amount matches Some(wanted) ==> {
            &&& r.1@[1].instructions@.len() == 1
            &&& is_mint_to(
                r.1@[1].instructions@[0],
                token_program_address(),
                *mint,
                r.0,
                wanted.1,
                Seq::empty(),
                wanted.0,
            )
            &&& r.1@[1].payer == wanted.1
            &&& r.1@[1].signers@ == seq![wanted.1]
        },
{
    let made = create_associated_token_account(mint, owner);
    let address = made.0;
    let mut requests: Vec<TransactionRequest> = Vec::new();
    requests.push(made.1);
    match mint_amount {
        Some(wanted) => {
            requests.push(mint_to(mint, &address, &wanted.1, wanted.0));
        },
        None => {},
    }
    (address, requests)
}

/// As `create_funded_token_account`, or `None` where no address can be
/// derived for `owner` and `mint`.
pub fn try_create_funded_token_account(
    owner: &Pubkey,
    mint: &Pubkey,
    mint_amount: Option<(u64, Pubkey)>,
) -> (r: Option<(Pubkey, Vec<TransactionRequest>)>)
    ensures
        r is Some == associated_token_address(owner@, mint@) is Some,
        r matches Some(made) ==> {
            &&& associated_token_address(owner@, mint@) == Some(made.0@)
            &&& made.1@.len() == if mint_amount is Some {
                2nat
            } else {
                1nat
            }
            &&& made.1@[0].instructions@.len() == 1
            &&& is_create_associated_token_account(
                made.1@[0].instructions@[0],
                *owner,
                *owner,
                *mint,
                token_program_address(),
            )
            &&& made.1@[0].payer == *owner
            &&& made.1@[0].signers@ == seq![*owner]
            &&& mint_amount matches Some(wanted) ==> {
                &&& made.1@[1].instructions@.len() == 1
                &&& is_mint_to(
                    made.1@[1].instructions@[0],
                    token_program_address(),
                    *mint,
                    made.0,
                    wanted.1,
                    Seq::empty(),
                    wanted.0,
                )
                &&& made.1@[1].payer == wanted.1
                &&& made.1@[1].signers@ == seq![wanted.1]
            }
        },
{
    match try_get_associated_token_address(owner, mint) {
        Some(_) => Some(create_funded_token_account(owner, mint, mint_amount)),
        None => None,
    }
}

/// What is said of a transaction that the ledger rejected while it was
/// asked to do `task`.
pub open spec fn rejected_message(task: Seq<char>, error: Seq<char>) -> Seq<char> {
    task + ": "@ + error
}

/// What the ledger recorded of a transaction that prepares the test, or the
/// error with which it rejected it, behind the words of `task`.
pub fn confirm(
    outcome: Result<TransactionMetadata, FailedTransactionMetadata>,
    task: &str,
) -> (r: Result<TransactionMetadata, TransactionError>)
    ensures
        match (outcome, r) {
            (Ok(meta), Ok(same)) => meta == same,
            (Err(failed), Err(e)) => e is ExecutionFailed && e.detail() == rejected_message(
                task@,
                failed.err@,
            ),
            _ => false,
        },
{
    match outcome {
        Ok(meta) => Ok(meta),
        Err(failed) => {
            let mut message = String::from_str(task);
            message.append(": ");
            message.append(failed.err.as_str());
            Err(TransactionError::ExecutionFailed(message))
        },
    }
}

/// The address that `program_id` derives from `seeds`, and the bump seed
/// that goes with it.
pub fn derive_pda(seeds: &[&[u8]], program_id: &Pubkey) -> (r: (Pubkey, u8))
    requires
        program_address(seeds.deep_view(), program_id@) is Some,
    ensures
        program_address(seeds.deep_view(), program_id@) == Some((r.0@, r.1)),
{
    Pubkey::find_program_address(seeds, program_id)
}

/// The address that `program_id` derives from `seeds` with its bump seed, or
/// `None` where the seeds give none.
pub fn try_derive_pda(seeds: &[&[u8]], program_id: &Pubkey) -> (r: Option<(Pubkey, u8)>)
    ensures
        r is Some == program_address(seeds.deep_view(), program_id@) is Some,
        r matches Some(found) ==> program_address(seeds.deep_view(), program_id@) == Some(
            (found.0@, found.1),
        ),
        seeds_out_of_bounds(seeds.deep_view()) ==> r is None,
{
    match Pubkey::try_find_program_address(seeds, program_id) {
        Some(_) => Some(derive_pda(seeds, program_id)),
        None => None,
    }
}

/// The address that `program_id` derives from `seeds`.
pub fn get_pda(seeds: &[&[u8]], program_id: &Pubkey) -> (r: Pubkey)
    requires
        program_address(seeds.deep_view(), program_id@) is Some,
    ensures
        program_address(seeds.deep_view(), program_id@).unwrap().0 == r@,
{
    derive_pda(seeds, program_id).0
}

/// The address that `program_id` derives from `seeds`, or `None` where the
/// seeds give none.
pub fn try_get_pda(seeds: &[&[u8]], program_id: &Pubkey) -> (r: Option<Pubkey>)
    ensures
        r is Some == program_address(seeds.deep_view(), program_id@) is Some,
        r matches Some(found) ==> program_address(seeds.deep_view(), program_id@).unwrap().0
            == found@,
{
    match Pubkey::try_find_program_address(seeds, program_id) {
        Some(_) => Some(get_pda(seeds, program_id)),
        None => None,
    }
}

/// The address that `program_id` derives from `seeds`, and the bump seed
/// that goes with it.
pub fn get_pda_with_bump(seeds: &[&[u8]], program_id: &Pubkey) -> (r: (Pubkey, u8))
    requires
        program_address(seeds.deep_view(), program_id@) is Some,
    ensures
        program_address(seeds.deep_view(), program_id@) == Some((r.0@, r.1)),
{
    derive_pda(seeds, program_id)
}

/// As `get_pda_with_bump`, or `None` where the seeds give no address.
pub fn try_get_pda_with_bump(seeds: &[&[u8]], program_id: &Pubkey) -> (r: Option<(Pubkey, u8)>)
    ensures
        r is Some == program_address(seeds.deep_view(), program_id@) is Some,
        r matches Some(found) ==> program_address(seeds.deep_view(), program_id@) == Some(
            (found.0@, found.1),
        ),
{
    match Pubkey::try_find_program_address(seeds, program_id) {
        Some(_) => Some(get_pda_with_bump(seeds, program_id)),
        None => None,
    }
}

/// The slot that the clock is moved to at the step `step` of an advance
/// that began at `current_slot`; steps are counted from zero, and each moves
/// the clock by one slot.
pub fn slot_at_step(current_slot: u64, step: u64) -> (r: Option<u64>)
    ensures
        r is Some == (current_slot + step + 1 <= u64::MAX),
        r matches Some(slot) ==> slot == current_slot + step + 1,
{
    match current_slot.checked_add(step) {
        None => None,
        Some(reached) => reached.checked_add(1),
    }
}

} // verus!

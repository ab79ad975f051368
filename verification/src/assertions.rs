//! What a test expects of the accounts on the ledger. Each check takes what
//! the ledger returned for an address and says whether it is as expected;
//! if it is not, the error says what was found instead.

use crate::account::{Account, AccountError};
use crate::programs::{mint_supply, token_account_amount, unpack_mint_supply, unpack_token_amount};
use crate::pubkey::{base58, Pubkey};
use crate::text::{decimal, decimal_string};
use crate::transaction::TransactionError;
use vstd::prelude::*;
use vstd::string::StringExecFns;

verus! {

/// The distance between two amounts.
pub open spec fn abs_diff(a: u64, b: u64) -> nat {
    if a > b {
        (a - b) as nat
    } else {
        (b - a) as nat
    }
}

/// Whether an account is closed: the ledger has none at the address, or one
/// without balance and without data.
pub open spec fn is_closed(account: Option<&Account>) -> bool {
    match account {
        None => true,
        Some(found) => found.lamports == 0 && found.data@.len() == 0,
    }
}

/// Whether a token account holds `expected` tokens. An account that the
/// ledger does not have holds none.
pub open spec fn token_balance_is(account: Option<&Account>, expected: u64) -> bool {
    match account {
        None => expected == 0,
        Some(found) => token_account_amount(found.data@) == Some(expected),
    }
}

/// The balance of an account; an account that the ledger does not have has
/// none.
pub open spec fn sol_balance(account: Option<&Account>) -> u64 {
    match account {
        None => 0,
        Some(found) => found.lamports,
    }
}

/// Whether a mint has issued `expected` tokens.
pub open spec fn mint_supply_is(account: Option<&Account>, expected: u64) -> bool {
    account matches Some(found) && mint_supply(found.data@) == Some(expected)
}

/// What is said of an account that should be closed and is not.
pub open spec fn not_closed_message(pubkey: Pubkey, account: &Account) -> Seq<char> {
    "Expected account "@ + base58(pubkey@) + " to be closed, but it exists with "@ + decimal(
        account.lamports as nat,
    ) + " lamports and "@ + decimal(account.data@.len()) + " bytes of data"@
}

/// What is said of an account that should exist and does not.
pub open spec fn missing_message(pubkey: Pubkey) -> Seq<char> {
    "Expected account "@ + base58(pubkey@) + " to exist, but it doesn't"@
}

/// What is said of an account that was looked for and is not there.
pub open spec fn not_found_message(pubkey: Pubkey) -> Seq<char> {
    "Account "@ + base58(pubkey@) + " not found"@
}

/// What is said of a token account that does not hold the expected amount.
pub open spec fn token_balance_message(
    pubkey: Pubkey,
    account: Option<&Account>,
    expected: u64,
    msg: Seq<char>,
) -> Seq<char> {
    match account {
        None => msg + ": Account "@ + base58(pubkey@) + " doesn't exist but expected "@ + decimal(
            expected as nat,
        ) + " tokens"@,
        Some(found) => match token_account_amount(found.data@) {
            None => "Failed to unpack token account "@ + base58(pubkey@),
            Some(amount) => msg + ": expected "@ + decimal(expected as nat) + " tokens, got "@
                + decimal(amount as nat),
        },
    }
}

/// The words that begin what is said of a token balance when the test gives
/// none of its own.
pub open spec fn token_balance_heading(pubkey: Pubkey) -> Seq<char> {
    "Token balance mismatch for "@ + base58(pubkey@)
}

/// What is said of an account whose balance is not the expected one.
pub open spec fn sol_balance_message(pubkey: Pubkey, expected: u64, actual: u64) -> Seq<char> {
    "SOL balance mismatch for account "@ + base58(pubkey@) + ". Expected: "@ + decimal(
        expected as nat,
    ) + ", Actual: "@ + decimal(actual as nat)
}

/// What is said of a mint that has not issued the expected amount.
pub open spec fn mint_supply_message(pubkey: Pubkey, account: Option<&Account>, expected: u64) -> Seq<
    char,
> {
    match account {
        None => "Mint "@ + base58(pubkey@) + " not found"@,
        Some(found) => match mint_supply(found.data@) {
            None => "Failed to unpack mint "@ + base58(pubkey@),
            Some(supply) => "Mint supply mismatch for "@ + base58(pubkey@) + ". Expected: "@
                + decimal(expected as nat) + ", Actual: "@ + decimal(supply as nat),
        },
    }
}

/// What is said of an account that another program owns than expected.
pub open spec fn owner_message(pubkey: Pubkey, expected: Pubkey, actual: Pubkey) -> Seq<char> {
    "Account owner mismatch for "@ + base58(pubkey@) + ". Expected: "@ + base58(expected@)
        + ", Actual: "@ + base58(actual@)
}

/// What is said of an account whose data has another length than expected.
pub open spec fn data_len_message(pubkey: Pubkey, expected: usize, actual: usize) -> Seq<char> {
    "Account data length mismatch for "@ + base58(pubkey@) + ". Expected: "@ + decimal(
        expected as nat,
    ) + ", Actual: "@ + decimal(actual as nat)
}

/// What is said of two addresses that should be the same.
pub open spec fn pubkey_message(actual: Pubkey, expected: Pubkey, msg: Seq<char>) -> Seq<char> {
    msg + ": expected "@ + base58(expected@) + ", got "@ + base58(actual@)
}

/// What is said of a value outside its range.
pub open spec fn range_message(value: u64, min: u64, max: u64, msg: Seq<char>) -> Seq<char> {
    msg + ": value "@ + decimal(value as nat) + " is not in range ["@ + decimal(min as nat)
        + ", "@ + decimal(max as nat) + "]"@
}

/// What is said of an amount that is too far from the expected one.
pub open spec fn approx_message(actual: u64, expected: u64, tolerance: u64, msg: Seq<char>) -> Seq<
    char,
> {
    msg + ": expected "@ + decimal(expected as nat) + " \u{b1} "@ + decimal(tolerance as nat)
        + ", got "@ + decimal(actual as nat) + " (diff: "@ + decimal(abs_diff(actual, expected))
        + ")"@
}

/// Whether `r` is the failed assertion that says `message`.
pub open spec fn fails_with(r: Result<(), TransactionError>, message: Seq<char>) -> bool {
    r matches Err(e) && e is AssertionFailed && e.detail() == message
}

fn failed(message: String) -> (r: Result<(), TransactionError>)
    ensures
        fails_with(r, message@),
{
    Err(TransactionError::AssertionFailed(message))
}

/// Whether the account at `pubkey` is closed, given what the ledger returned
/// for that address.
pub fn check_account_closed(pubkey: &Pubkey, account: Option<&Account>) -> (r: Result<
    (),
    TransactionError,
>)
    ensures
        r is Ok == is_closed(account),
        r is Err ==> (account matches Some(found) && fails_with(
            r,
            not_closed_message(*pubkey, found),
        )),
{
    match account {
        None => Ok(()),
        Some(found) => {
            if found.lamports == 0 && found.data.len() == 0 {
                Ok(())
            } else {
                let mut message = String::from_str("Expected account ");
                message.append(pubkey.to_string().as_str());
                message.append(" to be closed, but it exists with ");
                message.append(decimal_string(found.lamports).as_str());
                message.append(" lamports and ");
                message.append(decimal_string(found.data.len() as u64).as_str());
                message.append(" bytes of data");
                failed(message)
            }
        },
    }
}

/// Whether the ledger has an account at `pubkey`, given what it returned for
/// that address.
pub fn check_account_exists(pubkey: &Pubkey, account: Option<&Account>) -> (r: Result<
    (),
    TransactionError,
>)
    ensures
        r is Ok == account is Some,
        r is Err ==> fails_with(r, missing_message(*pubkey)),
{
    match account {
        Some(_) => Ok(()),
        None => {
            let mut message = String::from_str("Expected account ");
            message.append(pubkey.to_string().as_str());
            message.append(" to exist, but it doesn't");
            failed(message)
        },
    }
}

/// Whether the token account at `token_account` holds `expected` tokens,
/// given what the ledger returned for that address. What is said of a
/// mismatch begins with `msg`.
pub fn check_token_balance_with_msg(
    token_account: &Pubkey,
    account: Option<&Account>,
    expected: u64,
    msg: &str,
) -> (r: Result<(), TransactionError>)
    ensures
        r is Ok == token_balance_is(account, expected),
        r is Err ==> fails_with(r, token_balance_message(*token_account, account, expected, msg@)),
{
    match account {
        None => {
            if expected == 0 {
                Ok(())
            } else {
                let mut message = String::from_str(msg);
                message.append(": Account ");
                message.append(token_account.to_string().as_str());
                message.append(" doesn't exist but expected ");
                message.append(decimal_string(expected).as_str());
                message.append(" tokens");
                failed(message)
            }
        },
        Some(found) => match unpack_token_amount(found.data.as_slice()) {
            None => {
                let mut message = String::from_str("Failed to unpack token account ");
                message.append(token_account.to_string().as_str());
                failed(message)
            },
            Some(amount) => {
                if amount == expected {
                    assert_token_balance(token_account, account, expected);
                    Ok(())
                } else {
                    let mut message = String::from_str(msg);
                    message.append(": expected ");
                    message.append(decimal_string(expected).as_str());
                    message.append(" tokens, got ");
                    message.append(decimal_string(amount).as_str());
                    failed(message)
                }
            },
        },
    }
}

/// Whether the token account at `token_account` holds `expected` tokens,
/// given what the ledger returned for that address.
pub fn check_token_balance(token_account: &Pubkey, account: Option<&Account>, expected: u64) -> (r:
    Result<(), TransactionError>)
    ensures
        r is Ok == token_balance_is(account, expected),
        r is Err ==> fails_with(
            r,
            token_balance_message(
                *token_account,
                account,
                expected,
                token_balance_heading(*token_account),
            ),
        ),
{
    let mut heading = String::from_str("Token balance mismatch for ");
    heading.append(token_account.to_string().as_str());
    check_token_balance_with_msg(token_account, account, expected, heading.as_str())
}

/// Whether the account at `pubkey` has the balance `expected`, given what
/// the ledger returned for that address.
pub fn check_sol_balance(pubkey: &Pubkey, account: Option<&Account>, expected: u64) -> (r: Result<
    (),
    TransactionError,
>)
    ensures
        r is Ok == (sol_balance(account) == expected),
        r is Err ==> fails_with(r, sol_balance_message(*pubkey, expected, sol_balance(account))),
{
    let actual: u64 = match account {
        None => 0,
        Some(found) => found.lamports,
    };
    if actual == expected {
        Ok(())
    } else {
        let mut message = String::from_str("SOL balance mismatch for account ");
        message.append(pubkey.to_string().as_str());
        message.append(". Expected: ");
        message.append(decimal_string(expected).as_str());
        message.append(", Actual: ");
        message.append(decimal_string(actual).as_str());
        failed(message)
    }
}

/// Whether the mint at `mint` has issued `expected` tokens, given what the
/// ledger returned for that address.
pub fn check_mint_supply(mint: &Pubkey, account: Option<&Account>, expected: u64) -> (r: Result<
    (),
    TransactionError,
>)
    ensures
        r is Ok == mint_supply_is(account, expected),
        r is Err ==> fails_with(r, mint_supply_message(*mint, account, expected)),
{
    match account {
        None => {
            let mut message = String::from_str("Mint ");
            message.append(mint.to_string().as_str());
            message.append(" not found");
            failed(message)
        },
        Some(found) => match unpack_mint_supply(found.data.as_slice()) {
            None => {
                let mut message = String::from_str("Failed to unpack mint ");
                message.append(mint.to_string().as_str());
                failed(message)
            },
            Some(supply) => {
                if supply == expected {
                    assert_mint_supply(mint, account, expected);
                    Ok(())
                } else {
                    let mut message = String::from_str("Mint supply mismatch for ");
                    message.append(mint.to_string().as_str());
                    message.append(". Expected: ");
                    message.append(decimal_string(expected).as_str());
                    message.append(", Actual: ");
                    message.append(decimal_string(supply).as_str());
                    failed(message)
                }
            },
        },
    }
}

fn not_found(pubkey: &Pubkey) -> (r: Result<(), TransactionError>)
    ensures
        fails_with(r, not_found_message(*pubkey)),
{
    let mut message = String::from_str("Account ");
    message.append(pubkey.to_string().as_str());
    message.append(" not found");
    failed(message)
}

/// Whether the program `expected_owner` owns the account at `pubkey`, given
/// what the ledger returned for that address.
pub fn check_account_owner(
    pubkey: &Pubkey,
    account: Option<&Account>,
    expected_owner: &Pubkey,
) -> (r: Result<(), TransactionError>)
    ensures
        r is Ok == (account matches Some(found) && found.owner == *expected_owner),
        r is Err ==> fails_with(
            r,
            match account {
                None => not_found_message(*pubkey),
                Some(found) => owner_message(*pubkey, *expected_owner, found.owner),
            },
        ),
{
    match account {
        None => not_found(pubkey),
        Some(found) => {
            if found.owner == *expected_owner {
                Ok(())
            } else {
                let mut message = String::from_str("Account owner mismatch for ");
                message.append(pubkey.to_string().as_str());
                message.append(". Expected: ");
                message.append(expected_owner.to_string().as_str());
                message.append(", Actual: ");
                message.append(found.owner.to_string().as_str());
                failed(message)
            }
        },
    }
}

/// Whether the account at `pubkey` holds `expected_len` bytes, given what the
/// ledger returned for that address.
pub fn check_account_data_len(
    pubkey: &Pubkey,
    account: Option<&Account>,
    expected_len: usize,
) -> (r: Result<(), TransactionError>)
    ensures
        r is Ok == (account matches Some(found) && found.data@.len() == expected_len),
        r is Err ==> fails_with(
            r,
            match account {
                None => not_found_message(*pubkey),
                Some(found) => data_len_message(*pubkey, expected_len, found.data@.len() as usize),
            },
        ),
{
    match account {
        None => not_found(pubkey),
        Some(found) => {
            if found.data.len() == expected_len {
                Ok(())
            } else {
                let mut message = String::from_str("Account data length mismatch for ");
                message.append(pubkey.to_string().as_str());
                message.append(". Expected: ");
                message.append(decimal_string(expected_len as u64).as_str());
                message.append(", Actual: ");
                message.append(decimal_string(found.data.len() as u64).as_str());
                failed(message)
            }
        },
    }
}

/// Whether two addresses are the same. What is said of a mismatch begins
/// with `msg`.
pub fn check_pubkey_eq(actual: &Pubkey, expected: &Pubkey, msg: &str) -> (r: Result<
    (),
    TransactionError,
>)
    ensures
        r is Ok == (*actual == *expected),
        r is Err ==> fails_with(r, pubkey_message(*actual, *expected, msg@)),
{
    if *actual == *expected {
        Ok(())
    } else {
        let mut message = String::from_str(msg);
        message.append(": expected ");
        message.append(expected.to_string().as_str());
        message.append(", got ");
        message.append(actual.to_string().as_str());
        failed(message)
    }
}

/// Whether `value` lies between `min` and `max`, both included. What is said
/// otherwise begins with `msg`.
pub fn check_in_range(value: u64, min: u64, max: u64, msg: &str) -> (r: Result<
    (),
    TransactionError,
>)
    ensures
        r is Ok == (min <= value <= max),
        r is Err ==> fails_with(r, range_message(value, min, max, msg@)),
{
    if value >= min && value <= max {
        Ok(())
    } else {
        let mut message = String::from_str(msg);
        message.append(": value ");
        message.append(decimal_string(value).as_str());
        message.append(" is not in range [");
        message.append(decimal_string(min).as_str());
        message.append(", ");
        message.append(decimal_string(max).as_str());
        message.append("]");
        failed(message)
    }
}

/// Whether `actual` is within `tolerance` of `expected`. What is said
/// otherwise begins with `msg`.
pub fn check_token_amount_approx(actual: u64, expected: u64, tolerance: u64, msg: &str) -> (r:
    Result<(), TransactionError>)
    ensures
        r is Ok == (abs_diff(actual, expected) <= tolerance),
        r is Err ==> fails_with(r, approx_message(actual, expected, tolerance, msg@)),
{
    let diff: u64 = if actual > expected {
        actual - expected
    } else {
        expected - actual
    };
    if diff <= tolerance {
        Ok(())
    } else {
        let mut message = String::from_str(msg);
        message.append(": expected ");
        message.append(decimal_string(expected).as_str());
        message.append(" \u{b1} ");
        message.append(decimal_string(tolerance).as_str());
        message.append(", got ");
        message.append(decimal_string(actual).as_str());
        message.append(" (diff: ");
        message.append(decimal_string(diff).as_str());
        message.append(")");
        failed(message)
    }
}

/// What is said of an account whose balance is not the expected one, when
/// the account has to exist.
pub open spec fn lamports_message(pubkey: Pubkey, account: Option<&Account>, expected: u64) -> Seq<
    char,
> {
    match account {
        None => "Account "@ + base58(pubkey@) + " should exist"@,
        Some(found) => "Account "@ + base58(pubkey@) + " lamports mismatch: expected "@ + decimal(
            expected as nat,
        ) + ", got "@ + decimal(found.lamports as nat),
    }
}

/// Whether the ledger has an account at `pubkey` with the balance
/// `expected`, given what it returned for that address.
pub fn check_account_lamports(pubkey: &Pubkey, account: Option<&Account>, expected: u64) -> (r:
    Result<(), TransactionError>)
    ensures
        r is Ok == (account matches Some(found) && found.lamports == expected),
        r is Err ==> fails_with(r, lamports_message(*pubkey, account, expected)),
{
    match account {
        None => {
            let mut message = String::from_str("Account ");
            message.append(pubkey.to_string().as_str());
            message.append(" should exist");
            failed(message)
        },
        Some(found) => {
            if found.lamports == expected {
                Ok(())
            } else {
                let mut message = String::from_str("Account ");
                message.append(pubkey.to_string().as_str());
                message.append(" lamports mismatch: expected ");
                message.append(decimal_string(expected).as_str());
                message.append(", got ");
                message.append(decimal_string(found.lamports).as_str());
                failed(message)
            }
        },
    }
}

/// What the ledger returned for an address, borrowed.
pub open spec fn borrowed(account: &Option<Account>) -> Option<&Account> {
    match account {
        Some(found) => Some(found),
        None => None,
    }
}

/// Whether all the accounts at `pubkeys` are closed, given what the ledger
/// returned for each address, in the same order. The error speaks of the
/// first that is not.
pub fn check_accounts_closed(pubkeys: &[Pubkey], accounts: &[Option<Account>]) -> (r: Result<
    (),
    TransactionError,
>)
    requires
        pubkeys@.len() == accounts@.len(),
    ensures
        r is Ok == (forall|i: int|
            0 <= i < accounts@.len() ==> is_closed(borrowed(&#[trigger] accounts@[i]))),
        r is Err ==> exists|i: int|
            {
                &&& 0 <= i < accounts@.len()
                &&& #[trigger] accounts@[i] matches Some(found)
                &&& !is_closed(borrowed(&accounts@[i]))
                &&& fails_with(r, not_closed_message(pubkeys@[i], &found))
                &&& forall|j: int| 0 <= j < i ==> is_closed(borrowed(&#[trigger] accounts@[j]))
            },
{
    let mut i: usize = 0;
    while i < accounts.len()
        invariant
            i <= accounts@.len(),
            pubkeys@.len() == accounts@.len(),
            forall|j: int| 0 <= j < i ==> is_closed(borrowed(&#[trigger] accounts@[j])),
        decreases accounts@.len() - i,
    {
        let r = check_account_closed(&pubkeys[i], accounts[i].as_ref());
        if r.is_err() {
            return r;
        }
        i += 1;
    }
    Ok(())
}

/// What is said of bytes that are not those of a token account.
pub open spec fn unpack_message(pubkey: Pubkey) -> Seq<char> {
    "Failed to unpack token account "@ + base58(pubkey@)
}

/// The tokens that the account at `token_account` holds, given what the
/// ledger returned for that address.
pub fn get_token_balance(token_account: &Pubkey, account: Option<&Account>) -> (r: Result<
    u64,
    AccountError,
>)
    ensures
        match r {
            Ok(amount) => account matches Some(found) && token_account_amount(found.data@) == Some(
                amount,
            ),
            Err(AccountError::AccountNotFound(missing)) => account is None && missing
                == *token_account,
            Err(AccountError::DeserializationError(text)) => {
                &&& account matches Some(found)
                &&& token_account_amount(found.data@) is None
                &&& text@ == unpack_message(*token_account)
            },
            Err(AccountError::DiscriminatorMismatch) => false,
        },
{
    match account {
        None => Err(AccountError::AccountNotFound(*token_account)),
        Some(found) => match unpack_token_amount(found.data.as_slice()) {
            Some(amount) => Ok(amount),
            None => {
                let mut message = String::from_str("Failed to unpack token account ");
                message.append(token_account.to_string().as_str());
                Err(AccountError::DeserializationError(message))
            },
        },
    }
}

/// The tokens that an account holds, given what the ledger returned for its
/// address; zero where there is no account or it is no token account.
pub fn get_token_balance_safe(account: Option<&Account>) -> (r: u64)
    ensures
        r == match account {
            Some(found) => match token_account_amount(found.data@) {
                Some(amount) => amount,
                None => 0,
            },
            None => 0,
        },
{
    match account {
        None => 0,
        Some(found) => match unpack_token_amount(found.data.as_slice()) {
            Some(amount) => amount,
            None => 0,
        },
    }
}

/// Accepts an account that is closed.
pub fn assert_account_closed(pubkey: &Pubkey, account: Option<&Account>)
    requires
        is_closed(account),
{
}

/// Accepts accounts that are all closed.
pub fn assert_accounts_closed(pubkeys: &[Pubkey], accounts: &[Option<Account>])
    requires
        pubkeys@.len() == accounts@.len(),
        forall|i: int| 0 <= i < accounts@.len() ==> is_closed(borrowed(&#[trigger] accounts@[i])),
{
}

/// Accepts an account that the ledger has.
pub fn assert_account_exists(pubkey: &Pubkey, account: Option<&Account>)
    requires
        account is Some,
{
}

/// Accepts a token account that holds `expected` tokens; an account that the
/// ledger does not have holds none.
pub fn assert_token_balance(token_account: &Pubkey, account: Option<&Account>, expected: u64)
    requires
        token_balance_is(account, expected),
{
}

/// Accepts a token account that holds `expected` tokens; an account that the
/// ledger does not have holds none.
pub fn assert_token_balance_with_msg(
    token_account: &Pubkey,
    account: Option<&Account>,
    expected: u64,
    msg: &str,
)
    requires
        token_balance_is(account, expected),
{
    assert_token_balance(token_account, account, expected);
}

/// Accepts an account with the balance `expected`; an account that the
/// ledger does not have has none.
pub fn assert_sol_balance(pubkey: &Pubkey, account: Option<&Account>, expected: u64)
    requires
        sol_balance(account) == expected,
{
}

/// Accepts an account that the ledger has, with the balance `expected`.
pub fn assert_account_lamports(pubkey: &Pubkey, account: Option<&Account>, expected: u64)
    requires
        account matches Some(found) && found.lamports == expected,
{
}

/// Accepts a mint that has issued `expected` tokens.
pub fn assert_mint_supply(mint: &Pubkey, account: Option<&Account>, expected: u64)
    requires
        mint_supply_is(account, expected),
{
}

/// Accepts an account that the program `expected_owner` owns.
pub fn assert_account_owner(pubkey: &Pubkey, account: Option<&Account>, expected_owner: &Pubkey)
    requires
        account matches Some(found) && found.owner == *expected_owner,
{
}

/// Accepts an account that holds `expected_len` bytes.
pub fn assert_account_data_len(pubkey: &Pubkey, account: Option<&Account>, expected_len: usize)
    requires
        account matches Some(found) && found.data@.len() == expected_len,
{
}

/// Accepts two addresses that are the same.
pub fn assert_pubkey_eq(actual: &Pubkey, expected: &Pubkey, msg: &str)
    requires
        *actual == *expected,
{
}

/// Accepts a value that lies between `min` and `max`, both included.
pub fn assert_in_range(value: u64, min: u64, max: u64, msg: &str)
    requires
        min <= value <= max,
{
}

/// Accepts an amount that is within `tolerance` of `expected`.
pub fn assert_token_amount_approx(actual: u64, expected: u64, tolerance: u64, msg: &str)
    requires
        abs_diff(actual, expected) <= tolerance,
{
}

} // verus!

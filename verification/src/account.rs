//! Accounts as the ledger hands them out, and the way from an account to the
//! bytes of an Anchor account in it.

use crate::pubkey::{base58, Pubkey};
use vstd::prelude::*;
use vstd::slice::slice_subrange;
use vstd::string::StringExecFns;

verus! {

/// An account, as it stands on the ledger at one moment.
#[derive(Clone, Debug, PartialEq, Eq)]
pub struct Account {
    /// The balance.
    pub lamports: u64,
    /// The bytes that the owning program keeps in the account.
    pub data: Vec<u8>,
    /// The program that owns the account.
    pub owner: Pubkey,
    /// Whether the account holds a program.
    pub executable: bool,
    /// The epoch at which the account next owes rent.
    pub rent_epoch: u64,
}

/// Why an account could not be read.
#[derive(Clone, Debug, PartialEq, Eq)]
pub enum AccountError {
    /// The ledger has no account at the address.
    AccountNotFound(Pubkey),
    /// The account's bytes are not those of the expected type.
    DeserializationError(String),
    /// The account's bytes begin with the tag of another type.
    DiscriminatorMismatch,
}

impl AccountError {
    /// The error in words.
    pub open spec fn description(&self) -> Seq<char> {
        match self {
            AccountError::AccountNotFound(address) => "Account not found at address: "@ + base58(
                address@,
            ),
            AccountError::DeserializationError(text) => "Failed to deserialize account: "@ + text@,
            AccountError::DiscriminatorMismatch => "Account discriminator mismatch"@,
        }
    }

    /// Says the error in words.
    pub fn to_string(&self) -> (r: String)
        ensures
            r@ == self.description(),
    {
        match self {
            AccountError::AccountNotFound(address) => String::from_str(
                "Account not found at address: ",
            ).concat(address.to_string().as_str()),
            AccountError::DeserializationError(text) => String::from_str(
                "Failed to deserialize account: ",
            ).concat(text.as_str()),
            AccountError::DiscriminatorMismatch => String::from_str(
                "Account discriminator mismatch",
            ),
        }
    }
}

/// What is said of an account that is too short to begin with a tag.
pub open spec fn too_small_message() -> Seq<char> {
    "Account data too small for Anchor account"@
}

/// The bytes of the account at `address`, given what the ledger returned for
/// that address.
pub fn account_data<'a>(address: &Pubkey, account: Option<&'a Account>) -> (r: Result<
    &'a [u8],
    AccountError,
>)
    ensures
        match r {
            Ok(data) => account matches Some(found) && data@ == found.data@,
            Err(e) => account is None && e == AccountError::AccountNotFound(*address),
        },
{
    match account {
        Some(found) => Ok(found.data.as_slice()),
        None => Err(AccountError::AccountNotFound(*address)),
    }
}

/// The bytes of an Anchor account behind its eight-byte tag, whatever the
/// tag is.
pub fn skip_discriminator(data: &[u8]) -> (r: Result<&[u8], AccountError>)
    ensures
        match r {
            Ok(payload) => data@.len() >= 8 && payload@ == data@.subrange(8, data@.len() as int),
            Err(e) => {
                &&& data@.len() < 8
                &&& e matches AccountError::DeserializationError(text)
                &&& text@ == too_small_message()
            },
        },
{
    if data.len() < 8 {
        return Err(
            AccountError::DeserializationError(
                String::from_str("Account data too small for Anchor account"),
            ),
        );
    }
    Ok(slice_subrange(data, 8, data.len()))
}

/// The bytes of an Anchor account behind its tag, if the tag is
/// `discriminator`.
pub fn check_discriminator<'a>(data: &'a [u8], discriminator: &[u8; 8]) -> (r: Result<
    &'a [u8],
    AccountError,
>)
    ensures
        match r {
            Ok(payload) => {
                &&& data@.len() >= 8
                &&& data@.subrange(0, 8) == discriminator@
                &&& payload@ == data@.subrange(8, data@.len() as int)
            },
            Err(AccountError::DiscriminatorMismatch) => {
                &&& data@.len() >= 8
                &&& data@.subrange(0, 8) != discriminator@
            },
            Err(AccountError::DeserializationError(text)) => {
                &&& data@.len() < 8
                &&& text@ == too_small_message()
            },
            Err(AccountError::AccountNotFound(_)) => false,
        },
{
    match skip_discriminator(data) {
        Err(e) => Err(e),
        Ok(payload) => {
            let mut i: usize = 0;
            while i < 8
                invariant
                    i <= 8,
                    data@.len() >= 8,
                    forall|j: int| 0 <= j < i ==> data@[j] == discriminator@[j],
                decreases 8 - i,
            {
                if data[i] != discriminator[i] {
                    return Err(AccountError::DiscriminatorMismatch);
                }
                i += 1;
            }
            Ok(payload)
        },
    }
}

/// Whether `decode` may answer `outcome` when it is given `bytes`.
pub open spec fn decodes_to<T, F: FnOnce(&[u8]) -> Result<T, String>>(
    decode: F,
    bytes: Seq<u8>,
    outcome: Result<T, String>,
) -> bool {
    exists|data: &[u8]| data@ == bytes && call_ensures(decode, (data,), outcome)
}

/// Reads the account at `address`, given what the ledger returned for that
/// address: its bytes go to `decode`, which checks the tag and decodes the
/// rest, and whose complaint comes back as an error.
pub fn get_anchor_account<T, F: FnOnce(&[u8]) -> Result<T, String>>(
    address: &Pubkey,
    account: Option<&Account>,
    decode: F,
) -> (r: Result<T, AccountError>)
    requires
        forall|data: &[u8]| call_requires(decode, (data,)),
    ensures
        match r {
            Ok(value) => account matches Some(found) && decodes_to(decode, found.data@, Ok(value)),
            Err(AccountError::AccountNotFound(missing)) => account is None && missing == *address,
            Err(AccountError::DeserializationError(text)) => account matches Some(found)
                && decodes_to(decode, found.data@, Err(text)),
            Err(AccountError::DiscriminatorMismatch) => false,
        },
{
    match account_data(address, account) {
        Err(e) => Err(e),
        Ok(data) => match decode(data) {
            Ok(value) => Ok(value),
            Err(text) => Err(AccountError::DeserializationError(text)),
        },
    }
}

/// Reads the account at `address` without a look at its tag, given what the
/// ledger returned for that address: the bytes behind the first eight go to
/// `decode`.
pub fn get_anchor_account_unchecked<T, F: FnOnce(&[u8]) -> Result<T, String>>(
    address: &Pubkey,
    account: Option<&Account>,
    decode: F,
) -> (r: Result<T, AccountError>)
    requires
        forall|data: &[u8]| call_requires(decode, (data,)),
    ensures
        match r {
            Ok(value) => {
                &&& account matches Some(found)
                &&& found.data@.len() >= 8
                &&& decodes_to(decode, found.data@.subrange(8, found.data@.len() as int), Ok(value))
            },
            Err(AccountError::AccountNotFound(missing)) => account is None && missing == *address,
            Err(AccountError::DeserializationError(text)) => {
                &&& account matches Some(found)
                &&& if found.data@.len() < 8 {
                    text@ == too_small_message()
                } else {
                    decodes_to(decode, found.data@.subrange(8, found.data@.len() as int), Err(text))
                }
            },
            Err(AccountError::DiscriminatorMismatch) => false,
        },
{
    match account_data(address, account) {
        Err(e) => Err(e),
        Ok(data) => match skip_discriminator(data) {
            Err(e) => Err(e),
            Ok(payload) => match decode(payload) {
                Ok(value) => Ok(value),
                Err(text) => Err(AccountError::DeserializationError(text)),
            },
        },
    }
}

} // verus!

//! Addresses on the ledger.

use vstd::prelude::*;
use vstd::std_specs::cmp::PartialEqSpecImpl;

verus! {

/// A 32-byte address: of an account, or of a program.
#[derive(Clone, Copy, Debug, Eq, Hash)]
pub struct Pubkey(pub [u8; 32]);

impl View for Pubkey {
    type V = Seq<u8>;

    open spec fn view(&self) -> Seq<u8> {
        self.0@
    }
}

impl PartialEq for Pubkey {
    fn eq(&self, other: &Self) -> (r: bool) {
        let mut i: usize = 0;
        while i < 32
            invariant
                i <= 32,
                forall|j: int| 0 <= j < i ==> self.0[j] == other.0[j],
            decreases 32 - i,
        {
            if self.0[i] != other.0[i] {
                return false;
            }
            i += 1;
        }
        assert(self.0 =~= other.0);
        true
    }
}

impl PartialEqSpecImpl for Pubkey {
    open spec fn obeys_eq_spec() -> bool {
        true
    }

    open spec fn eq_spec(&self, other: &Self) -> bool {
        self.0 == other.0
    }
}

/// An address written in base 58, as the ledger's tools show it.
pub uninterp spec fn base58(bytes: Seq<u8>) -> Seq<char>;

/// The address that `program_id` derives from `seeds`, with the bump seed
/// that was added to them; `None` where there is no such address.
pub uninterp spec fn program_address(seeds: Seq<Seq<u8>>, program_id: Seq<u8>) -> Option<
    (Seq<u8>, u8),
>;

/// Whether `seeds` are more, or longer, than an address can be derived from.
pub open spec fn seeds_out_of_bounds(seeds: Seq<Seq<u8>>) -> bool {
    ||| seeds.len() >= 16
    ||| exists|i: int| 0 <= i < seeds.len() && (#[trigger] seeds[i]).len() > 32
}

/// Calls the `Display` of `solana_program::pubkey::Pubkey`, which writes the
/// 32 bytes in base 58. The contract names that text after the bytes.
#[verifier::external_body]
fn base58_string(bytes: &[u8; 32]) -> (r: String)
    ensures
        r@ == base58(bytes@),
{
    solana_program::pubkey::Pubkey::new_from_array(*bytes).to_string()
}

/// Calls `solana_program::pubkey::Pubkey::try_find_program_address`. The
/// contract names what comes back after the seeds and the program; of the
/// name it says what the outside source shows at its entry: with sixteen
/// seeds or more, or a seed of more than 32 bytes, nothing is found.
#[verifier::external_body]
fn find_program_address(seeds: &[&[u8]], program_id: &Pubkey) -> (r: Option<(Pubkey, u8)>)
    ensures
        r is Some == program_address(seeds.deep_view(), program_id@) is Some,
        r matches Some(found) ==> program_address(seeds.deep_view(), program_id@) == Some(
            (found.0@, found.1),
        ),
        seeds_out_of_bounds(seeds.deep_view()) ==> r is None,
{
    solana_program::pubkey::Pubkey::try_find_program_address(
        seeds,
        &solana_program::pubkey::Pubkey::new_from_array(program_id.0),
    ).map(|found| (Pubkey(found.0.to_bytes()), found.1))
}

impl Pubkey {
    /// The address in base 58.
    pub fn to_string(&self) -> (r: String)
        ensures
            r@ == base58(self@),
    {
        base58_string(&self.0)
    }

    /// The address that `program_id` derives from `seeds`, and the bump seed
    /// that goes with it.
    pub fn find_program_address(seeds: &[&[u8]], program_id: &Pubkey) -> (r: (Pubkey, u8))
        requires
            program_address(seeds.deep_view(), program_id@) is Some,
        ensures
            program_address(seeds.deep_view(), program_id@) == Some((r.0@, r.1)),
    {
        self::find_program_address(seeds, program_id).unwrap()
    }

    /// The address that `program_id` derives from `seeds` with its bump seed,
    /// or `None` where the seeds give none.
    pub fn try_find_program_address(seeds: &[&[u8]], program_id: &Pubkey) -> (r: Option<
        (Pubkey, u8),
    >)
        ensures
            r is Some == program_address(seeds.deep_view(), program_id@) is Some,
            r matches Some(found) ==> program_address(seeds.deep_view(), program_id@) == Some(
                (found.0@, found.1),
            ),
            seeds_out_of_bounds(seeds.deep_view()) ==> r is None,
    {
        match self::find_program_address(seeds, program_id) {
            Some(_) => Some(Pubkey::find_program_address(seeds, program_id)),
            None => None,
        }
    }

    /// The address made of the given bytes.
    pub fn new_from_array(bytes: [u8; 32]) -> (r: Self)
        ensures
            r.0 == bytes,
    {
        Pubkey(bytes)
    }

    /// The bytes of the address.
    pub fn to_bytes(&self) -> (r: [u8; 32])
        ensures
            r == self.0,
    {
        self.0
    }
}

} // verus!

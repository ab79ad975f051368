//! The wire encoding of instruction arguments: fixed-width integers in
//! little-endian order, containers as a 32-bit length followed by their
//! elements, nothing in between.

use crate::pubkey::Pubkey;
use vstd::prelude::*;
use vstd::utf8::encode_utf8;

verus! {

/// The lowest `width` bytes of `value`, least significant first.
pub open spec fn le_bytes(value: nat, width: nat) -> Seq<u8>
    decreases width,
{
    if width == 0 {
        Seq::empty()
    } else {
        seq![(value % 256) as u8] + le_bytes(value / 256, (width - 1) as nat)
    }
}

/// The number that a two's complement integer stands for when its bytes are
/// read as unsigned; `modulus` is two to the power of its width in bits.
pub open spec fn twos_complement(value: int, modulus: nat) -> nat {
    if value >= 0 {
        value as nat
    } else {
        (value + modulus) as nat
    }
}

/// `le_bytes` gives as many bytes as it is asked for.
pub proof fn lemma_le_bytes_len(value: nat, width: nat)
    ensures
        le_bytes(value, width).len() == width,
    decreases width,
{
    if width > 0 {
        lemma_le_bytes_len(value / 256, (width - 1) as nat);
    }
}

/// The first byte is the value modulo 256, and the rest encodes the quotient.
pub proof fn lemma_le_bytes_unfold(value: nat, width: nat)
    requires
        width > 0,
    ensures
        le_bytes(value, width) == seq![(value % 256) as u8] + le_bytes(
            value / 256,
            (width - 1) as nat,
        ),
{
}

/// Appends the lowest `width` bytes of `value` to `out`, least significant first.
pub fn push_le(out: &mut Vec<u8>, value: u128, width: usize)
    ensures
        final(out)@ == old(out)@ + le_bytes(value as nat, width as nat),
{
    let mut rest: u128 = value;
    let mut i: usize = 0;
    while i < width
        invariant
            i <= width,
            out@ + le_bytes(rest as nat, (width - i) as nat) == old(out)@ + le_bytes(
                value as nat,
                width as nat,
            ),
        decreases width - i,
    {
        let byte: u8 = (rest % 256) as u8;
        out.push(byte);
        proof {
            lemma_le_bytes_unfold(rest as nat, (width - i) as nat);
        }
        rest = rest / 256;
        i += 1;
    }
}

/// Why a value has no encoding.
#[derive(Clone, Copy, Debug, PartialEq, Eq, Structural)]
pub enum EncodeError {
    /// A container holds more elements than a 32-bit length can count.
    LengthOverflow,
}

/// A value that has a place among the arguments of an instruction.
pub trait AnchorSerialize {
    /// Whether the value can be encoded: false only of a container with more
    /// elements than a 32-bit length can count.
    spec fn encodable(&self) -> bool;

    /// The bytes that stand for the value.
    spec fn encoding(&self) -> Seq<u8>;

    /// Appends the value's bytes to `out`, or reports that it has none.
    fn serialize(&self, out: &mut Vec<u8>) -> (r: Result<(), EncodeError>)
        ensures
            r.is_ok() == self.encodable(),
            r.is_ok() ==> final(out)@ == old(out)@ + self.encoding(),
            old(out)@.is_prefix_of(final(out)@),
    ;
}

impl AnchorSerialize for u8 {
    open spec fn encodable(&self) -> bool {
        true
    }

    open spec fn encoding(&self) -> Seq<u8> {
        le_bytes(*self as nat, 1)
    }

    fn serialize(&self, out: &mut Vec<u8>) -> (r: Result<(), EncodeError>) {
        push_le(out, *self as u128, 1);
        Ok(())
    }
}

impl AnchorSerialize for u16 {
    open spec fn encodable(&self) -> bool {
        true
    }

    open spec fn encoding(&self) -> Seq<u8> {
        le_bytes(*self as nat, 2)
    }

    fn serialize(&self, out: &mut Vec<u8>) -> (r: Result<(), EncodeError>) {
        push_le(out, *self as u128, 2);
        Ok(())
    }
}

impl AnchorSerialize for u32 {
    open spec fn encodable(&self) -> bool {
        true
    }

    open spec fn encoding(&self) -> Seq<u8> {
        le_bytes(*self as nat, 4)
    }

    fn serialize(&self, out: &mut Vec<u8>) -> (r: Result<(), EncodeError>) {
        push_le(out, *self as u128, 4);
        Ok(())
    }
}

impl AnchorSerialize for u64 {
    open spec fn encodable(&self) -> bool {
        true
    }

    open spec fn encoding(&self) -> Seq<u8> {
        le_bytes(*self as nat, 8)
    }

    fn serialize(&self, out: &mut Vec<u8>) -> (r: Result<(), EncodeError>) {
        push_le(out, *self as u128, 8);
        Ok(())
    }
}

impl AnchorSerialize for u128 {
    open spec fn encodable(&self) -> bool {
        true
    }

    open spec fn encoding(&self) -> Seq<u8> {
        le_bytes(*self as nat, 16)
    }

    fn serialize(&self, out: &mut Vec<u8>) -> (r: Result<(), EncodeError>) {
        push_le(out, *self, 16);
        Ok(())
    }
}

impl AnchorSerialize for i8 {
    open spec fn encodable(&self) -> bool {
        true
    }

    open spec fn encoding(&self) -> Seq<u8> {
        le_bytes(twos_complement(*self as int, 0x100), 1)
    }

    fn serialize(&self, out: &mut Vec<u8>) -> (r: Result<(), EncodeError>) {
        let unsigned: u128 = if *self >= 0 {
            *self as u128
        } else {
            (*self as i128 + 0x100) as u128
        };
        push_le(out, unsigned, 1);
        Ok(())
    }
}

impl AnchorSerialize for i16 {
    open spec fn encodable(&self) -> bool {
        true
    }

    open spec fn encoding(&self) -> Seq<u8> {
        le_bytes(twos_complement(*self as int, 0x1_0000), 2)
    }

    fn serialize(&self, out: &mut Vec<u8>) -> (r: Result<(), EncodeError>) {
        let unsigned: u128 = if *self >= 0 {
            *self as u128
        } else {
            (*self as i128 + 0x1_0000) as u128
        };
        push_le(out, unsigned, 2);
        Ok(())
    }
}

impl AnchorSerialize for i32 {
    open spec fn encodable(&self) -> bool {
        true
    }

    open spec fn encoding(&self) -> Seq<u8> {
        le_bytes(twos_complement(*self as int, 0x1_0000_0000), 4)
    }

    fn serialize(&self, out: &mut Vec<u8>) -> (r: Result<(), EncodeError>) {
        let unsigned: u128 = if *self >= 0 {
            *self as u128
        } else {
            (*self as i128 + 0x1_0000_0000) as u128
        };
        push_le(out, unsigned, 4);
        Ok(())
    }
}

impl AnchorSerialize for i64 {
    open spec fn encodable(&self) -> bool {
        true
    }

    open spec fn encoding(&self) -> Seq<u8> {
        le_bytes(twos_complement(*self as int, 0x1_0000_0000_0000_0000), 8)
    }

    fn serialize(&self, out: &mut Vec<u8>) -> (r: Result<(), EncodeError>) {
        let unsigned: u128 = if *self >= 0 {
            *self as u128
        } else {
            (*self as i128 + 0x1_0000_0000_0000_0000) as u128
        };
        push_le(out, unsigned, 8);
        Ok(())
    }
}

impl AnchorSerialize for bool {
    open spec fn encodable(&self) -> bool {
        true
    }

    open spec fn encoding(&self) -> Seq<u8> {
        if *self {
            seq![1u8]
        } else {
            seq![0u8]
        }
    }

    fn serialize(&self, out: &mut Vec<u8>) -> (r: Result<(), EncodeError>) {
        if *self {
            out.push(1);
        } else {
            out.push(0);
        }
        Ok(())
    }
}

impl AnchorSerialize for Pubkey {
    open spec fn encodable(&self) -> bool {
        true
    }

    open spec fn encoding(&self) -> Seq<u8> {
        self@
    }

    fn serialize(&self, out: &mut Vec<u8>) -> (r: Result<(), EncodeError>) {
        out.extend_from_slice(self.0.as_slice());
        Ok(())
    }
}

impl AnchorSerialize for String {
    open spec fn encodable(&self) -> bool {
        encode_utf8(self@).len() <= u32::MAX
    }

    open spec fn encoding(&self) -> Seq<u8> {
        le_bytes(encode_utf8(self@).len(), 4) + encode_utf8(self@)
    }

    fn serialize(&self, out: &mut Vec<u8>) -> (r: Result<(), EncodeError>) {
        let bytes = self.as_str().as_bytes();
        if bytes.len() > 0xffff_ffff {
            return Err(EncodeError::LengthOverflow);
        }
        push_le(out, bytes.len() as u128, 4);
        out.extend_from_slice(bytes);
        Ok(())
    }
}

/// Arguments that were encoded elsewhere: their encoding is the bytes
/// themselves.
#[derive(Clone, Debug, PartialEq, Eq)]
pub struct EncodedArgs(pub Vec<u8>);

impl AnchorSerialize for EncodedArgs {
    open spec fn encodable(&self) -> bool {
        true
    }

    open spec fn encoding(&self) -> Seq<u8> {
        self.0@
    }

    fn serialize(&self, out: &mut Vec<u8>) -> (r: Result<(), EncodeError>) {
        out.extend_from_slice(self.0.as_slice());
        Ok(())
    }
}

/// The encodings of the elements of `items`, one after the other.
pub open spec fn seq_encoding<T: AnchorSerialize>(items: Seq<T>) -> Seq<u8>
    decreases items.len(),
{
    if items.len() == 0 {
        Seq::empty()
    } else {
        seq_encoding(items.drop_last()) + items.last().encoding()
    }
}

impl<T: AnchorSerialize> AnchorSerialize for Vec<T> {
    open spec fn encodable(&self) -> bool {
        &&& self@.len() <= u32::MAX
        &&& forall|i: int| 0 <= i < self@.len() ==> (#[trigger] self@[i]).encodable()
    }

    open spec fn encoding(&self) -> Seq<u8> {
        le_bytes(self@.len(), 4) + seq_encoding(self@)
    }

    fn serialize(&self, out: &mut Vec<u8>) -> (r: Result<(), EncodeError>) {
        if self.len() > 0xffff_ffff {
            return Err(EncodeError::LengthOverflow);
        }
        push_le(out, self.len() as u128, 4);
        let ghost head = out@;
        let mut i: usize = 0;
        while i < self.len()
            invariant
                i <= self@.len(),
                forall|j: int| 0 <= j < i ==> (#[trigger] self@[j]).encodable(),
                old(out)@.is_prefix_of(head),
                out@ == head + seq_encoding(self@.take(i as int)),
            decreases self@.len() - i,
        {
            match self[i].serialize(out) {
                Ok(()) => {},
                Err(e) => {
                    return Err(e);
                },
            }
            proof {
                let next = self@.take(i + 1);
                assert(next.drop_last() =~= self@.take(i as int));
            }
            i += 1;
        }
        assert(self@.take(i as int) =~= self@);
        Ok(())
    }
}

impl<T: AnchorSerialize> AnchorSerialize for Option<T> {
    open spec fn encodable(&self) -> bool {
        match self {
            Some(value) => value.encodable(),
            None => true,
        }
    }

    open spec fn encoding(&self) -> Seq<u8> {
        match self {
            Some(value) => seq![1u8] + value.encoding(),
            None => seq![0u8],
        }
    }

    fn serialize(&self, out: &mut Vec<u8>) -> (r: Result<(), EncodeError>) {
        match self {
            Some(value) => {
                out.push(1);
                let r = value.serialize(out);
                r
            },
            None => {
                out.push(0);
                Ok(())
            },
        }
    }
}

} // verus!

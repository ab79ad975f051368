//! Reading the cost of a transaction from its log, for a ledger that does
//! not report it otherwise. A program's run ends with a line of the form
//! `Program <address> consumed <N> of <M> compute units`.

use crate::text::{contains_bytes, find_bytes, first_occurrence, occurs_in};
use vstd::prelude::*;
use vstd::slice::slice_subrange;
use vstd::utf8::encode_utf8;

verus! {

/// Whether a byte is white space of ASCII: a space, a tab, or one of the line
/// and page breaks.
pub open spec fn is_blank(byte: u8) -> bool {
    byte == 32 || (9 <= byte && byte <= 13)
}

/// Whether two bytes are the UTF-8 form of a white space character: the next
/// line control or the no-break space.
pub open spec fn is_blank_pair(first: u8, second: u8) -> bool {
    first == 0xc2 && (second == 0x85 || second == 0xa0)
}

/// Whether three bytes are the UTF-8 form of a white space character: the
/// Ogham space mark, one of the spaces and separators between U+2000 and
/// U+205F, or the ideographic space.
pub open spec fn is_blank_triple(first: u8, second: u8, third: u8) -> bool {
    ||| first == 0xe1 && second == 0x9a && third == 0x80
    ||| first == 0xe2 && second == 0x80 && ((0x80 <= third && third <= 0x8a) || third == 0xa8
        || third == 0xa9 || third == 0xaf)
    ||| first == 0xe2 && second == 0x81 && third == 0x9f
    ||| first == 0xe3 && second == 0x80 && third == 0x80
}

/// The number of bytes that the white space character at the beginning of
/// `bytes` takes; zero where `bytes` begins with none.
pub open spec fn leading_blank(bytes: Seq<u8>) -> nat {
    if bytes.len() >= 1 && is_blank(bytes[0]) {
        1
    } else if bytes.len() >= 2 && is_blank_pair(bytes[0], bytes[1]) {
        2
    } else if bytes.len() >= 3 && is_blank_triple(bytes[0], bytes[1], bytes[2]) {
        3
    } else {
        0
    }
}

/// The number of bytes that the white space character at the end of `bytes`
/// takes; zero where `bytes` ends with none.
pub open spec fn trailing_blank(bytes: Seq<u8>) -> nat {
    let n = bytes.len() as int;
    if n >= 1 && is_blank(bytes[n - 1]) {
        1
    } else if n >= 2 && is_blank_pair(bytes[n - 2], bytes[n - 1]) {
        2
    } else if n >= 3 && is_blank_triple(bytes[n - 3], bytes[n - 2], bytes[n - 1]) {
        3
    } else {
        0
    }
}

/// `bytes` without the white space at its beginning.
pub open spec fn trim_start(bytes: Seq<u8>) -> Seq<u8>
    decreases bytes.len(),
{
    if leading_blank(bytes) > 0 {
        trim_start(bytes.skip(leading_blank(bytes) as int))
    } else {
        bytes
    }
}

/// `bytes` without the white space at its end.
pub open spec fn trim_end(bytes: Seq<u8>) -> Seq<u8>
    decreases bytes.len(),
{
    if trailing_blank(bytes) > 0 {
        trim_end(bytes.take(bytes.len() - trailing_blank(bytes)))
    } else {
        bytes
    }
}

/// `bytes` without the white space at its beginning and at its end.
pub open spec fn trim(bytes: Seq<u8>) -> Seq<u8> {
    trim_end(trim_start(bytes))
}

/// Whether all of `bytes` are decimal digits.
pub open spec fn all_digits(bytes: Seq<u8>) -> bool {
    forall|i: int| 0 <= i < bytes.len() ==> 48 <= #[trigger] bytes[i] <= 57
}

/// The number that the decimal digits `digits` stand for.
pub open spec fn digits_value(digits: Seq<u8>) -> nat
    decreases digits.len(),
{
    if digits.len() == 0 {
        0
    } else {
        digits_value(digits.drop_last()) * 10 + (digits.last() - 48) as nat
    }
}

/// The number that `bytes` stand for: decimal digits, at least one, after a
/// plus sign or without one, and no more than 64 bits can hold.
pub open spec fn parse_u64(bytes: Seq<u8>) -> Option<u64> {
    let digits = if bytes.len() > 0 && bytes[0] == 43 {
        bytes.drop_first()
    } else {
        bytes
    };
    if digits.len() > 0 && all_digits(digits) && digits_value(digits) <= u64::MAX {
        Some(digits_value(digits) as u64)
    } else {
        None
    }
}

/// `bytes` up to the first place where `stop` stands, or all of it.
pub open spec fn before_first(stop: Seq<u8>, bytes: Seq<u8>) -> Seq<u8> {
    match first_occurrence(stop, bytes) {
        Some(at) => bytes.subrange(0, at),
        None => bytes,
    }
}

/// `bytes` behind the first place where `start` stands.
pub open spec fn after_first(start: Seq<u8>, bytes: Seq<u8>) -> Seq<u8> {
    match first_occurrence(start, bytes) {
        Some(at) => bytes.subrange(at + start.len(), bytes.len() as int),
        None => Seq::empty(),
    }
}

/// The word before the number of units.
pub open spec fn consumed_word() -> Seq<u8> {
    encode_utf8("consumed"@)
}

/// The word between the number of units and their limit.
pub open spec fn of_word() -> Seq<u8> {
    encode_utf8("of"@)
}

/// The words at the end of the line.
pub open spec fn units_words() -> Seq<u8> {
    encode_utf8("compute units"@)
}

/// The compute units that the log line `line` reports: the number between
/// the first `consumed` and what follows it first, an `of` or another
/// `consumed`, in a line that also says `compute units`.
pub open spec fn units_in_line(line: Seq<u8>) -> Option<u64> {
    if occurs_in(consumed_word(), line) && occurs_in(units_words(), line) {
        parse_u64(
            trim(
                before_first(
                    of_word(),
                    before_first(consumed_word(), after_first(consumed_word(), line)),
                ),
            ),
        )
    } else {
        None
    }
}

/// The compute units that the first line of `logs` reports that reports any;
/// zero where none does.
pub open spec fn units_in_logs(logs: Seq<Seq<char>>) -> u64
    decreases logs.len(),
{
    if logs.len() == 0 {
        0
    } else {
        match units_in_line(encode_utf8(logs[0])) {
            Some(units) => units,
            None => units_in_logs(logs.drop_first()),
        }
    }
}

fn is_blank_byte(byte: u8) -> (r: bool)
    ensures
        r == is_blank(byte),
{
    byte == 32 || (9 <= byte && byte <= 13)
}

fn is_blank_bytes2(first: u8, second: u8) -> (r: bool)
    ensures
        r == is_blank_pair(first, second),
{
    first == 0xc2 && (second == 0x85 || second == 0xa0)
}

fn is_blank_bytes3(first: u8, second: u8, third: u8) -> (r: bool)
    ensures
        r == is_blank_triple(first, second, third),
{
    (first == 0xe1 && second == 0x9a && third == 0x80) || (first == 0xe2 && second == 0x80 && ((0x80
        <= third && third <= 0x8a) || third == 0xa8 || third == 0xa9 || third == 0xaf)) || (first
        == 0xe2 && second == 0x81 && third == 0x9f) || (first == 0xe3 && second == 0x80 && third
        == 0x80)
}

/// The number of bytes of the white space character at the beginning of
/// `bytes[lo..hi]`.
fn leading_blank_in(bytes: &[u8], lo: usize, hi: usize) -> (n: usize)
    requires
        lo <= hi <= bytes@.len(),
    ensures
        n == leading_blank(bytes@.subrange(lo as int, hi as int)),
        n <= hi - lo,
{
    let len: usize = hi - lo;
    if len >= 1 && is_blank_byte(bytes[lo]) {
        1
    } else if len >= 2 && is_blank_bytes2(bytes[lo], bytes[lo + 1]) {
        2
    } else if len >= 3 && is_blank_bytes3(bytes[lo], bytes[lo + 1], bytes[lo + 2]) {
        3
    } else {
        0
    }
}

/// The number of bytes of the white space character at the end of
/// `bytes[lo..hi]`.
fn trailing_blank_in(bytes: &[u8], lo: usize, hi: usize) -> (n: usize)
    requires
        lo <= hi <= bytes@.len(),
    ensures
        n == trailing_blank(bytes@.subrange(lo as int, hi as int)),
        n <= hi - lo,
{
    let len: usize = hi - lo;
    if len >= 1 && is_blank_byte(bytes[hi - 1]) {
        1
    } else if len >= 2 && is_blank_bytes2(bytes[hi - 2], bytes[hi - 1]) {
        2
    } else if len >= 3 && is_blank_bytes3(bytes[hi - 3], bytes[hi - 2], bytes[hi - 1]) {
        3
    } else {
        0
    }
}

/// Takes the white space from both ends of `bytes`.
pub fn trim_bytes(bytes: &[u8]) -> (r: &[u8])
    ensures
        r@ == trim(bytes@),
{
    let len: usize = bytes.len();
    let mut lo: usize = 0;
    assert(bytes@.subrange(0, len as int) =~= bytes@);
    loop
        invariant
            lo <= len == bytes@.len(),
            trim_start(bytes@) == trim_start(bytes@.subrange(lo as int, len as int)),
        ensures
            lo <= len,
            trim_start(bytes@) == bytes@.subrange(lo as int, len as int),
        decreases len - lo,
    {
        let n: usize = leading_blank_in(bytes, lo, len);
        if n == 0 {
            break;
        }
        proof {
            let rest = bytes@.subrange(lo as int, len as int);
            assert(rest.skip(n as int) =~= bytes@.subrange(lo + n, len as int));
        }
        lo += n;
    }
    let ghost left = bytes@.subrange(lo as int, len as int);
    let mut hi: usize = len;
    loop
        invariant
            lo <= hi <= len == bytes@.len(),
            trim_end(left) == trim_end(bytes@.subrange(lo as int, hi as int)),
        ensures
            lo <= hi <= len,
            trim_end(left) == bytes@.subrange(lo as int, hi as int),
        decreases hi - lo,
    {
        let n: usize = trailing_blank_in(bytes, lo, hi);
        if n == 0 {
            break;
        }
        proof {
            let part = bytes@.subrange(lo as int, hi as int);
            assert(part.take(part.len() - n) =~= bytes@.subrange(lo as int, hi - n));
        }
        hi -= n;
    }
    slice_subrange(bytes, lo, hi)
}

/// One more digit makes a number no smaller.
proof fn lemma_digits_value_grows(digits: Seq<u8>, shorter: int)
    requires
        0 <= shorter <= digits.len(),
        all_digits(digits),
    ensures
        digits_value(digits.subrange(0, shorter)) <= digits_value(digits),
    decreases digits.len() - shorter,
{
    if shorter < digits.len() {
        let next = digits.subrange(0, shorter + 1);
        assert(next.drop_last() =~= digits.subrange(0, shorter));
        lemma_digits_value_grows(digits, shorter + 1);
    } else {
        assert(digits.subrange(0, shorter) =~= digits);
    }
}

/// Reads a number: decimal digits, at least one, after a plus sign or
/// without one.
pub fn parse_u64_bytes(bytes: &[u8]) -> (r: Option<u64>)
    ensures
        r == parse_u64(bytes@),
{
    let start: usize = if bytes.len() > 0 && bytes[0] == 43 {
        1
    } else {
        0
    };
    let ghost digits = if start == 1 {
        bytes@.drop_first()
    } else {
        bytes@
    };
    if start == bytes.len() {
        return None;
    }
    let mut value: u64 = 0;
    let mut i: usize = start;
    while i < bytes.len()
        invariant
            start <= i <= bytes@.len(),
            digits == bytes@.subrange(start as int, bytes@.len() as int),
            digits.len() > 0,
            digits == if bytes@.len() > 0 && bytes@[0] == 43 {
                bytes@.drop_first()
            } else {
                bytes@
            },
            all_digits(digits.subrange(0, i - start)),
            value == digits_value(digits.subrange(0, i - start)),
        decreases bytes@.len() - i,
    {
        let byte: u8 = bytes[i];
        let ghost head = digits.subrange(0, i - start);
        let ghost next = digits.subrange(0, i - start + 1);
        proof {
            assert(next.drop_last() =~= head);
            assert(next.last() == byte);
        }
        if byte < 48 || byte > 57 {
            return None;
        }
        let digit: u64 = (byte - 48) as u64;
        assert(digits_value(next) == value * 10 + digit);
        if value > (u64::MAX - digit) / 10 {
            proof {
                if all_digits(digits) {
                    lemma_digits_value_grows(digits, i - start + 1);
                }
            }
            return None;
        }
        value = value * 10 + digit;
        assert forall|j: int| 0 <= j < next.len() implies 48 <= #[trigger] next[j] <= 57 by {
            if j < head.len() {
            }
        }
        i += 1;
    }
    assert(digits.subrange(0, i - start) =~= digits);
    Some(value)
}

/// `bytes` up to the first place where `stop` stands, or all of it.
pub fn take_before<'a>(bytes: &'a [u8], stop: &[u8]) -> (r: &'a [u8])
    ensures
        r@ == before_first(stop@, bytes@),
{
    match find_bytes(bytes, stop) {
        Some(at) => slice_subrange(bytes, 0, at),
        None => bytes,
    }
}

/// Reads the compute units that one log line reports.
pub fn compute_units_in_line(line: &str) -> (r: Option<u64>)
    ensures
        r == units_in_line(encode_utf8(line@)),
{
    let bytes = line.as_bytes();
    let consumed = "consumed".as_bytes();
    let len: usize = bytes.len();
    if !contains_bytes(bytes, "compute units".as_bytes()) {
        return None;
    }
    match find_bytes(bytes, consumed) {
        None => None,
        Some(at) => {
            let rest = slice_subrange(bytes, at + consumed.len(), len);
            let part = take_before(rest, consumed);
            let number = take_before(part, "of".as_bytes());
            parse_u64_bytes(trim_bytes(number))
        },
    }
}

/// Reads the compute units of a transaction from its log: what the first
/// line says that reports any, and zero where none does.
pub fn compute_units_in_logs(logs: &[String]) -> (r: u64)
    ensures
        r == units_in_logs(logs.deep_view()),
{
    let mut i: usize = 0;
    assert(logs.deep_view().subrange(0, logs@.len() as int) =~= logs.deep_view());
    while i < logs.len()
        invariant
            i <= logs@.len(),
            units_in_logs(logs.deep_view()) == units_in_logs(
                logs.deep_view().subrange(i as int, logs@.len() as int),
            ),
        decreases logs@.len() - i,
    {
        let ghost rest = logs.deep_view().subrange(i as int, logs@.len() as int);
        proof {
            assert(rest[0] == logs@[i as int]@);
            assert(rest.drop_first() =~= logs.deep_view().subrange(i + 1, logs@.len() as int));
        }
        match compute_units_in_line(logs[i].as_str()) {
            Some(units) => {
                return units;
            },
            None => {},
        }
        i += 1;
    }
    0
}

} // verus!

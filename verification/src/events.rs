//! Events in the log of a transaction. A program writes an event as a log
//! line of its own: a fixed prefix, then the base64 text of the event's
//! eight-byte tag and its encoded body.

use crate::text::{decimal, decimal_string, matches_at, occurs_at, starts_with_bytes};
use crate::transaction::{TransactionError, TransactionResult, TransactionResultView};
use vstd::prelude::*;
use vstd::slice::slice_subrange;
use vstd::slice::slice_to_vec;
use vstd::string::StringExecFns;
use vstd::utf8::encode_utf8;

verus! {

/// Why a text is no base64 text.
#[derive(Clone, Copy, Debug, PartialEq, Eq, Structural)]
pub enum DecodeError {
    /// A byte that the alphabet does not have, or padding in the middle: the
    /// place and the byte.
    InvalidByte(usize, u8),
    /// A number of symbols that no text has.
    InvalidLength(usize),
    /// A last symbol with bits that would be lost: the place and the byte.
    InvalidLastSymbol(usize, u8),
    /// Missing or wrong padding.
    InvalidPadding,
}

impl DecodeError {
    /// The error in words.
    pub open spec fn description(&self) -> Seq<char> {
        match self {
            DecodeError::InvalidByte(index, byte) => "Invalid symbol "@ + decimal(*byte as nat)
                + ", offset "@ + decimal(*index as nat) + "."@,
            DecodeError::InvalidLength(len) => "Invalid input length: "@ + decimal(*len as nat),
            DecodeError::InvalidLastSymbol(index, byte) => "Invalid last symbol "@ + decimal(
                *byte as nat,
            ) + ", offset "@ + decimal(*index as nat) + "."@,
            DecodeError::InvalidPadding => "Invalid padding"@,
        }
    }

    /// Says the error in words.
    pub fn to_string(&self) -> (r: String)
        ensures
            r@ == self.description(),
    {
        match self {
            DecodeError::InvalidByte(index, byte) => {
                let mut text = String::from_str("Invalid symbol ");
                text.append(decimal_string(*byte as u64).as_str());
                text.append(", offset ");
                text.append(decimal_string(*index as u64).as_str());
                text.append(".");
                text
            },
            DecodeError::InvalidLength(len) => String::from_str("Invalid input length: ").concat(
                decimal_string(*len as u64).as_str(),
            ),
            DecodeError::InvalidLastSymbol(index, byte) => {
                let mut text = String::from_str("Invalid last symbol ");
                text.append(decimal_string(*byte as u64).as_str());
                text.append(", offset ");
                text.append(decimal_string(*index as u64).as_str());
                text.append(".");
                text
            },
            DecodeError::InvalidPadding => String::from_str("Invalid padding"),
        }
    }
}

/// Why the events of a transaction could not be read.
#[derive(Clone, Debug, PartialEq, Eq)]
pub enum EventError {
    /// The body of an event is not that of the expected type.
    ParseError(String),
    /// The log holds no event of the expected type.
    EventNotFound,
    /// The bytes do not begin with the tag of the expected type.
    InvalidFormat,
    /// A log line that should hold an event is no base64 text.
    Base64Error(DecodeError),
    /// The decoder of the event's body complained.
    AnchorError(String),
}

/// The bytes that a base64 text in the standard alphabet, with padding,
/// stands for, or why the text is not well formed.
pub uninterp spec fn base64_decoded(text: Seq<u8>) -> Result<Seq<u8>, DecodeError>;

/// Calls `decode` of `base64::engine::general_purpose::STANDARD`, and hands
/// out the decoder's error variant by variant. The contract names the
/// outcome after the text; it says nothing else of it.
#[verifier::external_body]
fn base64_decode(text: &[u8]) -> (r: Result<Vec<u8>, DecodeError>)
    ensures
        match r {
            Ok(bytes) => base64_decoded(text@) == Ok::<Seq<u8>, DecodeError>(bytes@),
            Err(e) => base64_decoded(text@) == Err::<Seq<u8>, DecodeError>(e),
        },
{
    let engine = &base64::engine::general_purpose::STANDARD;
    match <base64::engine::GeneralPurpose as base64::Engine>::decode(engine, text) {
        Ok(bytes) => Ok(bytes),
        Err(base64::DecodeError::InvalidByte(at, byte)) => Err(DecodeError::InvalidByte(at, byte)),
        Err(base64::DecodeError::InvalidLength(len)) => Err(DecodeError::InvalidLength(len)),
        Err(base64::DecodeError::InvalidLastSymbol(at, byte)) => Err(
            DecodeError::InvalidLastSymbol(at, byte),
        ),
        Err(base64::DecodeError::InvalidPadding) => Err(DecodeError::InvalidPadding),
    }
}

impl EventError {
    /// The error in words.
    pub open spec fn description(&self) -> Seq<char> {
        match self {
            EventError::ParseError(text) => "Failed to parse event data: "@ + text@,
            EventError::EventNotFound => "Event not found in logs"@,
            EventError::InvalidFormat => "Invalid event format"@,
            EventError::Base64Error(error) => "Base64 decode error: "@ + error.description(),
            EventError::AnchorError(text) => "Anchor deserialization error: "@ + text@,
        }
    }

    /// Says the error in words.
    pub fn to_string(&self) -> (r: String)
        ensures
            r@ == self.description(),
    {
        match self {
            EventError::ParseError(text) => String::from_str("Failed to parse event data: ").concat(
                text.as_str(),
            ),
            EventError::EventNotFound => String::from_str("Event not found in logs"),
            EventError::InvalidFormat => String::from_str("Invalid event format"),
            EventError::Base64Error(error) => String::from_str("Base64 decode error: ").concat(
                error.to_string().as_str(),
            ),
            EventError::AnchorError(text) => String::from_str(
                "Anchor deserialization error: ",
            ).concat(text.as_str()),
        }
    }
}

/// The words before the base64 text in a log line that holds an event.
pub open spec fn event_prefix() -> Seq<u8> {
    encode_utf8("Program data: "@)
}

/// What a line of the log says to a reader of events.
pub enum EventLine {
    /// The line holds no event, or an event of another type.
    Other,
    /// The line holds an event of the expected type, with this body.
    Event(Seq<u8>),
    /// The line should hold an event, and what follows the prefix is no
    /// base64 text, for this reason.
    Malformed(DecodeError),
}

/// The body behind the tag `discriminator` in `bytes`, if they begin with it.
pub open spec fn tagged_body(bytes: Seq<u8>, discriminator: Seq<u8>) -> Option<Seq<u8>> {
    if bytes.len() >= 8 && bytes.subrange(0, 8) == discriminator {
        Some(bytes.subrange(8, bytes.len() as int))
    } else {
        None
    }
}

/// What the log line `line` says to a reader of the events tagged
/// `discriminator`.
pub open spec fn read_line(line: Seq<char>, discriminator: Seq<u8>) -> EventLine {
    let bytes = encode_utf8(line);
    if !occurs_at(event_prefix(), bytes, 0) {
        EventLine::Other
    } else {
        match base64_decoded(bytes.subrange(event_prefix().len() as int, bytes.len() as int)) {
            Err(error) => EventLine::Malformed(error),
            Ok(decoded) => match tagged_body(decoded, discriminator) {
                Some(body) => EventLine::Event(body),
                None => EventLine::Other,
            },
        }
    }
}

/// The bodies of the events tagged `discriminator` in `logs`, in the order of
/// the log; where a line is malformed, what is wrong with the first such
/// line.
pub open spec fn events_in(logs: Seq<Seq<char>>, discriminator: Seq<u8>) -> Result<
    Seq<Seq<u8>>,
    DecodeError,
>
    decreases logs.len(),
{
    if logs.len() == 0 {
        Ok(Seq::empty())
    } else {
        match events_in(logs.drop_last(), discriminator) {
            Err(error) => Err(error),
            Ok(found) => match read_line(logs.last(), discriminator) {
                EventLine::Other => Ok(found),
                EventLine::Event(body) => Ok(found.push(body)),
                EventLine::Malformed(error) => Err(error),
            },
        }
    }
}

/// Tests whether `bytes` begin with the tag `discriminator`, and hands out
/// what follows it.
pub fn strip_discriminator<'a>(bytes: &'a [u8], discriminator: &[u8]) -> (r: Option<&'a [u8]>)
    ensures
        match r {
            Some(body) => tagged_body(bytes@, discriminator@) == Some(body@),
            None => tagged_body(bytes@, discriminator@) is None,
        },
{
    if bytes.len() < 8 || discriminator.len() != 8 {
        return None;
    }
    if matches_at(bytes, discriminator, 0) {
        Some(slice_subrange(bytes, 8, bytes.len()))
    } else {
        None
    }
}

/// Reads one line of the log for an event tagged `discriminator`.
pub fn event_in_line(line: &str, discriminator: &[u8]) -> (r: Result<Option<Vec<u8>>, EventError>)
    ensures
        match r {
            Ok(Some(body)) => read_line(line@, discriminator@) == EventLine::Event(body@),
            Ok(None) => read_line(line@, discriminator@) == EventLine::Other,
            Err(EventError::Base64Error(error)) => read_line(line@, discriminator@)
                == EventLine::Malformed(error),
            Err(_) => false,
        },
{
    let bytes = line.as_bytes();
    let prefix = "Program data: ".as_bytes();
    if !starts_with_bytes(bytes, prefix) {
        return Ok(None);
    }
    let text = slice_subrange(bytes, prefix.len(), bytes.len());
    match base64_decode(text) {
        Err(error) => Err(EventError::Base64Error(error)),
        Ok(decoded) => match strip_discriminator(decoded.as_slice(), discriminator) {
            Some(body) => Ok(Some(slice_to_vec(body))),
            None => Ok(None),
        },
    }
}

/// The events tagged `discriminator` in `logs`, in the order of the log.
pub fn events_in_logs(logs: &[String], discriminator: &[u8]) -> (r: Result<
    Vec<Vec<u8>>,
    EventError,
>)
    ensures
        reads(r, logs.deep_view(), discriminator@),
{
    let mut bodies: Vec<Vec<u8>> = Vec::new();
    let mut i: usize = 0;
    assert(logs.deep_view().take(0) =~= Seq::empty());
    assert(bodies.deep_view() =~= Seq::<Seq<u8>>::empty());
    while i < logs.len()
        invariant
            i <= logs@.len(),
            events_in(logs.deep_view().take(i as int), discriminator@) == Ok::<
                Seq<Seq<u8>>,
                DecodeError,
            >(bodies.deep_view()),
        decreases logs@.len() - i,
    {
        let ghost before = bodies.deep_view();
        let ghost next = logs.deep_view().take(i + 1);
        proof {
            assert(next.drop_last() =~= logs.deep_view().take(i as int));
        }
        match event_in_line(logs[i].as_str(), discriminator) {
            Err(e) => {
                proof {
                    lemma_first_malformed_line_decides(logs.deep_view(), discriminator@, i + 1);
                }
                return Err(e);
            },
            Ok(None) => {},
            Ok(Some(body)) => {
                bodies.push(body);
                assert(bodies.deep_view() =~~= before.push(body@));
            },
        }
        i += 1;
    }
    assert(logs.deep_view().take(i as int) =~= logs.deep_view());
    Ok(bodies)
}

/// A log whose beginning cannot be read cannot be read, and for the same
/// reason: the first malformed line decides.
pub proof fn lemma_first_malformed_line_decides(
    logs: Seq<Seq<char>>,
    discriminator: Seq<u8>,
    upto: int,
)
    requires
        0 <= upto <= logs.len(),
        events_in(logs.take(upto), discriminator) is Err,
    ensures
        events_in(logs, discriminator) == events_in(logs.take(upto), discriminator),
    decreases logs.len(),
{
    if upto < logs.len() {
        assert(logs.drop_last().take(upto) =~= logs.take(upto));
        lemma_first_malformed_line_decides(logs.drop_last(), discriminator, upto);
    } else {
        assert(logs.take(upto) =~= logs);
    }
}

/// Whether `r` is what a reader of the events tagged `discriminator` makes
/// of `logs`: their bodies, or the reason why the first malformed line is
/// one.
pub open spec fn reads(
    r: Result<Vec<Vec<u8>>, EventError>,
    logs: Seq<Seq<char>>,
    discriminator: Seq<u8>,
) -> bool {
    match r {
        Ok(bodies) => events_in(logs, discriminator) == Ok::<Seq<Seq<u8>>, DecodeError>(
            bodies.deep_view(),
        ),
        Err(EventError::Base64Error(error)) => events_in(logs, discriminator) == Err::<
            Seq<Seq<u8>>,
            DecodeError,
        >(error),
        Err(_) => false,
    }
}

/// What is said when no event of the expected type was found.
pub open spec fn none_emitted_message(event_name: Seq<char>, result: TransactionResultView) -> Seq<
    char,
> {
    "Expected at least one event of type '"@ + event_name
        + "' to be emitted, but none were found.\nLogs:\n"@ + result.log_dump()
}

/// What is said when another number of events was found than expected.
pub open spec fn count_message(
    event_name: Seq<char>,
    expected: nat,
    found: nat,
    result: TransactionResultView,
) -> Seq<char> {
    "Expected "@ + decimal(expected) + " events of type '"@ + event_name + "', but found "@
        + decimal(found) + ".\nLogs:\n"@ + result.log_dump()
}

/// What is said when the log could not be read: why, and the log.
pub open spec fn unreadable_message(
    event_name: Seq<char>,
    error: EventError,
    result: TransactionResultView,
) -> Seq<char> {
    "Failed to parse events of type '"@ + event_name + "': "@ + error.description()
        + "\nLogs:\n"@ + result.log_dump()
}

/// The number of events tagged `discriminator` in `logs`, if the log can be
/// read.
pub open spec fn event_count(logs: Seq<Seq<char>>, discriminator: Seq<u8>) -> Option<nat> {
    match events_in(logs, discriminator) {
        Ok(found) => Some(found.len()),
        Err(_) => None,
    }
}

/// What is said of the events tagged `discriminator` in the log of `result`
/// when there are not as many as expected: `otherwise` where the log can be
/// read, and else why it cannot.
pub open spec fn events_message(
    event_name: Seq<char>,
    discriminator: Seq<u8>,
    result: TransactionResultView,
    otherwise: Seq<char>,
) -> Seq<char> {
    match events_in(result.logs, discriminator) {
        Ok(_) => otherwise,
        Err(error) => unreadable_message(event_name, EventError::Base64Error(error), result),
    }
}

fn unreadable(event_name: &str, error: &EventError, result: &TransactionResult) -> (r: Result<
    (),
    TransactionError,
>)
    ensures
        r matches Err(e) && e is AssertionFailed && e.detail() == unreadable_message(
            event_name@,
            *error,
            result@,
        ),
{
    let mut message = String::from_str("Failed to parse events of type '");
    message.append(event_name);
    message.append("': ");
    let said = error.to_string();
    message.append(said.as_str());
    message.append("\nLogs:\n");
    message.append(result.log_dump().as_str());
    Err(TransactionError::AssertionFailed(message))
}

/// The events tagged `discriminator` that the transaction logged, in the
/// order of the log.
pub fn parse_events(result: &TransactionResult, discriminator: &[u8]) -> (r: Result<
    Vec<Vec<u8>>,
    EventError,
>)
    ensures
        reads(r, result@.logs, discriminator@),
{
    events_in_logs(result.logs(), discriminator)
}

/// The first event tagged `discriminator` that the transaction logged.
pub fn parse_event(result: &TransactionResult, discriminator: &[u8]) -> (r: Result<
    Vec<u8>,
    EventError,
>)
    ensures
        match r {
            Ok(body) => events_in(result@.logs, discriminator@) matches Ok(found) && found.len()
                > 0 && found[0] == body@,
            Err(EventError::EventNotFound) => events_in(result@.logs, discriminator@) == Ok::<
                Seq<Seq<u8>>,
                DecodeError,
            >(Seq::empty()),
            Err(EventError::Base64Error(error)) => events_in(result@.logs, discriminator@) == Err::<
                Seq<Seq<u8>>,
                DecodeError,
            >(error),
            Err(_) => false,
        },
{
    match parse_events(result, discriminator) {
        Err(e) => Err(e),
        Ok(bodies) => {
            let mut bodies = bodies;
            if bodies.len() == 0 {
                assert(bodies.deep_view() =~= Seq::<Seq<u8>>::empty());
                Err(EventError::EventNotFound)
            } else {
                assert(bodies.deep_view()[0] == bodies@[0]@);
                Ok(bodies.swap_remove(0))
            }
        },
    }
}

/// Whether the transaction logged an event tagged `discriminator`. A log
/// that cannot be read holds none.
pub fn has_event(result: &TransactionResult, discriminator: &[u8]) -> (r: bool)
    ensures
        r == (event_count(result@.logs, discriminator@) matches Some(n) && n > 0),
{
    match parse_events(result, discriminator) {
        Ok(bodies) => bodies.len() > 0,
        Err(_) => false,
    }
}

/// Whether the transaction logged at least one event tagged
/// `discriminator`; `event_name` is the name of its type in what is said
/// otherwise.
pub fn check_event_emitted(result: &TransactionResult, discriminator: &[u8], event_name: &str) -> (r:
    Result<(), TransactionError>)
    ensures
        r is Ok == (event_count(result@.logs, discriminator@) matches Some(n) && n > 0),
        r matches Err(e) ==> e is AssertionFailed && e.detail() == events_message(
            event_name@,
            discriminator@,
            result@,
            none_emitted_message(event_name@, result@),
        ),
{
    match parse_events(result, discriminator) {
        Ok(bodies) => {
            if bodies.len() > 0 {
                assert_event_emitted(result, discriminator);
                Ok(())
            } else {
                let mut message = String::from_str("Expected at least one event of type '");
                message.append(event_name);
                message.append("' to be emitted, but none were found.\nLogs:\n");
                message.append(result.log_dump().as_str());
                Err(TransactionError::AssertionFailed(message))
            }
        },
        Err(e) => unreadable(event_name, &e, result),
    }
}

/// Whether the transaction logged `expected_count` events tagged
/// `discriminator`; `event_name` is the name of their type in what is said
/// otherwise.
pub fn check_event_count(
    result: &TransactionResult,
    discriminator: &[u8],
    event_name: &str,
    expected_count: usize,
) -> (r: Result<(), TransactionError>)
    ensures
        r is Ok == (event_count(result@.logs, discriminator@) == Some(expected_count as nat)),
        r matches Err(e) ==> e is AssertionFailed && e.detail() == events_message(
            event_name@,
            discriminator@,
            result@,
            count_message(
                event_name@,
                expected_count as nat,
                events_in(result@.logs, discriminator@).unwrap().len(),
                result@,
            ),
        ),
{
    match parse_events(result, discriminator) {
        Ok(bodies) => {
            if bodies.len() == expected_count {
                assert_event_count(result, discriminator, expected_count);
                Ok(())
            } else {
                let mut message = String::from_str("Expected ");
                message.append(decimal_string(expected_count as u64).as_str());
                message.append(" events of type '");
                message.append(event_name);
                message.append("', but found ");
                message.append(decimal_string(bodies.len() as u64).as_str());
                message.append(".\nLogs:\n");
                message.append(result.log_dump().as_str());
                Err(TransactionError::AssertionFailed(message))
            }
        },
        Err(e) => unreadable(event_name, &e, result),
    }
}

/// Accepts a result with at least one event tagged `discriminator`.
pub fn assert_event_emitted(result: &TransactionResult, discriminator: &[u8])
    requires
        event_count(result@.logs, discriminator@) matches Some(n) && n > 0,
{
}

/// Accepts a result with `expected_count` events tagged `discriminator`.
pub fn assert_event_count(result: &TransactionResult, discriminator: &[u8], expected_count: usize)
    requires
        event_count(result@.logs, discriminator@) == Some(expected_count as nat),
{
}

/// The body of the event tagged `discriminator` that `base64_data` holds.
pub fn parse_event_data(base64_data: &str, discriminator: &[u8]) -> (r: Result<Vec<u8>, EventError>)
    ensures
        match r {
            Ok(body) => base64_decoded(encode_utf8(base64_data@)) matches Ok(decoded)
                && tagged_body(decoded, discriminator@) == Some(body@),
            Err(EventError::InvalidFormat) => base64_decoded(encode_utf8(base64_data@)) matches Ok(
                decoded,
            ) && tagged_body(decoded, discriminator@) is None,
            Err(EventError::Base64Error(error)) => base64_decoded(encode_utf8(base64_data@))
                == Err::<Seq<u8>, DecodeError>(error),
            Err(_) => false,
        },
{
    match base64_decode(base64_data.as_bytes()) {
        Err(error) => Err(EventError::Base64Error(error)),
        Ok(decoded) => match strip_discriminator(decoded.as_slice(), discriminator) {
            Some(body) => Ok(slice_to_vec(body)),
            None => Err(EventError::InvalidFormat),
        },
    }
}

} // verus!

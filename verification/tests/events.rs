use anchor_litesvm::events::{
    assert_event_count, assert_event_emitted, check_event_count, check_event_emitted,
    event_in_line, events_in_logs, has_event, parse_event, parse_event_data, parse_events,
    strip_discriminator, DecodeError, EventError,
};
use anchor_litesvm::transaction::{TransactionError, TransactionMetadata, TransactionResult};
use base64::Engine;

const TAG: [u8; 8] = [1, 2, 3, 4, 5, 6, 7, 8];
const OTHER: [u8; 8] = [9, 9, 9, 9, 9, 9, 9, 9];

fn event_line(tag: &[u8], body: &[u8]) -> String {
    let mut bytes = tag.to_vec();
    bytes.extend_from_slice(body);
    format!("Program data: {}", base64::engine::general_purpose::STANDARD.encode(bytes))
}

fn result_with(logs: Vec<String>) -> TransactionResult {
    TransactionResult::new(TransactionMetadata { logs, compute_units_consumed: 0 }, None)
}

fn said(r: Result<(), TransactionError>) -> String {
    match r {
        Err(TransactionError::AssertionFailed(text)) => text,
        other => panic!("expected a failed assertion, got {:?}", other),
    }
}

#[test]
fn test_event_error_display() {
    let err = EventError::EventNotFound;
    assert_eq!(err.to_string(), "Event not found in logs");

    let err = EventError::ParseError("test error".to_string());
    assert_eq!(err.to_string(), "Failed to parse event data: test error");
}

#[test]
fn the_other_event_errors_say_what_they_are() {
    assert_eq!(EventError::InvalidFormat.to_string(), "Invalid event format");
    assert_eq!(
        EventError::AnchorError("eof".to_string()).to_string(),
        "Anchor deserialization error: eof"
    );
    assert_eq!(
        EventError::Base64Error(DecodeError::InvalidPadding).to_string(),
        "Base64 decode error: Invalid padding"
    );
}

#[test]
fn decoder_errors_read_as_the_decoder_writes_them() {
    for text in ["!", "AQI", "AQID=", "AQ=D", "A", "AB", "AQ==A", "AR==", "AQI!", "====", "AAAAA"] {
        let theirs = base64::engine::general_purpose::STANDARD.decode(text).unwrap_err();
        let ours = match parse_event_data(text, &TAG) {
            Err(EventError::Base64Error(error)) => error,
            other => panic!("{:?} should not decode: {:?}", text, other),
        };
        assert_eq!(ours.to_string(), theirs.to_string(), "{:?}", text);
        let same = match theirs {
            base64::DecodeError::InvalidByte(at, byte) => ours == DecodeError::InvalidByte(at, byte),
            base64::DecodeError::InvalidLength(len) => ours == DecodeError::InvalidLength(len),
            base64::DecodeError::InvalidLastSymbol(at, byte) => {
                ours == DecodeError::InvalidLastSymbol(at, byte)
            }
            base64::DecodeError::InvalidPadding => ours == DecodeError::InvalidPadding,
        };
        assert!(same, "{:?}", text);
    }
    assert_eq!(DecodeError::InvalidByte(12, 33).to_string(), "Invalid symbol 33, offset 12.");
    assert_eq!(DecodeError::InvalidLength(5).to_string(), "Invalid input length: 5");
    assert_eq!(
        DecodeError::InvalidLastSymbol(1, 82).to_string(),
        "Invalid last symbol 82, offset 1."
    );
    assert_eq!(DecodeError::InvalidPadding.to_string(), "Invalid padding");
}

#[test]
fn events_come_in_the_order_of_the_log() {
    let result = result_with(vec![
        "Program log: start".to_string(),
        event_line(&TAG, &[10, 0]),
        event_line(&OTHER, &[20]),
        "Program data".to_string(),
        event_line(&TAG, &[]),
        event_line(&TAG, &[30, 31, 32]),
        "Program log: Program data: not at the start".to_string(),
    ]);
    assert_eq!(
        parse_events(&result, &TAG).unwrap(),
        vec![vec![10, 0], vec![], vec![30, 31, 32]]
    );
    assert_eq!(parse_events(&result, &OTHER).unwrap(), vec![vec![20]]);
    assert_eq!(parse_event(&result, &TAG).unwrap(), vec![10, 0]);
    assert!(has_event(&result, &TAG));
    assert!(!has_event(&result, &[0; 8]));
    assert!(matches!(parse_event(&result, &[0; 8]), Err(EventError::EventNotFound)));
    assert_eq!(check_event_emitted(&result, &TAG, "Transfer"), Ok(()));
    assert_eq!(check_event_count(&result, &TAG, "Transfer", 3), Ok(()));
    assert_eq!(check_event_count(&result, &[0; 8], "Transfer", 0), Ok(()));
    assert_event_emitted(&result, &TAG);
    assert_event_count(&result, &TAG, 3);
    assert_eq!(events_in_logs(result.logs(), &TAG).unwrap().len(), 3);
}

#[test]
fn a_short_or_foreign_blob_is_no_event() {
    let seven = format!(
        "Program data: {}",
        base64::engine::general_purpose::STANDARD.encode([1u8, 2, 3, 4, 5, 6, 7])
    );
    assert!(matches!(event_in_line(&seven, &[1, 2, 3, 4, 5, 6, 7]), Ok(None)));
    assert!(matches!(event_in_line(&seven, &TAG), Ok(None)));
    assert!(matches!(event_in_line("Program data: ", &TAG), Ok(None)));
    assert!(matches!(event_in_line("", &TAG), Ok(None)));
    assert!(matches!(event_in_line(&event_line(&TAG, &[5]), &TAG[..7]), Ok(None)));
    let mut nine = TAG.to_vec();
    nine.push(0);
    assert!(matches!(event_in_line(&event_line(&TAG, &[0, 5]), &nine), Ok(None)));
    assert_eq!(event_in_line(&event_line(&TAG, &[5]), &TAG).unwrap(), Some(vec![5]));
    assert_eq!(strip_discriminator(&[1, 2, 3, 4, 5, 6, 7, 8, 9], &TAG), Some(&[9u8][..]));
    assert_eq!(strip_discriminator(&[1, 2, 3, 4, 5, 6, 7, 8], &TAG), Some(&[][..]));
    assert_eq!(strip_discriminator(&[1, 2, 3, 4, 5, 6, 7, 9, 9], &TAG), None);
}

#[test]
fn a_malformed_line_spoils_the_log() {
    let result = result_with(vec![
        event_line(&TAG, &[1]),
        "Program data: not base64!".to_string(),
        event_line(&TAG, &[2]),
        "Program data: ====".to_string(),
    ]);
    assert!(matches!(parse_events(&result, &TAG), Err(EventError::Base64Error(_))));
    assert!(matches!(parse_event(&result, &TAG), Err(EventError::Base64Error(_))));
    assert!(!has_event(&result, &TAG));
    let inner = base64::engine::general_purpose::STANDARD.decode("not base64!").unwrap_err();
    match parse_events(&result, &TAG) {
        Err(e) => assert_eq!(e.to_string(), format!("Base64 decode error: {}", inner)),
        Ok(_) => panic!("the log has a malformed line"),
    }
    let logs = result.log_dump();
    assert_eq!(
        said(check_event_emitted(&result, &TAG, "Transfer")),
        format!(
            "Failed to parse events of type 'Transfer': Base64 decode error: {}\nLogs:\n{}",
            inner, logs
        )
    );
    assert_eq!(
        said(check_event_count(&result, &TAG, "Transfer", 2)),
        format!(
            "Failed to parse events of type 'Transfer': Base64 decode error: {}\nLogs:\n{}",
            inner, logs
        )
    );
}

#[test]
fn missing_events_are_reported_with_the_logs() {
    let result = result_with(vec!["Program log: quiet".to_string(), event_line(&TAG, &[1])]);
    assert_eq!(
        said(check_event_emitted(&result, &OTHER, "Swap")),
        format!(
            "Expected at least one event of type 'Swap' to be emitted, but none were found.\nLogs:\n{}",
            result.log_dump()
        )
    );
    assert_eq!(
        said(check_event_count(&result, &TAG, "Transfer", 2)),
        format!(
            "Expected 2 events of type 'Transfer', but found 1.\nLogs:\n{}",
            result.log_dump()
        )
    );
    let empty = result_with(vec![]);
    assert!(!has_event(&empty, &TAG));
    assert_eq!(parse_events(&empty, &TAG).unwrap(), Vec::<Vec<u8>>::new());
}

#[test]
fn a_blob_is_read_on_its_own() {
    let mut bytes = TAG.to_vec();
    bytes.extend_from_slice(&[42, 0, 0, 0, 0, 0, 0, 0]);
    let text = base64::engine::general_purpose::STANDARD.encode(&bytes);
    assert_eq!(parse_event_data(&text, &TAG).unwrap(), vec![42, 0, 0, 0, 0, 0, 0, 0]);
    assert!(matches!(parse_event_data(&text, &OTHER), Err(EventError::InvalidFormat)));
    let short = base64::engine::general_purpose::STANDARD.encode([1u8, 2, 3]);
    assert!(matches!(parse_event_data(&short, &TAG), Err(EventError::InvalidFormat)));
    assert!(matches!(parse_event_data("", &TAG), Err(EventError::InvalidFormat)));
    assert!(matches!(parse_event_data("@@@", &TAG), Err(EventError::Base64Error(_))));
    assert!(matches!(parse_event_data("AQID", &TAG), Err(EventError::InvalidFormat)));
    assert!(matches!(parse_event_data("AQI", &TAG), Err(EventError::Base64Error(_))));
}

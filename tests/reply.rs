use bulb_toggle::reply::{read_reply, reading_of, ExchangeError};

#[test]
fn reply_reports_on() {
    assert_eq!(read_reply(br#"{"result":{"state":true}}"#), Ok(true));
}

#[test]
fn reply_reports_off() {
    assert_eq!(read_reply(br#"{"result":{"state":false}}"#), Ok(false));
}

#[test]
fn reply_with_other_fields_reports_state() {
    let reply = br#"{"method":"getPilot","env":"pro","result":{"mac":"a8bb50","rssi":-60,"state":true,"dimming":80}}"#;
    assert_eq!(read_reply(reply), Ok(true));
}

#[test]
fn reply_without_state_is_missing_state() {
    assert_eq!(read_reply(br#"{"result":{}}"#), Err(ExchangeError::MissingState));
    assert_eq!(read_reply(br#"{}"#), Err(ExchangeError::MissingState));
}

#[test]
fn reply_with_non_boolean_state_is_missing_state() {
    assert_eq!(read_reply(br#"{"result":{"state":"on"}}"#), Err(ExchangeError::MissingState));
    assert_eq!(read_reply(br#"{"result":{"state":1}}"#), Err(ExchangeError::MissingState));
    assert_eq!(read_reply(br#"{"result":[true]}"#), Err(ExchangeError::MissingState));
    assert_eq!(read_reply(b"true"), Err(ExchangeError::MissingState));
}

#[test]
fn truncated_reply_is_malformed() {
    assert_eq!(read_reply(br#"{"result":{"sta"#), Err(ExchangeError::Malformed));
}

#[test]
fn empty_or_garbage_reply_is_malformed() {
    assert_eq!(read_reply(b""), Err(ExchangeError::Malformed));
    assert_eq!(read_reply(b"\xff\xfe\x00"), Err(ExchangeError::Malformed));
    assert_eq!(read_reply(br#"{"result":{"state":true}} x"#), Err(ExchangeError::Malformed));
}

#[test]
fn reading_of_each_decoding() {
    assert_eq!(reading_of(None), Err(ExchangeError::Malformed));
    assert_eq!(reading_of(Some(None)), Err(ExchangeError::MissingState));
    assert_eq!(reading_of(Some(Some(true))), Ok(true));
    assert_eq!(reading_of(Some(Some(false))), Ok(false));
}

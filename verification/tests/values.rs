use truelayer_payments::flow::{
    AdditionalInput, AdditionalInputDisplayText, AdditionalInputFormat,
};
use truelayer_payments::payment::Token;
use truelayer_payments::string_map::StringMap;
use truelayer_payments::submission::SubmitFormActionRequest;
use truelayer_payments::time::Timestamp;
use truelayer_payments::wire::{DecodeError, Value, Wire};

fn s(text: &str) -> String {
    text.to_string()
}

fn input(id: &str, mandatory: bool) -> AdditionalInput {
    AdditionalInput::Text {
        id: s(id),
        mandatory,
        display_text: AdditionalInputDisplayText { key: s(id), default: s(id) },
        description: None,
        format: AdditionalInputFormat::Any,
        sensitive: false,
        min_length: 0,
        max_length: 10,
        regexes: vec![],
    }
}

#[test]
fn a_timestamp_is_the_instant_that_its_text_stands_for() {
    let t = Timestamp::parse("2022-01-01T00:00:00Z").unwrap();
    assert_eq!(t.seconds(), 1_640_995_200);
    assert_eq!(t.nanos(), 0);
    assert_eq!(t.as_str(), "2022-01-01T00:00:00Z");
    let epoch = Timestamp::parse("1970-01-01T00:00:00Z").unwrap();
    assert_eq!(epoch.seconds(), 0);
    let fraction = Timestamp::parse("2015-05-15T00:00:00.250Z").unwrap();
    assert_eq!(fraction.seconds(), 1_431_648_000);
    assert_eq!(fraction.nanos(), 250_000_000);
    let before = Timestamp::parse("1969-12-31T23:59:59Z").unwrap();
    assert_eq!(before.seconds(), -1);
}

#[test]
fn a_reading_makes_the_timestamp() {
    let t = Timestamp::from_reading(s("1970-01-01T00:00:00Z"), Some((0, 0))).unwrap();
    assert_eq!(t.seconds(), 0);
    assert_eq!(t.nanos(), 0);
    assert_eq!(t.as_str(), "1970-01-01T00:00:00Z");
    assert_eq!(Some(t), Timestamp::parse("1970-01-01T00:00:00Z"));
    assert!(Timestamp::from_reading(s("nothing"), None).is_none());
}

#[test]
fn an_offset_is_brought_to_utc() {
    let local = Timestamp::parse("2022-01-01T01:00:00+01:00").unwrap();
    let utc = Timestamp::parse("2022-01-01T00:00:00Z").unwrap();
    assert_eq!(local.seconds(), 1_640_995_200);
    assert_eq!(local, utc);
    assert_eq!(local.as_str(), "2022-01-01T01:00:00+01:00");
    let later = Timestamp::parse("2022-01-01T00:00:01Z").unwrap();
    assert_ne!(utc, later);
}

#[test]
fn what_is_no_date_and_time_is_not_read() {
    assert!(Timestamp::parse("").is_none());
    assert!(Timestamp::parse("yesterday").is_none());
    assert!(Timestamp::parse("2022-13-01T00:00:00Z").is_none());
    assert!(Timestamp::parse("2022-01-01").is_none());
    assert_eq!(Timestamp::decode(&Value::Text(s("2022-01-01"))), Err(DecodeError::InvalidTimestamp));
    assert_eq!(Timestamp::decode(&Value::Integer(1_640_995_200)), Err(DecodeError::ExpectedText));
}

#[test]
fn a_timestamp_is_encoded_as_it_was_written() {
    let t = Timestamp::parse("2022-01-01T01:00:00+01:00").unwrap();
    assert_eq!(t.encode(), Value::Text(s("2022-01-01T01:00:00+01:00")));
    let back = Timestamp::decode(&t.encode()).unwrap();
    assert_eq!(back.as_str(), t.as_str());
    assert_eq!(back.seconds(), t.seconds());
    assert_eq!(back.nanos(), t.nanos());
    assert_eq!(t.clone().as_str(), t.as_str());
}

#[test]
fn a_map_keeps_its_keys_apart_and_in_order() {
    let mut map = StringMap::new();
    assert_eq!(map.len(), 0);
    assert_eq!(map.get("a"), None);
    assert_eq!(map.insert(s("b"), s("1")), None);
    assert_eq!(map.insert(s("a"), s("2")), None);
    assert_eq!(map.insert(s("c"), s("3")), None);
    assert_eq!(map.len(), 3);
    assert_eq!(map.insert(s("b"), s("4")), Some(s("1")));
    assert_eq!(map.len(), 3);
    assert_eq!(map.get("b"), Some(&s("4")));
    assert_eq!(map.get("a"), Some(&s("2")));
    assert_eq!(map.get("c"), Some(&s("3")));
    assert_eq!(map.get("d"), None);
    assert_eq!(map.entries(), &vec![(s("b"), s("4")), (s("a"), s("2")), (s("c"), s("3"))]);
    assert_eq!(map.clone(), map);
}

#[test]
fn a_map_is_made_of_entries_with_distinct_keys_only() {
    let distinct = vec![(s("a"), s("1")), (s("b"), s("1"))];
    let map = StringMap::from_entries(distinct.clone()).unwrap();
    assert_eq!(map.entries(), &distinct);
    assert!(StringMap::from_entries(vec![(s("a"), s("1")), (s("b"), s("2")), (s("a"), s("3"))]).is_none());
    assert!(StringMap::from_entries(vec![]).is_some());
}

#[test]
fn a_map_is_an_object_of_texts() {
    let mut map = StringMap::new();
    map.insert(s("order"), s("42"));
    map.insert(s("channel"), s("web"));
    let encoded = Value::Object(vec![
        (s("order"), Value::Text(s("42"))),
        (s("channel"), Value::Text(s("web"))),
    ]);
    assert_eq!(map.encode(), encoded);
    assert_eq!(StringMap::decode(&encoded), Ok(map));
    let number = Value::Object(vec![(s("order"), Value::Integer(42))]);
    assert_eq!(StringMap::decode(&number), Err(DecodeError::ExpectedText));
    let twice = Value::Object(vec![
        (s("order"), Value::Text(s("42"))),
        (s("order"), Value::Text(s("43"))),
    ]);
    assert_eq!(StringMap::decode(&twice), Err(DecodeError::DuplicateKey));
    let first_fault = Value::Object(vec![
        (s("a"), Value::Text(s("1"))),
        (s("a"), Value::Text(s("2"))),
        (s("b"), Value::Null),
    ]);
    assert_eq!(StringMap::decode(&first_fault), Err(DecodeError::DuplicateKey));
    assert_eq!(StringMap::decode(&Value::Array(vec![])), Err(DecodeError::ExpectedObject));
}

#[test]
fn a_form_is_complete_when_every_mandatory_input_is_answered() {
    let form = vec![input("name", true), input("nickname", false), input("pin", true)];
    let mut answers = StringMap::new();
    let request = SubmitFormActionRequest { inputs: answers.clone() };
    assert_eq!(request.first_unanswered(&form), Some(0));
    answers.insert(s("name"), s("A"));
    let request = SubmitFormActionRequest { inputs: answers.clone() };
    assert_eq!(request.first_unanswered(&form), Some(2));
    answers.insert(s("pin"), s("1234"));
    let request = SubmitFormActionRequest { inputs: answers.clone() };
    assert_eq!(request.first_unanswered(&form), None);
    assert_eq!(request.first_unanswered(&vec![]), None);
    assert_eq!(form[0].id(), "name");
    assert!(form[0].is_mandatory());
    assert!(!form[1].is_mandatory());
}

#[test]
fn a_token_gives_its_secret_only_when_asked() {
    let token = Token::new(s("SECRET-REDACTED"));
    assert_eq!(token.expose_secret(), "SECRET-REDACTED");
    assert_eq!(token.encode(), Value::Text(s("SECRET-REDACTED")));
    assert_eq!(Token::decode(&Value::Text(s("SECRET-REDACTED"))), Ok(token));
    assert_eq!(Token::decode(&Value::Null), Err(DecodeError::ExpectedText));
}

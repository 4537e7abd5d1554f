use chrono::{DateTime, FixedOffset, SecondsFormat};
use graphql_scalar::bindings::generic_with_all_resolvers::{CustomDateTime, QueryRoot};
use graphql_scalar::datetime::{is_valid_instant, TimeZone, Utc, MAX_SECONDS, MIN_SECONDS};
use graphql_scalar::error::ConversionError;
use graphql_scalar::scalar::GraphQLScalar;
use graphql_scalar::scalar_value::DefaultScalarValue;
use graphql_scalar::token::{ParseError, ScalarToken};
use graphql_scalar::value::{InputValue, Value};

type S = DefaultScalarValue;

struct Paris;

impl TimeZone for Paris {
    fn offset() -> i32 {
        3600
    }

    fn offset_seconds() -> i32 {
        3600
    }
}

struct Newfoundland;

impl TimeZone for Newfoundland {
    fn offset() -> i32 {
        -12600
    }

    fn offset_seconds() -> i32 {
        -12600
    }
}

fn input_string(v: &str) -> InputValue<S> {
    InputValue::Scalar(S::String(v.to_string()))
}

fn output_string(v: &str) -> Value<S> {
    Value::Scalar(S::String(v.to_string()))
}

fn decode(text: &str) -> Result<CustomDateTime<Utc>, ConversionError> {
    <CustomDateTime<Utc> as GraphQLScalar<S>>::from_input(&input_string(text))
}

fn rejected(message: &str) -> ConversionError {
    ConversionError::Rejected { message: message.to_string() }
}

#[test]
fn a_date_time_is_read_to_its_instant() {
    let dt = decode("1996-12-19T16:39:57-08:00").unwrap();
    assert_eq!(dt.timestamp(), 851042397);
    assert_eq!(dt.timestamp_subsec_nanos(), 0);
    let dt = decode("1970-01-01T00:00:00.000000001Z").unwrap();
    assert_eq!(dt.timestamp(), 0);
    assert_eq!(dt.timestamp_subsec_nanos(), 1);
    let dt = decode("1969-12-31T23:59:59.5+00:00").unwrap();
    assert_eq!(dt.timestamp(), -1);
    assert_eq!(dt.timestamp_subsec_nanos(), 500_000_000);
}

#[test]
fn a_date_time_is_written_in_its_zone() {
    let utc = CustomDateTime::<Utc>::from_timestamp(851042397, 0).unwrap();
    assert_eq!(GraphQLScalar::<S>::to_output(&utc), output_string("1996-12-20T00:39:57+00:00"));
    let paris = CustomDateTime::<Paris>::from_timestamp(851042397, 0).unwrap();
    assert_eq!(GraphQLScalar::<S>::to_output(&paris), output_string("1996-12-20T01:39:57+01:00"));
    let newfoundland = CustomDateTime::<Newfoundland>::from_timestamp(851042397, 250_000_000).unwrap();
    assert_eq!(
        GraphQLScalar::<S>::to_output(&newfoundland),
        output_string("1996-12-19T21:09:57.250-03:30"),
    );
    assert_eq!(Utc::offset_seconds(), 0);
}

#[test]
fn a_date_time_is_read_in_any_zone() {
    let paris = <CustomDateTime<Paris> as GraphQLScalar<S>>::from_input(&input_string("1996-12-19T16:39:57-08:00")).unwrap();
    assert_eq!(paris.timestamp(), 851042397);
    assert_eq!(GraphQLScalar::<S>::to_output(&paris), output_string("1996-12-20T01:39:57+01:00"));
}

#[test]
fn writing_agrees_with_chrono() {
    for (secs, nanos) in [(0i64, 0u32), (851042397, 0), (-1, 999_999_999), (1_700_000_000, 120_000_000), (1483228799, 1_500_000_000)] {
        let ours = CustomDateTime::<Utc>::from_timestamp(secs, nanos).unwrap();
        let theirs = DateTime::from_timestamp(secs, nanos).unwrap();
        assert_eq!(GraphQLScalar::<S>::to_output(&ours), output_string(&theirs.to_rfc3339()));
        let east = theirs.with_timezone(&FixedOffset::east_opt(3600).unwrap());
        let ours = CustomDateTime::<Paris>::from_timestamp(secs, nanos).unwrap();
        assert_eq!(
            GraphQLScalar::<S>::to_output(&ours),
            output_string(&east.to_rfc3339_opts(SecondsFormat::AutoSi, false)),
        );
    }
}

#[test]
fn a_text_that_is_no_date_time_is_rejected_with_the_reason() {
    for text in ["", "invalid", "1996-12-19", "1996-12-19T16:39:57", "1996-13-19T16:39:57Z", "1996-12-19T16:39:57-08:00 "] {
        let reason = DateTime::parse_from_rfc3339(text).unwrap_err().to_string();
        let expected = format!("Failed to parse CustomDateTime: {}", reason);
        assert_eq!(decode(text).err(), Some(rejected(&expected)), "{}", text);
    }
    assert_eq!(
        decode("").err().unwrap().message(),
        "Failed to parse CustomDateTime: premature end of input",
    );
    assert_eq!(
        decode("1996-12-19T16:39:57-08:00 ").err().unwrap().message(),
        "Failed to parse CustomDateTime: trailing input",
    );
    assert_eq!(
        decode("1996-13-19T16:39:57Z").err().unwrap().message(),
        "Failed to parse CustomDateTime: input is out of range",
    );
}

#[test]
fn a_value_that_is_no_string_is_a_mismatch() {
    let found = <CustomDateTime<Utc> as GraphQLScalar<S>>::from_input(&InputValue::Scalar(S::Int(5)));
    assert_eq!(found.err().unwrap().message(), "Expected `String`, found: 5");
    let found = <CustomDateTime<Utc> as GraphQLScalar<S>>::from_input(&InputValue::Null);
    assert_eq!(
        found.err(),
        Some(ConversionError::TypeMismatch { expected: "String".to_string(), found: "null".to_string() }),
    );
}

#[test]
fn a_date_time_accepts_string_tokens_only() {
    assert_eq!(
        <CustomDateTime<Utc> as GraphQLScalar<S>>::parse_token(ScalarToken::String("1996-12-19T16:39:57-08:00")),
        Ok(S::String("1996-12-19T16:39:57-08:00".to_string())),
    );
    assert_eq!(
        <CustomDateTime<Utc> as GraphQLScalar<S>>::parse_token(ScalarToken::String("not a date")),
        Ok(S::String("not a date".to_string())),
    );
    assert_eq!(
        <CustomDateTime<Utc> as GraphQLScalar<S>>::parse_token(ScalarToken::Int("851042397")),
        Err(ParseError::UnexpectedToken(ScalarToken::Int("851042397"))),
    );
}

#[test]
fn the_result_of_reading_becomes_a_value_or_a_message() {
    let dt = CustomDateTime::<Utc>::from_parsed(Ok((851042397, 5))).unwrap();
    assert_eq!((dt.timestamp(), dt.timestamp_subsec_nanos()), (851042397, 5));
    assert_eq!(
        CustomDateTime::<Utc>::from_parsed(Err("trailing input".to_string())).err(),
        Some(rejected("Failed to parse CustomDateTime: trailing input")),
    );
    assert_eq!(
        CustomDateTime::<Utc>::from_parsed(Err(String::new())).err(),
        Some(rejected("Failed to parse CustomDateTime: ")),
    );
}

#[test]
fn instants_are_valid_within_the_limits() {
    assert_eq!(MIN_SECONDS, DateTime::<chrono::Utc>::MIN_UTC.timestamp());
    assert_eq!(MAX_SECONDS, DateTime::<chrono::Utc>::MAX_UTC.timestamp());
    let cases = [
        (0i64, 0u32),
        (0, 999_999_999),
        (0, 1_000_000_000),
        (59, 1_000_000_000),
        (59, 1_999_999_999),
        (59, 2_000_000_000),
        (60, 1_000_000_000),
        (119, 1_000_000_000),
        (-1, 1_000_000_000),
        (-2, 1_000_000_000),
        (-61, 1_500_000_000),
        (-60, 1_500_000_000),
        (MIN_SECONDS, 0),
        (MIN_SECONDS - 1, 0),
        (MAX_SECONDS, 999_999_999),
        (MAX_SECONDS, 1_999_999_999),
        (MAX_SECONDS + 1, 0),
        (i64::MIN, 0),
        (i64::MAX, 0),
        (0, u32::MAX),
    ];
    for (secs, nanos) in cases {
        let theirs = DateTime::from_timestamp(secs, nanos).is_some();
        assert_eq!(is_valid_instant(secs, nanos), theirs, "{} {}", secs, nanos);
        assert_eq!(CustomDateTime::<Utc>::from_timestamp(secs, nanos).is_some(), theirs);
    }
}

#[test]
fn the_first_and_the_last_instant_are_written() {
    let first = CustomDateTime::<Paris>::from_timestamp(MIN_SECONDS, 0).unwrap();
    let last = CustomDateTime::<Newfoundland>::from_timestamp(MAX_SECONDS, 1_999_999_999).unwrap();
    for text in [GraphQLScalar::<S>::to_output(&first), GraphQLScalar::<S>::to_output(&last)] {
        assert!(matches!(text, Value::Scalar(S::String(t)) if !t.is_empty()));
    }
}

#[test]
fn what_is_written_is_read_back() {
    for (secs, nanos) in [(0i64, 0u32), (851042397, 0), (-1, 999_999_999), (1_700_000_000, 120_000_000), (1483228799, 1_500_000_000), (253402300799 - 86400, 0), (-62135596800 + 86400, 1)] {
        let dt = CustomDateTime::<Utc>::from_timestamp(secs, nanos).unwrap();
        let encoded: Value<S> = dt.to_output();
        let back = <CustomDateTime<Utc> as GraphQLScalar<S>>::from_input(&encoded.to_input_value()).unwrap();
        assert_eq!((back.timestamp(), back.timestamp_subsec_nanos()), (secs, nanos));
        let dt = CustomDateTime::<Newfoundland>::from_timestamp(secs, nanos).unwrap();
        let encoded: Value<S> = dt.to_output();
        let back = <CustomDateTime<Newfoundland> as GraphQLScalar<S>>::from_input(&encoded.to_input_value()).unwrap();
        assert_eq!((back.timestamp(), back.timestamp_subsec_nanos()), (secs, nanos));
    }
}

#[test]
fn a_year_of_more_or_less_than_four_digits_is_written_and_not_read_back() {
    for secs in [-62198755200i64, 253402300800] {
        let dt = CustomDateTime::<Utc>::from_timestamp(secs, 0).unwrap();
        let encoded: Value<S> = dt.to_output();
        let back = <CustomDateTime<Utc> as GraphQLScalar<S>>::from_input(&encoded.to_input_value());
        assert!(matches!(back, Err(ConversionError::Rejected { .. })));
    }
}

#[test]
fn the_field_hands_its_argument_back() {
    let dt = CustomDateTime::<Utc>::from_timestamp(12, 34).unwrap();
    let back = QueryRoot::date_time(dt);
    assert_eq!((back.timestamp(), back.timestamp_subsec_nanos()), (12, 34));
}

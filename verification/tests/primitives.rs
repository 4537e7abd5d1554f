use graphql_scalar::bindings::custom_to_output::{to_output, Increment};
use graphql_scalar::bindings::trivial_unnamed::Counter;
use graphql_scalar::error::ConversionError;
use graphql_scalar::execute::{coerce_literal, coerce_value, FieldError};
use graphql_scalar::scalar::GraphQLScalar;
use graphql_scalar::scalar_value::{DefaultScalarValue, FloatValue};
use graphql_scalar::token::{ParseError, ScalarToken};
use graphql_scalar::value::{InputValue, Value};

type S = DefaultScalarValue;

fn input_int(v: i32) -> InputValue<S> {
    InputValue::Scalar(S::Int(v))
}

fn input_string(v: &str) -> InputValue<S> {
    InputValue::Scalar(S::String(v.to_string()))
}

fn mismatch(expected: &str, found: &str) -> ConversionError {
    ConversionError::TypeMismatch { expected: expected.to_string(), found: found.to_string() }
}

#[test]
fn primitives_are_encoded_as_their_scalar() {
    assert_eq!(GraphQLScalar::<S>::to_output(&5i32), Value::Scalar(S::Int(5)));
    assert_eq!(GraphQLScalar::<S>::to_output(&true), Value::Scalar(S::Boolean(true)));
    assert_eq!(GraphQLScalar::<S>::to_output(&"a".to_string()), Value::Scalar(S::String("a".to_string())));
    assert_eq!(
        GraphQLScalar::<S>::to_output(&FloatValue::new("0.5".to_string())),
        Value::Scalar(S::Float(FloatValue::new("0.5".to_string()))),
    );
}

#[test]
fn primitives_are_decoded_from_their_scalar() {
    assert_eq!(<i32 as GraphQLScalar<S>>::from_input(&input_int(-3)), Ok(-3));
    assert_eq!(<String as GraphQLScalar<S>>::from_input(&input_string("x")), Ok("x".to_string()));
    assert_eq!(<bool as GraphQLScalar<S>>::from_input(&InputValue::Scalar(S::Boolean(false))), Ok(false));
    assert_eq!(
        <FloatValue as GraphQLScalar<S>>::from_input(&InputValue::Scalar(S::Float(FloatValue::new("2.5".to_string())))),
        Ok(FloatValue::new("2.5".to_string())),
    );
}

#[test]
fn a_scalar_of_another_kind_is_a_mismatch() {
    assert_eq!(<i32 as GraphQLScalar<S>>::from_input(&input_string("x")), Err(mismatch("Int", "\"x\"")));
    assert_eq!(<String as GraphQLScalar<S>>::from_input(&input_int(1)), Err(mismatch("String", "1")));
    assert_eq!(<bool as GraphQLScalar<S>>::from_input(&input_int(1)), Err(mismatch("Boolean", "1")));
    assert_eq!(<FloatValue as GraphQLScalar<S>>::from_input(&input_string("1.5")), Err(mismatch("Float", "\"1.5\"")));
    assert_eq!(<FloatValue as GraphQLScalar<S>>::from_input(&input_int(1)), Err(mismatch("Float", "1")));
}

#[test]
fn a_value_that_is_no_scalar_is_a_mismatch() {
    assert_eq!(<i32 as GraphQLScalar<S>>::from_input(&InputValue::Null), Err(mismatch("Int", "null")));
    assert_eq!(
        <i32 as GraphQLScalar<S>>::from_input(&InputValue::List(vec![input_int(1), input_int(2)])),
        Err(mismatch("Int", "[1, 2]")),
    );
    assert_eq!(
        <String as GraphQLScalar<S>>::from_input(&InputValue::Object(vec![("a".to_string(), input_int(1))])),
        Err(mismatch("String", "{a: 1}")),
    );
    assert_eq!(
        <bool as GraphQLScalar<S>>::from_input(&InputValue::Enum("TRUE".to_string())),
        Err(mismatch("Boolean", "TRUE")),
    );
    assert_eq!(
        <i32 as GraphQLScalar<S>>::from_input(&InputValue::Variable("n".to_string())),
        Err(mismatch("Int", "$n")),
    );
}

#[test]
fn a_mismatch_has_a_message() {
    assert_eq!(mismatch("Int", "\"x\"").message(), "Expected `Int`, found: \"x\"");
    assert_eq!(mismatch("String", "[1, 2]").message(), "Expected `String`, found: [1, 2]");
    assert_eq!(ConversionError::rejected("no".to_string()).message(), "no");
    assert_eq!(
        ConversionError::type_mismatch("Int", &input_string("x")),
        mismatch("Int", "\"x\""),
    );
}

#[test]
fn a_wrapper_hands_on_the_error_of_its_field() {
    assert_eq!(
        <Counter as GraphQLScalar<S>>::from_input(&input_string("x")),
        <i32 as GraphQLScalar<S>>::from_input(&input_string("x")).map(Counter),
    );
    assert_eq!(<Counter as GraphQLScalar<S>>::from_input(&InputValue::Null), Err(mismatch("Int", "null")));
    assert_eq!(<Counter as GraphQLScalar<S>>::from_input(&input_int(9)), Ok(Counter(9)));
}

#[test]
fn an_integer_accepts_integer_tokens_only() {
    assert_eq!(<i32 as GraphQLScalar<S>>::parse_token(ScalarToken::Int("12")), Ok(S::Int(12)));
    assert_eq!(<i32 as GraphQLScalar<S>>::parse_token(ScalarToken::Int("-12")), Ok(S::Int(-12)));
    assert_eq!(
        <i32 as GraphQLScalar<S>>::parse_token(ScalarToken::Float("1.5")),
        Err(ParseError::UnexpectedToken(ScalarToken::Float("1.5"))),
    );
    assert_eq!(
        <i32 as GraphQLScalar<S>>::parse_token(ScalarToken::String("12")),
        Err(ParseError::UnexpectedToken(ScalarToken::String("12"))),
    );
    assert_eq!(
        <i32 as GraphQLScalar<S>>::parse_token(ScalarToken::Int("2147483648")),
        Err(ParseError::UnexpectedToken(ScalarToken::Int("2147483648"))),
    );
    assert_eq!(
        <Counter as GraphQLScalar<S>>::parse_token(ScalarToken::String("0")),
        Err(ParseError::UnexpectedToken(ScalarToken::String("0"))),
    );
}

#[test]
fn a_float_accepts_float_and_integer_tokens() {
    assert_eq!(
        <FloatValue as GraphQLScalar<S>>::parse_token(ScalarToken::Float("1.5")),
        Ok(S::Float(FloatValue::new("1.5".to_string()))),
    );
    assert_eq!(
        <FloatValue as GraphQLScalar<S>>::parse_token(ScalarToken::Int("+3")),
        Ok(S::Float(FloatValue::new("3".to_string()))),
    );
    assert_eq!(
        <FloatValue as GraphQLScalar<S>>::parse_token(ScalarToken::Int("99999999999")),
        Err(ParseError::UnexpectedToken(ScalarToken::Int("99999999999"))),
    );
    assert_eq!(
        <FloatValue as GraphQLScalar<S>>::parse_token(ScalarToken::String("1.5")),
        Err(ParseError::UnexpectedToken(ScalarToken::String("1.5"))),
    );
}

#[test]
fn a_string_accepts_string_tokens_only() {
    assert_eq!(
        <String as GraphQLScalar<S>>::parse_token(ScalarToken::String("a b")),
        Ok(S::String("a b".to_string())),
    );
    assert_eq!(
        <String as GraphQLScalar<S>>::parse_token(ScalarToken::Int("1")),
        Err(ParseError::UnexpectedToken(ScalarToken::Int("1"))),
    );
    assert_eq!(ScalarToken::String("a b").text(), "a b");
    assert_eq!(ScalarToken::Int("1").text(), "1");
    assert_eq!(ScalarToken::Float("1.0").text(), "1.0");
}

#[test]
fn a_boolean_accepts_no_token() {
    for token in [ScalarToken::Int("1"), ScalarToken::Float("1.0"), ScalarToken::String("true")] {
        assert_eq!(<bool as GraphQLScalar<S>>::parse_token(token), Err(ParseError::UnexpectedToken(token)));
    }
}

#[test]
fn a_literal_is_validated_and_then_decoded() {
    assert_eq!(coerce_literal::<S, Counter>(ScalarToken::Int("41")), Ok(Counter(41)));
    assert_eq!(
        coerce_literal::<S, Counter>(ScalarToken::Float("4.1")),
        Err(FieldError::Validation(ParseError::UnexpectedToken(ScalarToken::Float("4.1")))),
    );
    assert_eq!(coerce_value::<S, Counter>(&input_int(41)), Ok(Counter(41)));
    assert_eq!(
        coerce_value::<S, Counter>(&input_string("41")),
        Err(FieldError::Conversion(mismatch("Int", "\"41\""))),
    );
}

#[test]
fn what_is_encoded_is_decoded_to_the_same_value() {
    for v in [i32::MIN, -1, 0, 1, 1996, i32::MAX] {
        let encoded: Value<S> = Counter(v).to_output();
        assert_eq!(<Counter as GraphQLScalar<S>>::from_input(&encoded.to_input_value()), Ok(Counter(v)));
        let plain: Value<S> = v.to_output();
        assert_eq!(<i32 as GraphQLScalar<S>>::from_input(&plain.to_input_value()), Ok(v));
    }
    for v in [true, false] {
        let encoded: Value<S> = v.to_output();
        assert_eq!(<bool as GraphQLScalar<S>>::from_input(&encoded.to_input_value()), Ok(v));
    }
    for v in ["", "a", "1996-12-19", "\"quoted\""] {
        let encoded: Value<S> = v.to_string().to_output();
        assert_eq!(<String as GraphQLScalar<S>>::from_input(&encoded.to_input_value()), Ok(v.to_string()));
    }
    let f = FloatValue::new("-0.25".to_string());
    let encoded: Value<S> = f.to_output();
    assert_eq!(<FloatValue as GraphQLScalar<S>>::from_input(&encoded.to_input_value()), Ok(f));
}

#[test]
fn an_encoder_of_its_own_reports_the_successor() {
    assert_eq!(to_output::<S>(&Increment(0)), Value::Scalar(S::Int(1)));
    assert_eq!(to_output::<S>(&Increment(-1)), Value::Scalar(S::Int(0)));
    assert_eq!(to_output::<S>(&Increment(i32::MAX - 1)), Value::Scalar(S::Int(i32::MAX)));
    assert_eq!(GraphQLScalar::<S>::to_output(&Increment(41)), Value::Scalar(S::Int(42)));
    assert_eq!(<Increment as GraphQLScalar<S>>::from_input(&input_int(41)), Ok(Increment(41)));
    assert_eq!(<Increment as GraphQLScalar<S>>::parse_token(ScalarToken::Int("41")), Ok(S::Int(41)));
    assert_eq!(
        <Increment as GraphQLScalar<S>>::from_input(&input_string("41")),
        Err(mismatch("Int", "\"41\"")),
    );
}

#[test]
fn the_largest_integer_has_no_successor_to_report() {
    assert_eq!(Increment(i32::MAX).try_to_output::<S>(), None);
    assert_eq!(Increment(i32::MAX - 1).try_to_output::<S>(), Some(Value::Scalar(S::Int(i32::MAX))));
    assert_eq!(Increment(i32::MIN).try_to_output::<S>(), Some(Value::Scalar(S::Int(i32::MIN + 1))));
}

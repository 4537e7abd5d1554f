use graphql_scalar::bindings::bounded_generic_scalar;
use graphql_scalar::bindings::custom_scalar;
use graphql_scalar::bindings::custom_to_output;
use graphql_scalar::bindings::description_from_attribute;
use graphql_scalar::bindings::description_from_doc_comment;
use graphql_scalar::bindings::explicit_name;
use graphql_scalar::bindings::generic_scalar;
use graphql_scalar::bindings::generic_with_all_resolvers;
use graphql_scalar::bindings::trivial_named;
use graphql_scalar::bindings::trivial_unnamed;
use graphql_scalar::custom_scalar::MyScalarValue;
use graphql_scalar::datetime::Utc;
use graphql_scalar::execute::coerce_literal;
use graphql_scalar::scalar::GraphQLScalar;
use graphql_scalar::scalar_value::DefaultScalarValue;
use graphql_scalar::schema::{schema, schema_with_scalar, TypeKind};
use graphql_scalar::token::ScalarToken;
use graphql_scalar::value::Value;

fn int_value(v: i32) -> Value<DefaultScalarValue> {
    Value::Scalar(DefaultScalarValue::Int(v))
}

fn string_value(v: &str) -> Value<DefaultScalarValue> {
    Value::Scalar(DefaultScalarValue::String(v.to_string()))
}

// A tuple struct of one field, no override.

#[test]
fn derive_scalar_is_graphql_scalar() {
    let schema = schema(trivial_unnamed::QueryRoot).unwrap();
    let found = schema.type_by_name("Counter").unwrap();
    assert_eq!(found.kind, TypeKind::Scalar);
    assert_eq!(found.kind.as_str(), "SCALAR");
}

#[test]
fn derive_scalar_resolves_counter() {
    let argument: trivial_unnamed::Counter =
        coerce_literal::<DefaultScalarValue, _>(ScalarToken::Int("0")).unwrap();
    let answer = trivial_unnamed::QueryRoot::counter(argument);
    assert_eq!(GraphQLScalar::<DefaultScalarValue>::to_output(&answer), int_value(0));
}

#[test]
fn derive_scalar_has_no_description() {
    let schema = schema(trivial_unnamed::QueryRoot).unwrap();
    let found = schema.type_by_name("Counter").unwrap();
    assert_eq!(found.description, None);
}

// A struct of one named field, no override.

#[test]
fn trivial_named_is_graphql_scalar() {
    let schema = schema(trivial_named::QueryRoot).unwrap();
    assert_eq!(schema.type_by_name("Counter").unwrap().kind.as_str(), "SCALAR");
}

#[test]
fn trivial_named_resolves_counter() {
    let argument: trivial_named::Counter =
        coerce_literal::<DefaultScalarValue, _>(ScalarToken::Int("0")).unwrap();
    let answer = trivial_named::QueryRoot::counter(argument);
    assert_eq!(GraphQLScalar::<DefaultScalarValue>::to_output(&answer), int_value(0));
}

#[test]
fn trivial_named_has_no_description() {
    let schema = schema(trivial_named::QueryRoot).unwrap();
    assert_eq!(schema.type_by_name("Counter").unwrap().description, None);
}

// A name override.

#[test]
fn explicit_name_is_graphql_scalar() {
    let schema = schema(explicit_name::QueryRoot).unwrap();
    assert_eq!(schema.type_by_name("Counter").unwrap().kind.as_str(), "SCALAR");
}

#[test]
fn no_custom_counter() {
    let schema = schema(explicit_name::QueryRoot).unwrap();
    assert_eq!(schema.type_by_name("CustomCounter"), None);
}

#[test]
fn explicit_name_resolves_counter() {
    let argument: explicit_name::CustomCounter =
        coerce_literal::<DefaultScalarValue, _>(ScalarToken::Int("0")).unwrap();
    let answer = explicit_name::QueryRoot::counter(argument);
    assert_eq!(GraphQLScalar::<DefaultScalarValue>::to_output(&answer), int_value(0));
}

#[test]
fn explicit_name_has_no_description() {
    let schema = schema(explicit_name::QueryRoot).unwrap();
    assert_eq!(schema.type_by_name("Counter").unwrap().description, None);
}

// An encoder of the type's own.

#[test]
fn custom_to_output_is_graphql_scalar() {
    let schema = schema(custom_to_output::QueryRoot).unwrap();
    assert_eq!(schema.type_by_name("Increment").unwrap().kind.as_str(), "SCALAR");
}

#[test]
fn custom_to_output_resolves_counter() {
    let argument: custom_to_output::Increment =
        coerce_literal::<DefaultScalarValue, _>(ScalarToken::Int("0")).unwrap();
    let answer = custom_to_output::QueryRoot::increment(argument);
    assert_eq!(GraphQLScalar::<DefaultScalarValue>::to_output(&answer), int_value(1));
}

#[test]
fn custom_to_output_has_no_description() {
    let schema = schema(custom_to_output::QueryRoot).unwrap();
    assert_eq!(schema.type_by_name("Increment").unwrap().description, None);
}

// A generic type with all three operations of its own.

#[test]
fn resolves_custom_date_time() {
    let argument: generic_with_all_resolvers::CustomDateTime<Utc> =
        coerce_literal::<DefaultScalarValue, _>(ScalarToken::String("1996-12-19T16:39:57-08:00")).unwrap();
    let answer = generic_with_all_resolvers::QueryRoot::date_time(argument);
    assert_eq!(
        GraphQLScalar::<DefaultScalarValue>::to_output(&answer),
        string_value("1996-12-20T00:39:57+00:00"),
    );
}

#[test]
fn has_specified_by_url() {
    let schema = schema(generic_with_all_resolvers::QueryRoot).unwrap();
    let found = schema.type_by_name("CustomDateTime").unwrap();
    assert_eq!(
        found.specified_by_url,
        Some("https://tools.ietf.org/html/rfc3339".to_string()),
    );
}

// Documentation text as the description.

#[test]
fn description_from_doc_comment_resolves_counter() {
    let argument: description_from_doc_comment::Counter =
        coerce_literal::<DefaultScalarValue, _>(ScalarToken::Int("0")).unwrap();
    let answer = description_from_doc_comment::QueryRoot::counter(argument);
    assert_eq!(GraphQLScalar::<DefaultScalarValue>::to_output(&answer), int_value(0));
}

#[test]
fn has_description() {
    let schema = schema(description_from_doc_comment::QueryRoot).unwrap();
    let found = schema.type_by_name("Counter").unwrap();
    assert_eq!(found.description, Some("Doc comment.".to_string()));
}

// A description override and a URL.

#[test]
fn description_from_attribute_resolves_counter() {
    let argument: description_from_attribute::Counter =
        coerce_literal::<DefaultScalarValue, _>(ScalarToken::Int("0")).unwrap();
    let answer = description_from_attribute::QueryRoot::counter(argument);
    assert_eq!(GraphQLScalar::<DefaultScalarValue>::to_output(&answer), int_value(0));
}

#[test]
fn has_description_and_url() {
    let schema = schema(description_from_attribute::QueryRoot).unwrap();
    let found = schema.type_by_name("Counter").unwrap();
    assert_eq!(found.description, Some("Doc comment from attribute.".to_string()));
    assert_eq!(
        found.specified_by_url,
        Some("https://tools.ietf.org/html/rfc4122".to_string()),
    );
}

// The host's scalar value type.

#[test]
fn custom_scalar_is_graphql_scalar() {
    let schema = schema_with_scalar::<MyScalarValue, _>(custom_scalar::QueryRoot).unwrap();
    assert_eq!(schema.type_by_name("Counter").unwrap().kind.as_str(), "SCALAR");
}

#[test]
fn custom_scalar_resolves_counter() {
    let argument: custom_scalar::Counter =
        coerce_literal::<MyScalarValue, _>(ScalarToken::Int("0")).unwrap();
    let answer = custom_scalar::QueryRoot::counter(argument);
    assert_eq!(answer.to_output(), Value::Scalar(MyScalarValue::Int(0)));
}

#[test]
fn custom_scalar_has_no_description() {
    let schema = schema_with_scalar::<MyScalarValue, _>(custom_scalar::QueryRoot).unwrap();
    assert_eq!(schema.type_by_name("Counter").unwrap().description, None);
}

// Any scalar value type.

#[test]
fn generic_scalar_is_graphql_scalar() {
    let schema = schema(generic_scalar::QueryRoot).unwrap();
    assert_eq!(schema.type_by_name("Counter").unwrap().kind.as_str(), "SCALAR");
}

#[test]
fn generic_scalar_resolves_counter() {
    let argument: generic_scalar::Counter =
        coerce_literal::<DefaultScalarValue, _>(ScalarToken::Int("0")).unwrap();
    let answer = generic_scalar::QueryRoot::counter(argument);
    assert_eq!(GraphQLScalar::<DefaultScalarValue>::to_output(&answer), int_value(0));
    let again: generic_scalar::Counter = coerce_literal::<MyScalarValue, _>(ScalarToken::Int("0")).unwrap();
    assert_eq!(
        GraphQLScalar::<MyScalarValue>::to_output(&again),
        Value::Scalar(MyScalarValue::Int(0)),
    );
}

// Any scalar value type that can be cloned.

#[test]
fn bounded_generic_scalar_is_graphql_scalar() {
    let schema = schema(bounded_generic_scalar::QueryRoot).unwrap();
    assert_eq!(schema.type_by_name("Counter").unwrap().kind.as_str(), "SCALAR");
}

#[test]
fn bounded_generic_scalar_resolves_counter() {
    let argument: bounded_generic_scalar::Counter =
        coerce_literal::<DefaultScalarValue, _>(ScalarToken::Int("0")).unwrap();
    let answer = bounded_generic_scalar::QueryRoot::counter(argument);
    assert_eq!(GraphQLScalar::<DefaultScalarValue>::to_output(&answer), int_value(0));
}

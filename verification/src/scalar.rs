//! The contract of a scalar type, and the four primitive scalar types.
//!
//! A native type is a scalar type of the engine when it implements
//! [`GraphQLScalar`]: an encoder to the output value tree, a decoder from the
//! input value tree, a validator of literal tokens, and the binding record
//! that introspection reads. Each operation is pinned to a specification over
//! the models of the values, so the engine knows what every scalar type does
//! without knowing which one it has.

use vstd::prelude::*;
use vstd::string::*;
use crate::binding::{BindingModel, ScalarAttrs, ScalarAttrsModel, ScalarBinding};
use crate::error::{ConversionError, ConversionErrorModel};
use crate::scalar_value::{FloatValue, ScalarModel, ScalarValue};
use crate::text::{decimal_text, i32_literal, i32_to_text, parse_i32};
use crate::token::{ParseError, ParseErrorModel, ScalarToken, TokenModel};
use crate::value::{InputModel, InputValue, Value, ValueModel};

verus! {

/// A native type bound as a scalar type, for scalar values of type `S`.
pub trait GraphQLScalar<S: ScalarValue>: Sized + View {
    /// The values that the encoder is defined on.
    spec fn encodable(v: Self::V) -> bool;

    /// What the encoder makes of a native value.
    spec fn encoded(v: Self::V) -> ValueModel;

    /// What the decoder makes of an input value.
    spec fn decoded(v: InputModel) -> Result<Self::V, ConversionErrorModel>;

    /// What the token validator makes of a literal.
    spec fn validated(t: TokenModel) -> Result<ScalarModel, ParseErrorModel>;

    /// The binding record of the type.
    spec fn binding_spec() -> BindingModel;

    /// Encodes a native value. There is no error path.
    fn to_output(&self) -> (r: Value<S>)
        requires
            Self::encodable(self@),
        ensures
            r@ == Self::encoded(self@),
    ;

    /// Decodes an input value, or says why it is no value of this type.
    fn from_input(v: &InputValue<S>) -> (r: Result<Self, ConversionError>)
        ensures
            match r {
                Ok(x) => Self::decoded(v@) == Ok::<Self::V, ConversionErrorModel>(x@),
                Err(e) => Self::decoded(v@) == Err::<Self::V, ConversionErrorModel>(e@),
            },
    ;

    /// Validates a literal token before any value is coerced: the scalar
    /// that the literal writes, or the token back in an error.
    fn parse_token<'a>(t: ScalarToken<'a>) -> (r: Result<S, ParseError<'a>>)
        ensures
            match r {
                Ok(s) => Self::validated(t@) == Ok::<ScalarModel, ParseErrorModel>(s.model()),
                Err(e) => Self::validated(t@) == Err::<ScalarModel, ParseErrorModel>(e@),
            },
    ;

    /// The binding record of the type.
    fn binding() -> (r: ScalarBinding)
        ensures
            r@ == Self::binding_spec(),
    ;
}

/// The error that refuses a token.
pub open spec fn unexpected(t: TokenModel) -> Result<ScalarModel, ParseErrorModel> {
    Err(ParseErrorModel::UnexpectedToken(t))
}

/// The declaration of a type that names all three operations itself.
pub open spec fn explicit_attrs(ident: Seq<char>) -> ScalarAttrsModel {
    ScalarAttrsModel {
        to_output_with: true,
        from_input_with: true,
        parse_token_with: true,
        ..ScalarAttrsModel::plain(ident)
    }
}

/// The binding that a declaration resolves to, where it resolves to one.
pub open spec fn resolved(attrs: ScalarAttrsModel) -> BindingModel
    recommends
        attrs.resolve() is Ok,
{
    attrs.resolve()->Ok_0
}

/// Resolves a declaration that is known to name every operation it needs.
pub fn resolve_complete(attrs: &ScalarAttrs) -> (r: ScalarBinding)
    requires
        attrs@.missing_operation() is None,
    ensures
        r@ == resolved(attrs@),
{
    match attrs.resolve() {
        Ok(b) => b,
        Err(_) => vstd::pervasive::unreached(),
    }
}

/// The binding of a primitive scalar type.
fn primitive_binding(name: &str) -> (r: ScalarBinding)
    ensures
        r@ == resolved(explicit_attrs(name@)),
{
    let attrs = ScalarAttrs::new(name).to_output_with().from_input_with().parse_token_with();
    resolve_complete(&attrs)
}

/// `Int`: a 32-bit integer.
impl<S: ScalarValue> GraphQLScalar<S> for i32 {
    open spec fn encodable(v: i32) -> bool {
        true
    }

    open spec fn encoded(v: i32) -> ValueModel {
        ValueModel::Scalar(ScalarModel::Int(v))
    }

    open spec fn decoded(v: InputModel) -> Result<i32, ConversionErrorModel> {
        match v.as_int() {
            Some(i) => Ok(i),
            None => Err(ConversionErrorModel::mismatch("Int"@, v)),
        }
    }

    open spec fn validated(t: TokenModel) -> Result<ScalarModel, ParseErrorModel> {
        match t {
            TokenModel::Int(text) => match i32_literal(text) {
                Some(i) => Ok(ScalarModel::Int(i)),
                None => unexpected(t),
            },
            _ => unexpected(t),
        }
    }

    open spec fn binding_spec() -> BindingModel {
        resolved(explicit_attrs("Int"@))
    }

    fn to_output(&self) -> (r: Value<S>) {
        Value::scalar(S::from_int(*self))
    }

    fn from_input(v: &InputValue<S>) -> (r: Result<Self, ConversionError>) {
        match v.as_int_value() {
            Some(i) => Ok(i),
            None => Err(ConversionError::type_mismatch("Int", v)),
        }
    }

    fn parse_token<'a>(t: ScalarToken<'a>) -> (r: Result<S, ParseError<'a>>) {
        match t {
            ScalarToken::Int(text) => match parse_i32(text) {
                Some(i) => Ok(S::from_int(i)),
                None => Err(ParseError::UnexpectedToken(t)),
            },
            _ => Err(ParseError::UnexpectedToken(t)),
        }
    }

    fn binding() -> (r: ScalarBinding) {
        primitive_binding("Int")
    }
}

/// `Float`: a float, carried by its decimal text. An integer literal is a
/// float literal too.
impl<S: ScalarValue> GraphQLScalar<S> for FloatValue {
    open spec fn encodable(v: Seq<char>) -> bool {
        true
    }

    open spec fn encoded(v: Seq<char>) -> ValueModel {
        ValueModel::Scalar(ScalarModel::Float(v))
    }

    open spec fn decoded(v: InputModel) -> Result<Seq<char>, ConversionErrorModel> {
        match v.as_float() {
            Some(f) => Ok(f),
            None => Err(ConversionErrorModel::mismatch("Float"@, v)),
        }
    }

    open spec fn validated(t: TokenModel) -> Result<ScalarModel, ParseErrorModel> {
        match t {
            TokenModel::Float(text) => Ok(ScalarModel::Float(text)),
            TokenModel::Int(text) => match i32_literal(text) {
                Some(i) => Ok(ScalarModel::Float(decimal_text(i as int))),
                None => unexpected(t),
            },
            TokenModel::String(_) => unexpected(t),
        }
    }

    open spec fn binding_spec() -> BindingModel {
        resolved(explicit_attrs("Float"@))
    }

    fn to_output(&self) -> (r: Value<S>) {
        Value::scalar(S::from_float(self.duplicate()))
    }

    fn from_input(v: &InputValue<S>) -> (r: Result<Self, ConversionError>) {
        match v.as_float_value() {
            Some(f) => Ok(f),
            None => Err(ConversionError::type_mismatch("Float", v)),
        }
    }

    fn parse_token<'a>(t: ScalarToken<'a>) -> (r: Result<S, ParseError<'a>>) {
        match t {
            ScalarToken::Float(text) => Ok(S::from_float(FloatValue::new(String::from_str(text)))),
            ScalarToken::Int(text) => match parse_i32(text) {
                Some(i) => Ok(S::from_float(FloatValue::new(i32_to_text(i)))),
                None => Err(ParseError::UnexpectedToken(t)),
            },
            ScalarToken::String(_) => Err(ParseError::UnexpectedToken(t)),
        }
    }

    fn binding() -> (r: ScalarBinding) {
        primitive_binding("Float")
    }
}

/// `String`: text.
impl<S: ScalarValue> GraphQLScalar<S> for String {
    open spec fn encodable(v: Seq<char>) -> bool {
        true
    }

    open spec fn encoded(v: Seq<char>) -> ValueModel {
        ValueModel::Scalar(ScalarModel::String(v))
    }

    open spec fn decoded(v: InputModel) -> Result<Seq<char>, ConversionErrorModel> {
        match v.as_string() {
            Some(s) => Ok(s),
            None => Err(ConversionErrorModel::mismatch("String"@, v)),
        }
    }

    open spec fn validated(t: TokenModel) -> Result<ScalarModel, ParseErrorModel> {
        match t {
            TokenModel::String(text) => Ok(ScalarModel::String(text)),
            _ => unexpected(t),
        }
    }

    open spec fn binding_spec() -> BindingModel {
        resolved(explicit_attrs("String"@))
    }

    fn to_output(&self) -> (r: Value<S>) {
        Value::scalar(S::from_string(self.clone()))
    }

    fn from_input(v: &InputValue<S>) -> (r: Result<Self, ConversionError>) {
        match v.as_string_value() {
            Some(s) => Ok(String::from_str(s)),
            None => Err(ConversionError::type_mismatch("String", v)),
        }
    }

    fn parse_token<'a>(t: ScalarToken<'a>) -> (r: Result<S, ParseError<'a>>) {
        match t {
            ScalarToken::String(text) => Ok(S::from_string(String::from_str(text))),
            _ => Err(ParseError::UnexpectedToken(t)),
        }
    }

    fn binding() -> (r: ScalarBinding) {
        primitive_binding("String")
    }
}

/// `Boolean`: true or false. The lexer reads `true` and `false` as names,
/// so no scalar token writes a boolean.
impl<S: ScalarValue> GraphQLScalar<S> for bool {
    open spec fn encodable(v: bool) -> bool {
        true
    }

    open spec fn encoded(v: bool) -> ValueModel {
        ValueModel::Scalar(ScalarModel::Boolean(v))
    }

    open spec fn decoded(v: InputModel) -> Result<bool, ConversionErrorModel> {
        match v.as_boolean() {
            Some(b) => Ok(b),
            None => Err(ConversionErrorModel::mismatch("Boolean"@, v)),
        }
    }

    open spec fn validated(t: TokenModel) -> Result<ScalarModel, ParseErrorModel> {
        unexpected(t)
    }

    open spec fn binding_spec() -> BindingModel {
        resolved(explicit_attrs("Boolean"@))
    }

    fn to_output(&self) -> (r: Value<S>) {
        Value::scalar(S::from_boolean(*self))
    }

    fn from_input(v: &InputValue<S>) -> (r: Result<Self, ConversionError>) {
        match v.as_boolean_value() {
            Some(b) => Ok(b),
            None => Err(ConversionError::type_mismatch("Boolean", v)),
        }
    }

    fn parse_token<'a>(t: ScalarToken<'a>) -> (r: Result<S, ParseError<'a>>) {
        Err(ParseError::UnexpectedToken(t))
    }

    fn binding() -> (r: ScalarBinding) {
        primitive_binding("Boolean")
    }
}

/// Whether decoding what the encoder made of `v` gives `v` back.
pub open spec fn round_trips<S: ScalarValue, T: GraphQLScalar<S>>(v: T::V) -> bool {
    T::decoded(T::encoded(v).to_input()) == Ok::<T::V, ConversionErrorModel>(v)
}

/// Every integer comes back from its encoding.
pub proof fn lemma_int_round_trips<S: ScalarValue>(v: i32)
    ensures
        round_trips::<S, i32>(v),
{
}

/// Every float comes back from its encoding.
pub proof fn lemma_float_round_trips<S: ScalarValue>(v: Seq<char>)
    ensures
        round_trips::<S, FloatValue>(v),
{
}

/// Every string comes back from its encoding.
pub proof fn lemma_string_round_trips<S: ScalarValue>(v: Seq<char>)
    ensures
        round_trips::<S, String>(v),
{
}

/// Every boolean comes back from its encoding.
pub proof fn lemma_boolean_round_trips<S: ScalarValue>(v: bool)
    ensures
        round_trips::<S, bool>(v),
{
}

} // verus!

//! The path of a scalar argument through a field: the literal is validated
//! as a token, the scalar it writes is decoded into the native value, and
//! what the resolver returns is encoded. A failure on the way in is an error
//! of that one field.

use vstd::prelude::*;
use vstd::string::*;
use crate::error::{ConversionError, ConversionErrorModel};
use crate::scalar::GraphQLScalar;
use crate::scalar_value::{ScalarModel, ScalarValue};
use crate::text::{decimal_text, lemma_decimal_text_is_literal};
use crate::token::{ParseError, ParseErrorModel, ScalarToken, TokenModel};
use crate::value::{InputModel, InputValue, ValueModel};

verus! {

/// Why a field got no argument.
#[derive(Debug, PartialEq, Eq)]
pub enum FieldError<'a> {
    /// The literal is lexically unacceptable for the scalar type: found
    /// before execution, and the query is not executed.
    Validation(ParseError<'a>),
    /// The value could not be decoded: found when the field is resolved,
    /// and the other fields still resolve.
    Conversion(ConversionError),
}

/// What a field error is, over characters.
pub enum FieldErrorModel {
    Validation(ParseErrorModel),
    Conversion(ConversionErrorModel),
}

impl<'a> View for FieldError<'a> {
    type V = FieldErrorModel;

    open spec fn view(&self) -> FieldErrorModel {
        match self {
            FieldError::Validation(e) => FieldErrorModel::Validation(e@),
            FieldError::Conversion(e) => FieldErrorModel::Conversion(e@),
        }
    }
}

/// What becomes of a literal argument of the scalar type `T`: refused as a
/// token, or the scalar it writes decoded.
pub open spec fn coerced<S: ScalarValue, T: GraphQLScalar<S>>(t: TokenModel) -> Result<
    T::V,
    FieldErrorModel,
> {
    match T::validated(t) {
        Err(e) => Err(FieldErrorModel::Validation(e)),
        Ok(s) => match T::decoded(InputModel::Scalar(s)) {
            Ok(x) => Ok(x),
            Err(e) => Err(FieldErrorModel::Conversion(e)),
        },
    }
}

/// What a field that hands its argument back answers to a literal: the
/// argument encoded, where the literal was accepted and the encoder is
/// defined on it.
pub open spec fn echoed<S: ScalarValue, T: GraphQLScalar<S>>(t: TokenModel) -> Result<
    ValueModel,
    FieldErrorModel,
> {
    match coerced::<S, T>(t) {
        Ok(x) => Ok(T::encoded(x)),
        Err(e) => Err(e),
    }
}

/// Coerces a literal argument: validates the token, then decodes the scalar
/// that it writes.
pub fn coerce_literal<'a, S: ScalarValue, T: GraphQLScalar<S>>(token: ScalarToken<'a>) -> (r: Result<
    T,
    FieldError<'a>,
>)
    ensures
        match r {
            Ok(x) => coerced::<S, T>(token@) == Ok::<T::V, FieldErrorModel>(x@),
            Err(e) => coerced::<S, T>(token@) == Err::<T::V, FieldErrorModel>(e@),
        },
{
    match T::parse_token(token) {
        Err(e) => Err(FieldError::Validation(e)),
        Ok(s) => {
            let input = InputValue::scalar(s);
            match T::from_input(&input) {
                Ok(x) => Ok(x),
                Err(e) => Err(FieldError::Conversion(e)),
            }
        },
    }
}

/// Coerces an argument that arrives as a value, as a variable does: there
/// is no token to validate, and the value is decoded as it is.
pub fn coerce_value<S: ScalarValue, T: GraphQLScalar<S>>(value: &InputValue<S>) -> (r: Result<
    T,
    FieldError<'static>,
>)
    ensures
        match r {
            Ok(x) => T::decoded(value@) == Ok::<T::V, ConversionErrorModel>(x@),
            Err(e) => e@ matches FieldErrorModel::Conversion(c) && T::decoded(value@) == Err::<
                T::V,
                ConversionErrorModel,
            >(c),
        },
{
    match T::from_input(value) {
        Ok(x) => Ok(x),
        Err(e) => Err(FieldError::Conversion(e)),
    }
}

/// A field that hands back an integer argument answers the decimal
/// literal of every integer with that integer.
pub proof fn lemma_int_literal_is_echoed<S: ScalarValue>(v: i32)
    ensures
        echoed::<S, i32>(TokenModel::Int(decimal_text(v as int))) == Ok::<ValueModel, FieldErrorModel>(
            ValueModel::Scalar(ScalarModel::Int(v)),
        ),
{
    lemma_decimal_text_is_literal(v as int);
}

} // verus!

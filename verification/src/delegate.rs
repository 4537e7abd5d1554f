//! The default operations of a type with a single field: each one is the
//! field's own, and the value is the field's value.

use vstd::prelude::*;
use crate::binding::{BindingModel, ScalarAttrs, ScalarAttrsModel, ScalarBinding, Shape};
use crate::error::{ConversionError, ConversionErrorModel};
use crate::scalar::{resolve_complete, resolved, round_trips, GraphQLScalar};
use crate::scalar_value::{ScalarModel, ScalarValue};
use crate::token::{ParseError, ParseErrorModel, ScalarToken, TokenModel};
use crate::value::{InputModel, InputValue, Value, ValueModel};

verus! {

/// A native type that wraps a single field and is viewed as that field is.
pub trait Newtype: Sized + View {
    /// The type of the field.
    type Inner: View<V = Self::V>;

    /// The field.
    fn inner(&self) -> (r: &Self::Inner)
        ensures
            r@ == self@,
    ;

    /// The value around a field.
    fn wrap(inner: Self::Inner) -> (r: Self)
        ensures
            r@ == inner@,
    ;
}

/// The default encoder: the field's encoder on the field.
pub fn to_output<S: ScalarValue, T: Newtype>(value: &T) -> (r: Value<S>) where
    T::Inner: GraphQLScalar<S>,

    requires
        <T::Inner as GraphQLScalar<S>>::encodable(value@),
    ensures
        r@ == <T::Inner as GraphQLScalar<S>>::encoded(value@),
{
    value.inner().to_output()
}

/// The default decoder: the field's decoder, and the value around what it
/// gives. The field's error is handed on as it is.
pub fn from_input<S: ScalarValue, T: Newtype>(v: &InputValue<S>) -> (r: Result<T, ConversionError>) where
    T::Inner: GraphQLScalar<S>,

    ensures
        match r {
            Ok(x) => <T::Inner as GraphQLScalar<S>>::decoded(v@) == Ok::<T::V, ConversionErrorModel>(x@),
            Err(e) => <T::Inner as GraphQLScalar<S>>::decoded(v@) == Err::<T::V, ConversionErrorModel>(
                e@,
            ),
        },
{
    match <T::Inner as GraphQLScalar<S>>::from_input(v) {
        Ok(inner) => Ok(T::wrap(inner)),
        Err(e) => Err(e),
    }
}

/// The default token validator: the field's.
pub fn parse_token<'a, S: ScalarValue, T: Newtype>(t: ScalarToken<'a>) -> (r: Result<
    S,
    ParseError<'a>,
>) where T::Inner: GraphQLScalar<S>
    ensures
        match r {
            Ok(s) => <T::Inner as GraphQLScalar<S>>::validated(t@) == Ok::<ScalarModel, ParseErrorModel>(
                s.model(),
            ),
            Err(e) => <T::Inner as GraphQLScalar<S>>::validated(t@) == Err::<
                ScalarModel,
                ParseErrorModel,
            >(e@),
        },
{
    <T::Inner as GraphQLScalar<S>>::parse_token(t)
}

/// A type with a single field whose declaration names no operation of its
/// own, so that all three are the field's.
pub trait Declaration: Newtype {
    /// What the declaration says: one field, no operation named.
    spec fn attrs_spec() -> ScalarAttrsModel;

    /// What the declaration says: one field, no operation named.
    fn attrs() -> (r: ScalarAttrs)
        ensures
            r@ == Self::attrs_spec(),
            r@.shape == Shape::SingleField,
            !r@.to_output_with && !r@.from_input_with && !r@.parse_token_with,
    ;
}

/// A type whose binding is derived from its declaration for scalar values
/// of type `S`. The declaration says for which types `S` that is: one, all,
/// or all within a bound.
pub trait Derived<S: ScalarValue>: Declaration {

}

/// The derived binding: every operation is the field's, and the record is
/// what the declaration resolves to.
impl<S: ScalarValue, T: Derived<S>> GraphQLScalar<S> for T where T::Inner: GraphQLScalar<S> {
    open spec fn encodable(v: T::V) -> bool {
        <T::Inner as GraphQLScalar<S>>::encodable(v)
    }

    open spec fn encoded(v: T::V) -> ValueModel {
        <T::Inner as GraphQLScalar<S>>::encoded(v)
    }

    open spec fn decoded(v: InputModel) -> Result<T::V, ConversionErrorModel> {
        <T::Inner as GraphQLScalar<S>>::decoded(v)
    }

    open spec fn validated(t: TokenModel) -> Result<ScalarModel, ParseErrorModel> {
        <T::Inner as GraphQLScalar<S>>::validated(t)
    }

    open spec fn binding_spec() -> BindingModel {
        resolved(T::attrs_spec())
    }

    fn to_output(&self) -> (r: Value<S>) {
        to_output(self)
    }

    fn from_input(v: &InputValue<S>) -> (r: Result<Self, ConversionError>) {
        from_input(v)
    }

    fn parse_token<'a>(t: ScalarToken<'a>) -> (r: Result<S, ParseError<'a>>) {
        parse_token::<S, T>(t)
    }

    fn binding() -> (r: ScalarBinding) {
        resolve_complete(&T::attrs())
    }
}

/// A value of a derived binding comes back from its encoding wherever the
/// field's value does.
pub proof fn lemma_derived_round_trips<S: ScalarValue, T: Derived<S>>(v: T::V) where
    T::Inner: GraphQLScalar<S>,

    requires
        round_trips::<S, T::Inner>(v),
    ensures
        round_trips::<S, T>(v),
{
}

} // verus!

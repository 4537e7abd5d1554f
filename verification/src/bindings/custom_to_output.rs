//! A type with an encoder of its own and the decoder and validator of its
//! field: the encoder reports one more than the value holds.

use vstd::prelude::*;
use vstd::string::*;
use crate::binding::{BindingModel, ScalarAttrs, ScalarAttrsModel, ScalarBinding};
use crate::delegate::{from_input, parse_token, Newtype};
use crate::error::{ConversionError, ConversionErrorModel};
use crate::scalar::{resolve_complete, resolved, GraphQLScalar};
use crate::scalar_value::{DefaultScalarValue, ScalarModel, ScalarValue};
use crate::schema::GraphQLType;
use crate::token::{ParseError, ParseErrorModel, ScalarToken, TokenModel};
use crate::value::{InputModel, InputValue, Value, ValueModel};

verus! {

/// An integer that is reported as its successor.
#[derive(Clone, Copy, Debug, PartialEq, Eq)]
pub struct Increment(pub i32);

impl View for Increment {
    type V = i32;

    open spec fn view(&self) -> i32 {
        self.0
    }
}

impl Newtype for Increment {
    type Inner = i32;

    fn inner(&self) -> (r: &i32) {
        &self.0
    }

    fn wrap(inner: i32) -> (r: Self) {
        Increment(inner)
    }
}

/// The encoder of [`Increment`]: the integer scalar of the value plus one.
/// The largest integer has no successor and is left out.
pub fn to_output<S: ScalarValue>(val: &Increment) -> (r: Value<S>)
    requires
        val.0 < i32::MAX,
    ensures
        r@ == ValueModel::Scalar(ScalarModel::Int((val.0 + 1) as i32)),
{
    let ret: i32 = val.0 + 1;
    ret.to_output()
}

impl Increment {
    /// Encodes the value where it has a successor: `None` for the largest
    /// integer, else what [`to_output`] gives.
    pub fn try_to_output<S: ScalarValue>(&self) -> (r: Option<Value<S>>)
        ensures
            match r {
                Some(v) => self.0 < i32::MAX && v@ == ValueModel::Scalar(
                    ScalarModel::Int((self.0 + 1) as i32),
                ),
                None => self.0 == i32::MAX,
            },
    {
        if self.0 < i32::MAX {
            Some(to_output(self))
        } else {
            None
        }
    }
}

impl<S: ScalarValue> GraphQLScalar<S> for Increment {
    open spec fn encodable(v: i32) -> bool {
        v < i32::MAX
    }

    open spec fn encoded(v: i32) -> ValueModel {
        ValueModel::Scalar(ScalarModel::Int((v + 1) as i32))
    }

    open spec fn decoded(v: InputModel) -> Result<i32, ConversionErrorModel> {
        <i32 as GraphQLScalar<S>>::decoded(v)
    }

    open spec fn validated(t: TokenModel) -> Result<ScalarModel, ParseErrorModel> {
        <i32 as GraphQLScalar<S>>::validated(t)
    }

    open spec fn binding_spec() -> BindingModel {
        resolved(ScalarAttrsModel { to_output_with: true, ..ScalarAttrsModel::plain("Increment"@) })
    }

    fn to_output(&self) -> (r: Value<S>) {
        to_output(self)
    }

    fn from_input(v: &InputValue<S>) -> (r: Result<Self, ConversionError>) {
        from_input(v)
    }

    fn parse_token<'a>(t: ScalarToken<'a>) -> (r: Result<S, ParseError<'a>>) {
        parse_token::<S, Increment>(t)
    }

    fn binding() -> (r: ScalarBinding) {
        resolve_complete(&ScalarAttrs::new("Increment").to_output_with())
    }
}

/// The encoder reports the successor of what the decoder accepted: an
/// integer scalar `v` decodes to the value `v`, and the value `v` encodes to
/// the integer scalar `v + 1`.
pub proof fn lemma_reports_successor<S: ScalarValue>(v: i32)
    requires
        v < i32::MAX,
    ensures
        <Increment as GraphQLScalar<S>>::decoded(InputModel::Scalar(ScalarModel::Int(v))) == Ok::<
            i32,
            ConversionErrorModel,
        >(v),
        <Increment as GraphQLScalar<S>>::encodable(v),
        <Increment as GraphQLScalar<S>>::encoded(v) == ValueModel::Scalar(
            ScalarModel::Int((v + 1) as i32),
        ),
{
}

/// A query root with one field, over the default scalar value type.
#[derive(Clone, Copy, Debug, PartialEq, Eq)]
pub struct QueryRoot;

impl GraphQLType<DefaultScalarValue> for QueryRoot {
    open spec fn name_spec(&self) -> Seq<char> {
        "QueryRoot"@
    }

    open spec fn scalars_spec(&self) -> Seq<BindingModel> {
        seq![<Increment as GraphQLScalar<DefaultScalarValue>>::binding_spec()]
    }

    fn name(&self) -> (r: String) {
        String::from_str("QueryRoot")
    }

    fn scalars(&self) -> (r: Vec<ScalarBinding>) {
        let mut r = Vec::new();
        r.push(<Increment as GraphQLScalar<DefaultScalarValue>>::binding());
        r
    }
}

impl QueryRoot {
    /// The field `increment`: hands its argument back.
    pub fn increment(value: Increment) -> (r: Increment)
        ensures
            r == value,
    {
        value
    }
}

} // verus!

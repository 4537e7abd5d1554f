//! A type with documentation text, a description override and the URL of
//! its specification: the override is the description.

use vstd::prelude::*;
use vstd::string::*;
use crate::binding::{BindingModel, ScalarAttrs, ScalarAttrsModel, ScalarBinding};
use crate::delegate::{Declaration, Derived, Newtype};
use crate::scalar::GraphQLScalar;
use crate::scalar_value::{DefaultScalarValue, ScalarValue};
use crate::schema::GraphQLType;

verus! {

/// Doc comment.
#[derive(Clone, Copy, Debug, PartialEq, Eq)]
pub struct Counter(pub i32);

impl View for Counter {
    type V = i32;

    open spec fn view(&self) -> i32 {
        self.0
    }
}

impl Newtype for Counter {
    type Inner = i32;

    fn inner(&self) -> (r: &i32) {
        &self.0
    }

    fn wrap(inner: i32) -> (r: Self) {
        Counter(inner)
    }
}

impl Declaration for Counter {
    open spec fn attrs_spec() -> ScalarAttrsModel {
        ScalarAttrsModel {
            doc: Some("Doc comment."@),
            description: Some("Doc comment from attribute."@),
            specified_by_url: Some("https://tools.ietf.org/html/rfc4122"@),
            ..ScalarAttrsModel::plain("Counter"@)
        }
    }

    fn attrs() -> (r: ScalarAttrs) {
        ScalarAttrs::new("Counter").doc("Doc comment.").description(
            "Doc comment from attribute.",
        ).specified_by_url("https://tools.ietf.org/html/rfc4122")
    }
}

impl<S: ScalarValue> Derived<S> for Counter {

}

/// A query root with one field, over the default scalar value type.
#[derive(Clone, Copy, Debug, PartialEq, Eq)]
pub struct QueryRoot;

impl GraphQLType<DefaultScalarValue> for QueryRoot {
    open spec fn name_spec(&self) -> Seq<char> {
        "QueryRoot"@
    }

    open spec fn scalars_spec(&self) -> Seq<BindingModel> {
        seq![<Counter as GraphQLScalar<DefaultScalarValue>>::binding_spec()]
    }

    fn name(&self) -> (r: String) {
        String::from_str("QueryRoot")
    }

    fn scalars(&self) -> (r: Vec<ScalarBinding>) {
        let mut r = Vec::new();
        r.push(<Counter as GraphQLScalar<DefaultScalarValue>>::binding());
        r
    }
}

impl QueryRoot {
    /// The field `counter`: hands its argument back.
    pub fn counter(value: Counter) -> (r: Counter)
        ensures
            r == value,
    {
        value
    }
}

} // verus!

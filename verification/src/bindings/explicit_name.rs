//! A type bound under another name than its identifier. The schema knows
//! the type by the override alone.

use vstd::prelude::*;
use vstd::string::*;
use crate::binding::{BindingModel, ScalarAttrs, ScalarAttrsModel, ScalarBinding};
use crate::delegate::{Declaration, Derived, Newtype};
use crate::scalar::GraphQLScalar;
use crate::scalar_value::{DefaultScalarValue, ScalarValue};
use crate::schema::GraphQLType;

verus! {

/// A counter, bound as `Counter`.
#[derive(Clone, Copy, Debug, PartialEq, Eq)]
pub struct CustomCounter(pub i32);

impl View for CustomCounter {
    type V = i32;

    open spec fn view(&self) -> i32 {
        self.0
    }
}

impl Newtype for CustomCounter {
    type Inner = i32;

    fn inner(&self) -> (r: &i32) {
        &self.0
    }

    fn wrap(inner: i32) -> (r: Self) {
        CustomCounter(inner)
    }
}

impl Declaration for CustomCounter {
    open spec fn attrs_spec() -> ScalarAttrsModel {
        ScalarAttrsModel { name: Some("Counter"@), ..ScalarAttrsModel::plain("CustomCounter"@) }
    }

    fn attrs() -> (r: ScalarAttrs) {
        ScalarAttrs::new("CustomCounter").name("Counter")
    }
}

impl<S: ScalarValue> Derived<S> for CustomCounter {

}

/// A query root with one field, over the default scalar value type.
#[derive(Clone, Copy, Debug, PartialEq, Eq)]
pub struct QueryRoot;

impl GraphQLType<DefaultScalarValue> for QueryRoot {
    open spec fn name_spec(&self) -> Seq<char> {
        "QueryRoot"@
    }

    open spec fn scalars_spec(&self) -> Seq<BindingModel> {
        seq![<CustomCounter as GraphQLScalar<DefaultScalarValue>>::binding_spec()]
    }

    fn name(&self) -> (r: String) {
        String::from_str("QueryRoot")
    }

    fn scalars(&self) -> (r: Vec<ScalarBinding>) {
        let mut r = Vec::new();
        r.push(<CustomCounter as GraphQLScalar<DefaultScalarValue>>::binding());
        r
    }
}

impl QueryRoot {
    /// The field `counter`: hands its argument back.
    pub fn counter(value: CustomCounter) -> (r: CustomCounter)
        ensures
            r == value,
    {
        value
    }
}

} // verus!

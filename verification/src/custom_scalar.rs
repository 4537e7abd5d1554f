//! A scalar value type that a host brings: the four primitive kinds and a
//! 64-bit integer beside them.

use vstd::prelude::*;
use vstd::string::*;
use crate::scalar_value::{boolean_to_text, FloatValue, ScalarModel, ScalarValue};
use crate::text::{decimal_text, i32_to_text, i64_to_text, lemma_decimal_text_is_literal};

verus! {

/// A scalar value with a kind of its own, `Long`. To the engine a long is a
/// value of the extension kind, known by its decimal text.
#[derive(Clone, Debug, PartialEq)]
pub enum MyScalarValue {
    Int(i32),
    Long(i64),
    Float(FloatValue),
    String(String),
    Boolean(bool),
}

impl MyScalarValue {
    /// The long inside, `None` for every other kind.
    pub fn as_long(&self) -> (r: Option<i64>)
        ensures
            r == match *self {
                MyScalarValue::Long(l) => Some(l),
                _ => None,
            },
    {
        match self {
            MyScalarValue::Long(l) => Some(*l),
            _ => None,
        }
    }
}

impl ScalarValue for MyScalarValue {
    open spec fn model(&self) -> ScalarModel {
        match self {
            MyScalarValue::Int(i) => ScalarModel::Int(*i),
            MyScalarValue::Long(l) => ScalarModel::Other(decimal_text(*l as int)),
            MyScalarValue::Float(f) => ScalarModel::Float(f@),
            MyScalarValue::String(s) => ScalarModel::String(s@),
            MyScalarValue::Boolean(b) => ScalarModel::Boolean(*b),
        }
    }

    fn from_int(v: i32) -> (s: Self) {
        MyScalarValue::Int(v)
    }

    fn from_float(v: FloatValue) -> (s: Self) {
        MyScalarValue::Float(v)
    }

    fn from_string(v: String) -> (s: Self) {
        MyScalarValue::String(v)
    }

    fn from_boolean(v: bool) -> (s: Self) {
        MyScalarValue::Boolean(v)
    }

    fn as_int(&self) -> (r: Option<i32>) {
        match self {
            MyScalarValue::Int(i) => Some(*i),
            _ => None,
        }
    }

    fn as_float(&self) -> (r: Option<FloatValue>) {
        match self {
            MyScalarValue::Float(f) => Some(f.duplicate()),
            _ => None,
        }
    }

    fn as_str(&self) -> (r: Option<&str>) {
        match self {
            MyScalarValue::String(s) => Some(s.as_str()),
            _ => None,
        }
    }

    fn as_boolean(&self) -> (r: Option<bool>) {
        match self {
            MyScalarValue::Boolean(b) => Some(*b),
            _ => None,
        }
    }

    fn to_text(&self) -> (r: String) {
        match self {
            MyScalarValue::Int(i) => i32_to_text(*i),
            MyScalarValue::Long(l) => i64_to_text(*l),
            MyScalarValue::Float(f) => f.text.clone(),
            MyScalarValue::String(s) => s.clone(),
            MyScalarValue::Boolean(b) => boolean_to_text(*b),
        }
    }

    fn duplicate(&self) -> (r: Self) {
        match self {
            MyScalarValue::Int(i) => MyScalarValue::Int(*i),
            MyScalarValue::Long(l) => MyScalarValue::Long(*l),
            MyScalarValue::Float(f) => MyScalarValue::Float(f.duplicate()),
            MyScalarValue::String(s) => MyScalarValue::String(s.clone()),
            MyScalarValue::Boolean(b) => MyScalarValue::Boolean(*b),
        }
    }

    fn same(&self, other: &Self) -> (r: bool) {
        match (self, other) {
            (MyScalarValue::Int(a), MyScalarValue::Int(b)) => *a == *b,
            (MyScalarValue::Long(a), MyScalarValue::Long(b)) => {
                proof {
                    lemma_decimal_text_is_literal(*a as int);
                    lemma_decimal_text_is_literal(*b as int);
                }
                *a == *b
            },
            (MyScalarValue::Float(a), MyScalarValue::Float(b)) => a.text == b.text,
            (MyScalarValue::String(a), MyScalarValue::String(b)) => *a == *b,
            (MyScalarValue::Boolean(a), MyScalarValue::Boolean(b)) => *a == *b,
            _ => false,
        }
    }
}

} // verus!

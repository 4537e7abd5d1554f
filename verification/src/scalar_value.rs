//! The scalar value model: what a leaf value is on the wire.
//!
//! Every conversion of a scalar type goes through a value of a type that
//! implements [`ScalarValue`]. The engine is generic over that type, so a host
//! may bring a richer one; what the engine may rely on is the capability set
//! of the trait, stated over [`ScalarModel`].

use vstd::prelude::*;
use vstd::string::*;
use crate::text::{decimal_text, i32_to_text};

verus! {

/// What a scalar value is, whichever type carries it.
///
/// The four primitive kinds are fixed. `Other` is the extension point: a
/// kind that the host added, known to the engine by its text alone.
pub enum ScalarModel {
    Int(i32),
    Float(Seq<char>),
    String(Seq<char>),
    Boolean(bool),
    Other(Seq<char>),
}

/// The text of a boolean.
pub open spec fn boolean_text(b: bool) -> Seq<char> {
    if b {
        "true"@
    } else {
        "false"@
    }
}

impl ScalarModel {
    /// The integer, where the value is one.
    pub open spec fn as_int(self) -> Option<i32> {
        match self {
            ScalarModel::Int(i) => Some(i),
            _ => None,
        }
    }

    /// The decimal text of the float, where the value is one.
    pub open spec fn as_float(self) -> Option<Seq<char>> {
        match self {
            ScalarModel::Float(f) => Some(f),
            _ => None,
        }
    }

    /// The characters of the string, where the value is one.
    pub open spec fn as_string(self) -> Option<Seq<char>> {
        match self {
            ScalarModel::String(s) => Some(s),
            _ => None,
        }
    }

    /// The boolean, where the value is one.
    pub open spec fn as_boolean(self) -> Option<bool> {
        match self {
            ScalarModel::Boolean(b) => Some(b),
            _ => None,
        }
    }

    /// The value displayed as text: an integer in decimal, a float as the
    /// text it carries, a string as it is, a boolean as `true` or `false`.
    pub open spec fn text(self) -> Seq<char> {
        match self {
            ScalarModel::Int(i) => decimal_text(i as int),
            ScalarModel::Float(f) => f,
            ScalarModel::String(s) => s,
            ScalarModel::Boolean(b) => boolean_text(b),
            ScalarModel::Other(t) => t,
        }
    }
}

/// A floating-point number as the scalar layer carries it: by its decimal
/// text. The layer compares and displays floats and never computes with them,
/// so the text is all it holds; the host turns it into a machine float.
#[derive(Clone, Debug, PartialEq, Eq)]
pub struct FloatValue {
    pub text: String,
}

impl View for FloatValue {
    type V = Seq<char>;

    open spec fn view(&self) -> Seq<char> {
        self.text@
    }
}

impl FloatValue {
    /// A float from its decimal text.
    pub fn new(text: String) -> (r: Self)
        ensures
            r@ == text@,
    {
        FloatValue { text }
    }

    /// The decimal text.
    pub fn as_str(&self) -> (r: &str)
        ensures
            r@ == self@,
    {
        self.text.as_str()
    }

    /// A copy with the same text.
    pub fn duplicate(&self) -> (r: Self)
        ensures
            r@ == self@,
    {
        FloatValue { text: self.text.clone() }
    }
}

/// The text of a boolean.
pub fn boolean_to_text(b: bool) -> (r: String)
    ensures
        r@ == boolean_text(b),
{
    if b {
        String::from_str("true")
    } else {
        String::from_str("false")
    }
}

/// The capability set of a scalar value type: build one from a primitive,
/// take a primitive out, display as text, copy, compare.
///
/// Each method is pinned to [`ScalarModel`], so code that is generic over
/// the scalar value type is verified once for all of them.
pub trait ScalarValue: Sized {
    /// The value that `self` carries.
    spec fn model(&self) -> ScalarModel;

    /// The scalar that carries an integer.
    fn from_int(v: i32) -> (s: Self)
        ensures
            s.model() == ScalarModel::Int(v),
    ;

    /// The scalar that carries a float.
    fn from_float(v: FloatValue) -> (s: Self)
        ensures
            s.model() == ScalarModel::Float(v@),
    ;

    /// The scalar that carries a string.
    fn from_string(v: String) -> (s: Self)
        ensures
            s.model() == ScalarModel::String(v@),
    ;

    /// The scalar that carries a boolean.
    fn from_boolean(v: bool) -> (s: Self)
        ensures
            s.model() == ScalarModel::Boolean(v),
    ;

    /// The integer inside, `None` for every other kind.
    fn as_int(&self) -> (r: Option<i32>)
        ensures
            r == self.model().as_int(),
    ;

    /// The float inside, `None` for every other kind.
    fn as_float(&self) -> (r: Option<FloatValue>)
        ensures
            match r {
                Some(f) => self.model().as_float() == Some(f@),
                None => self.model().as_float() is None,
            },
    ;

    /// The string inside, `None` for every other kind.
    fn as_str(&self) -> (r: Option<&str>)
        ensures
            match r {
                Some(s) => self.model().as_string() == Some(s@),
                None => self.model().as_string() is None,
            },
    ;

    /// The boolean inside, `None` for every other kind.
    fn as_boolean(&self) -> (r: Option<bool>)
        ensures
            r == self.model().as_boolean(),
    ;

    /// The value displayed as text.
    fn to_text(&self) -> (r: String)
        ensures
            r@ == self.model().text(),
    ;

    /// A copy that carries the same value.
    fn duplicate(&self) -> (r: Self)
        ensures
            r.model() == self.model(),
    ;

    /// Whether two scalars carry the same value: the same kind, and within
    /// the kind the same primitive.
    fn same(&self, other: &Self) -> (r: bool)
        ensures
            r == (self.model() == other.model()),
    ;
}

/// The scalar value type of an engine that adds no kind of its own.
#[derive(Clone, Debug, PartialEq)]
pub enum DefaultScalarValue {
    Int(i32),
    Float(FloatValue),
    String(String),
    Boolean(bool),
}

impl ScalarValue for DefaultScalarValue {
    open spec fn model(&self) -> ScalarModel {
        match self {
            DefaultScalarValue::Int(i) => ScalarModel::Int(*i),
            DefaultScalarValue::Float(f) => ScalarModel::Float(f@),
            DefaultScalarValue::String(s) => ScalarModel::String(s@),
            DefaultScalarValue::Boolean(b) => ScalarModel::Boolean(*b),
        }
    }

    fn from_int(v: i32) -> (s: Self) {
        DefaultScalarValue::Int(v)
    }

    fn from_float(v: FloatValue) -> (s: Self) {
        DefaultScalarValue::Float(v)
    }

    fn from_string(v: String) -> (s: Self) {
        DefaultScalarValue::String(v)
    }

    fn from_boolean(v: bool) -> (s: Self) {
        DefaultScalarValue::Boolean(v)
    }

    fn as_int(&self) -> (r: Option<i32>) {
        match self {
            DefaultScalarValue::Int(i) => Some(*i),
            _ => None,
        }
    }

    fn as_float(&self) -> (r: Option<FloatValue>) {
        match self {
            DefaultScalarValue::Float(f) => Some(f.duplicate()),
            _ => None,
        }
    }

    fn as_str(&self) -> (r: Option<&str>) {
        match self {
            DefaultScalarValue::String(s) => Some(s.as_str()),
            _ => None,
        }
    }

    fn as_boolean(&self) -> (r: Option<bool>) {
        match self {
            DefaultScalarValue::Boolean(b) => Some(*b),
            _ => None,
        }
    }

    fn to_text(&self) -> (r: String) {
        match self {
            DefaultScalarValue::Int(i) => i32_to_text(*i),
            DefaultScalarValue::Float(f) => f.text.clone(),
            DefaultScalarValue::String(s) => s.clone(),
            DefaultScalarValue::Boolean(b) => boolean_to_text(*b),
        }
    }

    fn duplicate(&self) -> (r: Self) {
        match self {
            DefaultScalarValue::Int(i) => DefaultScalarValue::Int(*i),
            DefaultScalarValue::Float(f) => DefaultScalarValue::Float(f.duplicate()),
            DefaultScalarValue::String(s) => DefaultScalarValue::String(s.clone()),
            DefaultScalarValue::Boolean(b) => DefaultScalarValue::Boolean(*b),
        }
    }

    fn same(&self, other: &Self) -> (r: bool) {
        match (self, other) {
            (DefaultScalarValue::Int(a), DefaultScalarValue::Int(b)) => *a == *b,
            (DefaultScalarValue::Float(a), DefaultScalarValue::Float(b)) => a.text == b.text,
            (DefaultScalarValue::String(a), DefaultScalarValue::String(b)) => *a == *b,
            (DefaultScalarValue::Boolean(a), DefaultScalarValue::Boolean(b)) => *a == *b,
            _ => false,
        }
    }
}

} // verus!

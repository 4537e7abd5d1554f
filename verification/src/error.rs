//! Errors of decoding an input value.

use vstd::prelude::*;
use vstd::string::*;
use crate::scalar_value::ScalarValue;
use crate::value::{InputModel, InputValue};

verus! {

/// Why an input value could not be decoded.
#[derive(Debug, PartialEq, Eq)]
pub enum ConversionError {
    /// The value is no scalar, or a scalar of another kind than the one
    /// expected. `found` is the value written out as text.
    TypeMismatch { expected: String, found: String },
    /// The value has the expected kind, and the decoder refused its content.
    Rejected { message: String },
}

/// What a conversion error is, over characters.
pub enum ConversionErrorModel {
    TypeMismatch { expected: Seq<char>, found: Seq<char> },
    Rejected { message: Seq<char> },
}

impl ConversionErrorModel {
    /// The error that reports `found` where a scalar of kind `expected` was
    /// wanted.
    pub open spec fn mismatch(expected: Seq<char>, found: InputModel) -> Self {
        ConversionErrorModel::TypeMismatch { expected, found: found.text() }
    }

    /// The message that the response's error list shows.
    pub open spec fn message(self) -> Seq<char> {
        match self {
            ConversionErrorModel::TypeMismatch { expected, found } => "Expected `"@ + expected
                + "`, found: "@ + found,
            ConversionErrorModel::Rejected { message } => message,
        }
    }
}

impl View for ConversionError {
    type V = ConversionErrorModel;

    open spec fn view(&self) -> ConversionErrorModel {
        match self {
            ConversionError::TypeMismatch { expected, found } => ConversionErrorModel::TypeMismatch {
                expected: expected@,
                found: found@,
            },
            ConversionError::Rejected { message } => ConversionErrorModel::Rejected {
                message: message@,
            },
        }
    }
}

impl ConversionError {
    /// The error that reports `found` where a scalar of kind `expected` was
    /// wanted.
    pub fn type_mismatch<S: ScalarValue>(expected: &str, found: &InputValue<S>) -> (r: Self)
        ensures
            r@ == ConversionErrorModel::mismatch(expected@, found@),
    {
        ConversionError::TypeMismatch {
            expected: String::from_str(expected),
            found: found.to_text(),
        }
    }

    /// The error by which a decoder refuses a value of the expected kind.
    pub fn rejected(message: String) -> (r: Self)
        ensures
            r@ == (ConversionErrorModel::Rejected { message: message@ }),
    {
        ConversionError::Rejected { message }
    }

    /// The message that the response's error list shows.
    pub fn message(&self) -> (r: String)
        ensures
            r@ == self@.message(),
    {
        match self {
            ConversionError::TypeMismatch { expected, found } => {
                let mut out = String::from_str("Expected `");
                out.append(expected.as_str());
                out.append("`, found: ");
                out.append(found.as_str());
                out
            },
            ConversionError::Rejected { message } => message.clone(),
        }
    }
}

} // verus!

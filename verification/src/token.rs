//! Scalar tokens: the literals that the lexer hands over before any value
//! exists.

use vstd::prelude::*;
use vstd::string::*;

verus! {

/// A literal as the lexer read it: its lexical kind and its raw text.
#[derive(Clone, Copy, Debug, PartialEq, Eq)]
pub enum ScalarToken<'a> {
    String(&'a str),
    Float(&'a str),
    Int(&'a str),
}

/// What a scalar token is: its kind and the characters of its text.
pub enum TokenModel {
    String(Seq<char>),
    Float(Seq<char>),
    Int(Seq<char>),
}

impl<'a> View for ScalarToken<'a> {
    type V = TokenModel;

    open spec fn view(&self) -> TokenModel {
        match self {
            ScalarToken::String(t) => TokenModel::String(t@),
            ScalarToken::Float(t) => TokenModel::Float(t@),
            ScalarToken::Int(t) => TokenModel::Int(t@),
        }
    }
}

impl TokenModel {
    /// The raw text of the token.
    pub open spec fn text(self) -> Seq<char> {
        match self {
            TokenModel::String(t) => t,
            TokenModel::Float(t) => t,
            TokenModel::Int(t) => t,
        }
    }
}

impl<'a> ScalarToken<'a> {
    /// The raw text of the token.
    pub fn text(&self) -> (r: &'a str)
        ensures
            r@ == self@.text(),
    {
        match self {
            ScalarToken::String(t) => t,
            ScalarToken::Float(t) => t,
            ScalarToken::Int(t) => t,
        }
    }
}

/// Why a token was refused.
#[derive(Clone, Copy, Debug, PartialEq, Eq)]
pub enum ParseError<'a> {
    /// The token's lexical kind, or its text, is not acceptable for the
    /// scalar type that was asked to validate it.
    UnexpectedToken(ScalarToken<'a>),
}

/// What a parse error is: the token that was refused.
pub enum ParseErrorModel {
    UnexpectedToken(TokenModel),
}

impl<'a> View for ParseError<'a> {
    type V = ParseErrorModel;

    open spec fn view(&self) -> ParseErrorModel {
        match self {
            ParseError::UnexpectedToken(t) => ParseErrorModel::UnexpectedToken(t@),
        }
    }
}

} // verus!

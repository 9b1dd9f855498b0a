//! The error kinds that lowering a manifest can surface. Every failure is a
//! recoverable value; no path panics.

use vstd::prelude::*;

verus! {

/// Mathematical model of an error: the kind together with the offending text.
pub enum ErrorModel {
    /// The backing document could not be read.
    IOError(Seq<char>),
    /// The document does not match the expected key/value shape.
    DeserializationError(Seq<char>),
    /// A generic constructor is missing its required inner argument, or a map
    /// is missing one of its two comma-separated parts.
    MalformedTypeExpression(Seq<char>),
    /// An unrecognized constructor name; carries the offending token.
    TypeParsingError(Seq<char>),
    /// A map key type expression that is neither `String` nor an `Enum<...>`.
    UnsupportedMapKey(Seq<char>),
    /// A feature variable's type string that matches neither a built-in
    /// constructor nor any declared enum or object name.
    UnknownUserType(Seq<char>),
}

/// An error surfaced while lowering a manifest document.
#[derive(Debug, PartialEq)]
pub enum FMLError {
    IOError(String),
    DeserializationError(String),
    MalformedTypeExpression(String),
    TypeParsingError(String),
    UnsupportedMapKey(String),
    UnknownUserType(String),
}

impl FMLError {
    pub open spec fn model(&self) -> ErrorModel {
        match self {
            FMLError::IOError(s) => ErrorModel::IOError(s@),
            FMLError::DeserializationError(s) => ErrorModel::DeserializationError(s@),
            FMLError::MalformedTypeExpression(s) => ErrorModel::MalformedTypeExpression(s@),
            FMLError::TypeParsingError(s) => ErrorModel::TypeParsingError(s@),
            FMLError::UnsupportedMapKey(s) => ErrorModel::UnsupportedMapKey(s@),
            FMLError::UnknownUserType(s) => ErrorModel::UnknownUserType(s@),
        }
    }

    /// The offending text that this error carries.
    pub fn detail(&self) -> (r: &String)
        ensures
            self.model() matches ErrorModel::IOError(s) ==> r@ == s,
            self.model() matches ErrorModel::DeserializationError(s) ==> r@ == s,
            self.model() matches ErrorModel::MalformedTypeExpression(s) ==> r@ == s,
            self.model() matches ErrorModel::TypeParsingError(s) ==> r@ == s,
            self.model() matches ErrorModel::UnsupportedMapKey(s) ==> r@ == s,
            self.model() matches ErrorModel::UnknownUserType(s) ==> r@ == s,
    {
        match self {
            FMLError::IOError(s) => s,
            FMLError::DeserializationError(s) => s,
            FMLError::MalformedTypeExpression(s) => s,
            FMLError::TypeParsingError(s) => s,
            FMLError::UnsupportedMapKey(s) => s,
            FMLError::UnknownUserType(s) => s,
        }
    }
}

} // verus!

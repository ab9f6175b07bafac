//! Error values surfaced by the schema loader, the generator and the parse
//! operation of the static mode.

use vstd::prelude::*;

verus! {

/// Why a schema document, though readable, was rejected.
#[derive(Clone, Copy, Debug, PartialEq, Eq, Structural)]
pub enum SchemaError {
    /// The document is not a mapping from string keys to sequences of scalar
    /// strings.
    Malformed,
    /// The document does not have exactly one top-level key.
    NotSingleKey,
    /// The variant list under the single key is empty.
    EmptyVariants,
    /// Two variants normalize to the same tag identifier.
    TagCollision,
}

impl SchemaError {
    /// A short description of the failure.
    pub fn message(&self) -> (r: &'static str)
        ensures
            *self == SchemaError::Malformed ==> r@ == "document is not a mapping of string keys to string sequences"@,
            *self == SchemaError::NotSingleKey ==> r@ == "document must have exactly one top-level key"@,
            *self == SchemaError::EmptyVariants ==> r@ == "variant list is empty"@,
            *self == SchemaError::TagCollision ==> r@ == "two variants normalize to the same tag identifier"@,
    {
        match self {
            SchemaError::Malformed => "document is not a mapping of string keys to string sequences",
            SchemaError::NotSingleKey => "document must have exactly one top-level key",
            SchemaError::EmptyVariants => "variant list is empty",
            SchemaError::TagCollision => "two variants normalize to the same tag identifier",
        }
    }
}

/// Failure of the static mode's parse operation: the given string is not
/// among the declared canonical forms.
#[derive(Clone, Copy, Debug, PartialEq, Eq, Structural)]
pub enum ParseError {
    /// The string is not a canonical form of any declared variant.
    Unrecognized,
}

impl ParseError {
    /// A short description of the failure.
    pub fn message(&self) -> (r: &'static str)
        ensures
            r@ == "unrecognized value"@,
    {
        "unrecognized value"
    }
}

} // verus!

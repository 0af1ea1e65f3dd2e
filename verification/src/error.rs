//! The error taxonomy of the message protocol. Every failure is terminal and
//! synchronous; the payload strings echo the offending part of the message
//! back to the caller. Message text is a presentation concern and is not part
//! of any contract; the variants are.

use vstd::prelude::*;

verus! {

/// Errors of the object-selector step of a `query` message.
#[derive(Debug, Clone)]
pub enum QueryError {
    /// The first token names none of the addressable object classes.
    InvalidSelector,
    /// An indexable class came without the index token it needs.
    InvalidFormat,
    /// The index position holds something other than an integer atom.
    InvalidIndexType,
}

/// Errors of the object-selector step of a `send` message.
#[derive(Debug, Clone)]
pub enum SendError {
    InvalidFormat,
}

/// Errors of a `get` message, carrying an echo of the offending input.
#[derive(Debug, Clone)]
pub enum GetError {
    InvalidFormat(String),
}

/// Errors of a `set` message, carrying an echo of the offending input.
#[derive(Debug, Clone)]
pub enum SetError {
    InvalidFormat(String),
}

/// Errors of the enumerated-identifier path.
#[derive(Debug, Clone)]
pub enum EnumError {
    /// The `type` part of a `type:value` token is not an enumerated
    /// identifier of the addressed object kind.
    InvalidEnumType(String),
    /// The `value` part is not a variant of the recognised type.
    InvalidEnumValue(String),
}

/// Errors of the plain-identifier path.
#[derive(Debug, Clone)]
pub enum IdentifierError {
    /// The symbol is not an identifier of the addressed object kind.
    InvalidType(String),
    /// The identifier was recognised but its parameter token was not
    /// acceptable; both are echoed back.
    InvalidParameter(String, String),
}

/// The one error type every entry point of the library returns.
#[derive(Debug, Clone)]
pub enum RytmExternalError {
    Custom(String),
    Query(QueryError),
    Send(SendError),
    Getter(GetError),
    Setter(SetError),
    Enum(EnumError),
    Identifier(IdentifierError),
    NotYetImplemented,
}

impl RytmExternalError {
    /// Wraps a selector error.
    pub fn from_query(e: QueryError) -> (r: Self)
        ensures
            r == RytmExternalError::Query(e),
    {
        RytmExternalError::Query(e)
    }

    /// Wraps a plain-identifier error.
    pub fn from_identifier(e: IdentifierError) -> (r: Self)
        ensures
            r == RytmExternalError::Identifier(e),
    {
        RytmExternalError::Identifier(e)
    }

    /// Wraps an enumerated-identifier error.
    pub fn from_enum(e: EnumError) -> (r: Self)
        ensures
            r == RytmExternalError::Enum(e),
    {
        RytmExternalError::Enum(e)
    }
}

} // verus!

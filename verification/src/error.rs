//! The error taxonomy: transport failure and decode failure.

use vstd::prelude::*;

verus! {

/// Why a response body failed to decode into the typed model.
#[derive(Debug, PartialEq)]
pub enum DecodeError {
    /// The body is not valid JSON.
    Syntax,
    /// A required field is missing or does not have the expected shape;
    /// carries the field's wire name.
    Field(String),
    /// A closed-set single-letter code held a value outside the set;
    /// carries the unrecognized value.
    UnknownCode(String),
}

/// Mathematical view of a `DecodeError`.
#[verifier::ext_equal]
pub ghost enum DecodeErrorV {
    Syntax,
    Field(Seq<char>),
    UnknownCode(Seq<char>),
}

impl View for DecodeError {
    type V = DecodeErrorV;

    open spec fn view(&self) -> DecodeErrorV {
        match self {
            DecodeError::Syntax => DecodeErrorV::Syntax,
            DecodeError::Field(k) => DecodeErrorV::Field(k@),
            DecodeError::UnknownCode(c) => DecodeErrorV::UnknownCode(c@),
        }
    }
}

/// What a client call can fail with. Both kinds are terminal for the
/// call that produced them: nothing is retried.
#[derive(Debug, PartialEq)]
pub enum Error {
    /// The request could not be sent or no response body came back;
    /// carries the transport's description of the failure.
    Transport(String),
    /// A response body arrived but did not match the expected schema.
    Decode(DecodeError),
}

} // verus!

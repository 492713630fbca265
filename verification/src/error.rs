//! The client's error taxonomy. Every error is terminal for the current
//! request/response cycle and carries a stable, human-readable message.

use vstd::prelude::*;

verus! {

/// Everything that can go wrong in one request/response cycle.
///
/// HTTP-level error statuses (4xx/5xx) are deliberately absent: they are
/// successfully dispatched responses, not errors.
#[derive(Debug, Clone, PartialEq, Eq)]
pub enum HttpError {
    /// The given string is not an absolute URL with a scheme and host.
    InvalidUrl { input: String },
    /// A raw body token has no `=` or an empty key.
    InvalidKeyValuePair { input: String },
    /// The transport could not complete the exchange.
    TransportError { cause: String },
    /// The response body is not valid UTF-8 text.
    UndecodableBody,
}

/// The stable rendering of each error.
pub open spec fn spec_message(e: HttpError) -> Seq<char> {
    match e {
        HttpError::InvalidUrl { input } => "InvalidUrl: "@ + input@,
        HttpError::InvalidKeyValuePair { input } => "InvalidKeyValuePair: "@ + input@,
        HttpError::TransportError { cause } => "TransportError: "@ + cause@,
        HttpError::UndecodableBody => "UndecodableBody: response body is not valid UTF-8"@,
    }
}

impl HttpError {
    /// One human-readable line naming the error kind, with its detail.
    pub fn message(&self) -> (r: String)
        ensures
            r@ == spec_message(*self),
    {
        match self {
            HttpError::InvalidUrl { input } => String::from_str("InvalidUrl: ").concat(
                input.as_str(),
            ),
            HttpError::InvalidKeyValuePair { input } => String::from_str(
                "InvalidKeyValuePair: ",
            ).concat(input.as_str()),
            HttpError::TransportError { cause } => String::from_str("TransportError: ").concat(
                cause.as_str(),
            ),
            HttpError::UndecodableBody => String::from_str(
                "UndecodableBody: response body is not valid UTF-8",
            ),
        }
    }
}

} // verus!

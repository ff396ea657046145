//! What can go wrong when talking to the core systems: the transport
//! failed, or a core system answered with its own error body.

use vstd::prelude::*;

use crate::dtos::ArrowheadServerException;

verus! {

/// A failure of a call to a core system.
pub enum Error {
    HttpError(String),
    ArrowheadError(ArrowheadServerException),
}

impl Error {
    /// The user-facing description of this error.
    pub fn message(&self) -> (r: String)
        ensures
            match self {
                Error::HttpError(m) => r@ == "Http error: "@ + m@,
                Error::ArrowheadError(e) => r@ == "Arrowhead error: "@ + e.error_message@,
            },
    {
        let mut r = String::new();
        match self {
            Error::HttpError(m) => {
                r.append("Http error: ");
                r.append(m.as_str());
            },
            Error::ArrowheadError(e) => {
                r.append("Arrowhead error: ");
                r.append(e.error_message.as_str());
            },
        }
        r
    }
}

} // verus!

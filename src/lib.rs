//! A client for a banking open API: client-credentials tokens with expiry,
//! a pluggable token cache, and typed request builders.
use vstd::prelude::*;

pub mod client;
pub mod request;
pub mod response;
pub mod time;
pub mod token;

verus! {

/// Everything that can go wrong in the library.
#[derive(Debug)]
pub enum Error {
    /// The transport failed to reach a remote endpoint.
    Request(String),
    /// A token store could not be read or written.
    TokenIo(String),
    /// A required client field was never given.
    ClientFieldUndefined { field: String },
    /// A required transfer field was never given.
    TransferRequestFieldUndefined { field: String },
    /// A required payment field was never given.
    PaymentFieldUndefined { field: String },
    /// An authenticated call was made with no token at hand.
    NoAccessToken,
    /// A remote endpoint answered with an error status; the body is kept.
    CustomRequest(String),
    /// A scope tag outside the known set was met while decoding.
    UnknownScope { scope: String },
    /// A response field held text of the wrong shape; the text is kept.
    Decode { text: String },
}

} // verus!

//! The error taxonomy of the engine.
//!
//! Every failure is returned to the caller as a typed value; the engine
//! never panics on rejected input. A cryptographic failure (an AEAD tag
//! mismatch, an invalid pad on decryption) carries no detail, so that the
//! caller cannot distinguish a wrong key from a corrupted ciphertext.

use vstd::prelude::*;

verus! {

/// What went wrong with a request.
#[derive(Debug, Clone)]
pub enum Error {
    /// The request itself is ill-formed: a wrong key, IV or nonce length,
    /// a missing salt, a padding that the mode does not take.
    Validation(String),
    /// The supplied key material is malformed: bad PEM framing, a wrong
    /// PEM label, undecodable DER, invalid text in a chosen encoding.
    Format(String),
    /// The algorithm, curve or container combination is not implemented.
    Unsupported(String),
    /// Decryption failed. Deliberately carries no cause.
    CryptoFailed,
}

impl Error {
    /// A human-readable rendering of the error.
    pub fn message(&self) -> String {
        match self {
            Error::Validation(s) => s.clone(),
            Error::Format(s) => s.clone(),
            Error::Unsupported(s) => s.clone(),
            Error::CryptoFailed => String::new(),
        }
    }

    /// True of the errors that report a rejected request rather than a
    /// failed cryptographic check.
    pub fn is_rejection(&self) -> (r: bool)
        ensures
            r == !(self is CryptoFailed),
    {
        !matches!(self, Error::CryptoFailed)
    }
}

} // verus!

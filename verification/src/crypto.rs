//! The request shape shared by the encryption commands: a payload and
//! a key as text, each with the encoding that turns it back into
//! bytes, and the encoding the answer should be rendered in.

use vstd::prelude::*;

use crate::enums::TextEncoding;
use crate::errors::Error;

verus! {

/// What every encryption request can hand the engine: its payload
/// bytes, its key bytes and its output encoding.
pub trait EncryptionDto {
    /// The request's payload, decoded from its text encoding.
    fn get_input(&self) -> Result<Vec<u8>, Error>;

    /// The request's key material, decoded from its text encoding.
    fn get_key(&self) -> Result<Vec<u8>, Error>;

    /// The encoding the answer should be rendered in.
    fn get_output_encoding(&self) -> TextEncoding;
}

/// The UTF-8 bytes of a string value, as the decoders see them.
pub open spec fn str_bytes(s: Seq<char>) -> Seq<u8> {
    vstd::utf8::encode_utf8(s)
}

} // verus!

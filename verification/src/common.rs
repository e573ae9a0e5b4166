//! Small shared values: the key-pair tuple the generators hand out, and
//! random material.

use rand::Rng;
use vstd::prelude::*;

use crate::errors::Error;

verus! {

/// A generated key pair as optional encoded strings: the private key
/// first, the public key second.
pub struct KeyTuple(pub Option<String>, pub Option<String>);

impl KeyTuple {
    /// A tuple holding both halves of a pair.
    pub fn new(private_key: String, public_key: String) -> (r: KeyTuple)
        ensures
            r.0 == Some(private_key),
            r.1 == Some(public_key),
    {
        KeyTuple(Some(private_key), Some(public_key))
    }

    /// A tuple holding nothing yet.
    pub fn empty() -> (r: KeyTuple)
        ensures
            r.0 is None,
            r.1 is None,
    {
        KeyTuple(None, None)
    }

    /// Replace the private half.
    pub fn private(&mut self, key: Option<String>)
        ensures
            final(self).0 == key,
            final(self).1 == old(self).1,
    {
        self.0 = key;
    }

    /// Replace the public half.
    pub fn public(&mut self, key: Option<String>)
        ensures
            final(self).1 == key,
            final(self).0 == old(self).0,
    {
        self.1 = key;
    }
}

/// What `num_bigint` prints for the big-endian unsigned value of a byte
/// string in base 36.
pub uninterp spec fn radix36_of(bytes: Seq<u8>) -> Seq<char>;

/// Relies on `rand`'s `Alphanumeric` distribution: `size` bytes drawn
/// from the ASCII digits and letters. Nothing is promised of the draw
/// beyond its length and alphabet.
#[verifier::external_body]
pub fn random_bytes(size: usize) -> (r: Result<Vec<u8>, Error>)
    ensures
        r matches Ok(v) ==> v@.len() == size && (forall|i: int|
            0 <= i < v@.len() ==> ((48 <= #[trigger] v@[i] <= 57) || (65 <= v@[i] <= 90) || (97
                <= v@[i] <= 122))),
        r is Ok,
{
    Ok(rand::thread_rng().sample_iter(&rand::distributions::Alphanumeric).take(size).collect())
}

/// Relies on `num_bigint::BigInt::to_str_radix`: the base-36 rendering
/// of the big-endian value of the bytes.
#[verifier::external_body]
fn bigint_radix36(bytes: &[u8]) -> (r: String)
    ensures
        r@ == radix36_of(bytes@),
{
    num_bigint::BigInt::from_bytes_be(num_bigint::Sign::Plus, bytes).to_str_radix(36)
}

/// A fresh identifier: twenty random alphanumeric bytes printed in base
/// 36.
pub fn random_id() -> (r: Result<String, Error>)
    ensures
        r matches Ok(s) ==> exists|b: Seq<u8>| b.len() == 20 && s@ == radix36_of(b),
        r is Ok,
{
    let base = random_bytes(20)?;
    Ok(bigint_radix36(base.as_slice()))
}

} // verus!

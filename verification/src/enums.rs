//! The closed algorithm selectors of the engine.
//!
//! Each selector is a small tagged union; dispatch over them is always by
//! exhaustive `match`, so adding a variant forces every dispatch site to
//! handle it.

use vstd::prelude::*;

verus! {

/// The RSA modulus sizes the engine generates.
#[derive(Clone, Copy, Debug, PartialEq, Eq, Structural)]
pub enum RsaKeySize {
    Rsa2048,
    Rsa3072,
    Rsa4096,
}

impl RsaKeySize {
    /// The modulus size in bits.
    pub fn bits(&self) -> (r: usize)
        ensures
            r == self.spec_bits(),
    {
        match self {
            RsaKeySize::Rsa2048 => 2048,
            RsaKeySize::Rsa3072 => 3072,
            RsaKeySize::Rsa4096 => 4096,
        }
    }

    pub open spec fn spec_bits(self) -> usize {
        match self {
            RsaKeySize::Rsa2048 => 2048usize,
            RsaKeySize::Rsa3072 => 3072usize,
            RsaKeySize::Rsa4096 => 4096usize,
        }
    }
}

/// The Weierstrass-form elliptic curves the engine supports.
#[derive(Clone, Copy, Debug, PartialEq, Eq, Structural)]
pub enum EccCurveName {
    NistP256,
    NistP384,
    NistP521,
    Secp256k1,
    SM2,
}

impl EccCurveName {
    /// The byte length of a field element (and so of a private scalar) on
    /// this curve.
    pub fn field_size(&self) -> (r: usize)
        ensures
            r == self.spec_field_size(),
    {
        match self {
            EccCurveName::NistP256 => 32,
            EccCurveName::NistP384 => 48,
            EccCurveName::NistP521 => 66,
            EccCurveName::Secp256k1 => 32,
            EccCurveName::SM2 => 32,
        }
    }

    pub open spec fn spec_field_size(self) -> usize {
        match self {
            EccCurveName::NistP256 => 32usize,
            EccCurveName::NistP384 => 48usize,
            EccCurveName::NistP521 => 66usize,
            EccCurveName::Secp256k1 => 32usize,
            EccCurveName::SM2 => 32usize,
        }
    }

    /// The byte length of a compressed SEC1 point on this curve: one tag
    /// byte followed by the x coordinate.
    pub fn point_size(&self) -> (r: usize)
        ensures
            r == self.spec_field_size() + 1,
    {
        self.field_size() + 1
    }
}

/// The Edwards-form curves the engine supports.
#[derive(Clone, Copy, Debug, PartialEq, Eq, Structural)]
pub enum EdwardsCurveName {
    Curve25519,
}

/// The block-cipher modes of the symmetric layer.
#[derive(Clone, Copy, Debug, PartialEq, Eq, Structural)]
pub enum EncryptionMode {
    Ecb,
    Cbc,
    Gcm,
}

/// The text encodings in which byte payloads cross the engine boundary.
#[derive(Clone, Copy, Debug, PartialEq, Eq, Structural)]
pub enum TextEncoding {
    Base64,
    Utf8,
    Hex,
}

/// The ASN.1 containers for asymmetric key material.
#[derive(Clone, Copy, Debug, PartialEq, Eq, Structural)]
pub enum Pkcs {
    Pkcs8,
    Pkcs1,
    Sec1,
    Spki,
}

/// The serializations of a container: textual PEM or binary DER.
#[derive(Clone, Copy, Debug, PartialEq, Eq, Structural)]
pub enum KeyFormat {
    Pem,
    Der,
}

/// The AEAD algorithms ECIES can wrap its payload with.
#[derive(Clone, Copy, Debug, PartialEq, Eq, Structural)]
pub enum EciesEncryptionAlgorithm {
    AesGcm,
}

impl EciesEncryptionAlgorithm {
    /// The block-cipher mode this AEAD selection stands for.
    pub fn as_encryption_mode(&self) -> (r: EncryptionMode)
        ensures
            r == EncryptionMode::Gcm,
    {
        match self {
            EciesEncryptionAlgorithm::AesGcm => EncryptionMode::Gcm,
        }
    }
}

/// The RSA encryption paddings.
#[derive(Clone, Copy, Debug, PartialEq, Eq, Structural)]
pub enum RsaEncryptionPadding {
    Pkcs1v15,
    Oaep,
}

/// The paddings of the block-cipher modes.
#[derive(Clone, Copy, Debug, PartialEq, Eq, Structural)]
pub enum AesEncryptionPadding {
    Pkcs7Padding,
    NoPadding,
}

/// The digest algorithms the KDF layer is generic over.
#[derive(Clone, Copy, Debug, PartialEq, Eq, Structural)]
pub enum Digest {
    Sha1,
    Sha256,
    Sha384,
    Sha512,
    Sha3_256,
    Sha3_384,
    Sha3_512,
}

impl Digest {
    /// The output length of this digest in bytes.
    pub fn output_size(&self) -> (r: usize)
        ensures
            r == self.spec_output_size(),
    {
        match self {
            Digest::Sha1 => 20,
            Digest::Sha256 => 32,
            Digest::Sha384 => 48,
            Digest::Sha512 => 64,
            Digest::Sha3_256 => 32,
            Digest::Sha3_384 => 48,
            Digest::Sha3_512 => 64,
        }
    }

    pub open spec fn spec_output_size(self) -> usize {
        match self {
            Digest::Sha1 => 20usize,
            Digest::Sha256 => 32usize,
            Digest::Sha384 => 48usize,
            Digest::Sha512 => 64usize,
            Digest::Sha3_256 => 32usize,
            Digest::Sha3_384 => 48usize,
            Digest::Sha3_512 => 64usize,
        }
    }
}

/// The key-derivation functions of the KDF layer.
#[derive(Clone, Copy, Debug, PartialEq, Eq, Structural)]
pub enum Kdf {
    HKdf,
    Concatenation,
    PbKdf2,
    Scrypt,
}

impl Kdf {
    /// PBKDF2 and scrypt strengthen a password and demand a salt; HKDF and
    /// the concatenation KDF default an absent salt or info to empty.
    pub fn requires_salt(&self) -> (r: bool)
        ensures
            r == (self == Kdf::PbKdf2 || self == Kdf::Scrypt),
    {
        matches!(self, Kdf::PbKdf2 | Kdf::Scrypt)
    }
}

/// The JSON Web Key algorithm names the JWK layer hands out.
#[derive(Clone, Copy, Debug, PartialEq, Eq, Structural)]
pub enum JwkAlgorithm {
    Dir,
    A128KW,
    A192KW,
    A256KW,
    A128GCM,
    A192GCM,
    A256GCM,
    A128GCMKW,
    A192GCMKW,
    A256GCMKW,
    A128cbcHs256,
    A192cbcHs384,
    A256cbcHs512,
    HS256,
    HS384,
    HS512,
    ES256,
    ES384,
    ES521,
    ES256K,
    RS256,
    RS384,
    RS512,
    PS256,
    PS384,
    PS512,
    Rsa1_5,
    RsaOaep,
    RsaOaep256,
    RsaOaep384,
    RsaOaep521,
    EdDSA,
    EcdhEs,
    EcdhEsA128kw,
    EcdhEsA192kw,
    EcdhEsA256kw,
}

/// What a JSON Web Key may be used for.
#[derive(Clone, Copy, Debug, PartialEq, Eq, Structural)]
pub enum JwkeyUsage {
    Encryption,
    Signature,
}

} // verus!

//! The JSON Web Key selectors: key types, algorithms, usages and
//! operations, and the default algorithm of each key type.
//!
//! The JWK layer consumes the engine's key generators but adds no
//! cryptographic design of its own; only its closed selector sets and
//! their dispatch live here.

use vstd::prelude::*;

use crate::enums::RsaKeySize;

verus! {

/// The key types a JSON Web Key can carry.
#[derive(Clone, Copy, Debug, PartialEq, Eq, Structural)]
pub enum JwkeyType {
    RSA,
    EcDSA,
    Ed25519,
    X25519,
    Symmetric,
}

/// The JSON Web Key algorithm names.
#[derive(Clone, Copy, Debug, PartialEq, Eq, Structural)]
pub enum JwkeyAlgorithm {
    Dir,
    A128KW,
    A192KW,
    A256KW,
    A128GCM,
    A192GCM,
    A256GCM,
    A128GCMKW,
    A192GCMKW,
    A256GCMKW,
    A128cbcHs256,
    A192cbcHs384,
    A256cbcHs512,
    HS256,
    HS384,
    HS512,
    ES256,
    ES384,
    ES521,
    ES256K,
    RS256,
    RS384,
    RS512,
    PS256,
    PS384,
    PS512,
    Rsa1_5,
    RsaOaep,
    RsaOaep256,
    RsaOaep384,
    RsaOaep521,
    EdDSA,
    EcdhEs,
    EcdhEsA128kw,
    EcdhEsA192kw,
    EcdhEsA256kw,
}

/// What a JSON Web Key may be used for.
#[derive(Clone, Copy, Debug, PartialEq, Eq, Structural)]
pub enum JwkeyUsage {
    Encryption,
    Signature,
}

impl JwkeyUsage {
    /// The RFC 7517 `use` value of this usage.
    pub fn as_str(&self) -> (r: &'static str)
        ensures
            self == JwkeyUsage::Encryption ==> r@ == "enc"@,
            self == JwkeyUsage::Signature ==> r@ == "sig"@,
    {
        match self {
            JwkeyUsage::Encryption => "enc",
            JwkeyUsage::Signature => "sig",
        }
    }
}

/// The operations a JSON Web Key may be marked for.
#[derive(Clone, Copy, Debug, PartialEq, Eq, Structural)]
pub enum JwkeyOperation {
    Sign,
    Verify,
    Encrypt,
    Decrypt,
    WrapKey,
    UnwrapKey,
    DeriveKey,
    DeriveBits,
}

impl JwkeyType {
    /// The algorithm a key of this type is generated under when the
    /// caller names none.
    pub fn default_algorithm(self) -> (r: JwkeyAlgorithm)
        ensures
            r == self.spec_default_algorithm(),
    {
        match self {
            JwkeyType::RSA => JwkeyAlgorithm::RS256,
            JwkeyType::EcDSA => JwkeyAlgorithm::ES256,
            JwkeyType::Ed25519 => JwkeyAlgorithm::EdDSA,
            JwkeyType::X25519 => JwkeyAlgorithm::EcdhEs,
            JwkeyType::Symmetric => JwkeyAlgorithm::A256GCM,
        }
    }

    pub open spec fn spec_default_algorithm(self) -> JwkeyAlgorithm {
        match self {
            JwkeyType::RSA => JwkeyAlgorithm::RS256,
            JwkeyType::EcDSA => JwkeyAlgorithm::ES256,
            JwkeyType::Ed25519 => JwkeyAlgorithm::EdDSA,
            JwkeyType::X25519 => JwkeyAlgorithm::EcdhEs,
            JwkeyType::Symmetric => JwkeyAlgorithm::A256GCM,
        }
    }
}

/// A JSON Web Key generation request.
pub struct JwkGenerate {
    pub key_id: Option<String>,
    pub key_type: JwkeyType,
    pub algorithm: Option<JwkeyAlgorithm>,
    pub usage: Option<JwkeyUsage>,
    pub operations: Option<Vec<JwkeyOperation>>,
    pub bits: Option<RsaKeySize>,
}

} // verus!

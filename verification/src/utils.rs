//! The selector listings the engine hands its callers: every supported
//! curve, digest, KDF and algorithm, in the engine's fixed order, and
//! the algorithms and usages each JWK key type admits.

use vstd::prelude::*;

use crate::enums::{Digest, EccCurveName, EciesEncryptionAlgorithm, EdwardsCurveName, Kdf,
    RsaEncryptionPadding, RsaKeySize};
use crate::jwt::{JwkeyAlgorithm, JwkeyOperation, JwkeyType, JwkeyUsage};

verus! {

/// The supported Weierstrass curves, in the engine's priority order.
pub fn elliptic_curve() -> (r: Vec<EccCurveName>)
    ensures
        r@ == seq![
            EccCurveName::NistP256,
            EccCurveName::NistP384,
            EccCurveName::NistP521,
            EccCurveName::Secp256k1,
            EccCurveName::SM2,
        ],
{
    let mut v: Vec<EccCurveName> = Vec::new();
    v.push(EccCurveName::NistP256);
    v.push(EccCurveName::NistP384);
    v.push(EccCurveName::NistP521);
    v.push(EccCurveName::Secp256k1);
    v.push(EccCurveName::SM2);
    proof {
        assert(v@ =~= seq![
            EccCurveName::NistP256,
            EccCurveName::NistP384,
            EccCurveName::NistP521,
            EccCurveName::Secp256k1,
            EccCurveName::SM2,
        ]);
    }
    v
}

/// The supported Edwards curves.
pub fn edwards() -> (r: Vec<EdwardsCurveName>)
    ensures
        r@ == seq![EdwardsCurveName::Curve25519],
{
    let mut v: Vec<EdwardsCurveName> = Vec::new();
    v.push(EdwardsCurveName::Curve25519);
    proof {
        assert(v@ =~= seq![EdwardsCurveName::Curve25519]);
    }
    v
}

/// The supported key-derivation functions.
pub fn kdfs() -> (r: Vec<Kdf>)
    ensures
        r@ == seq![Kdf::HKdf, Kdf::Concatenation, Kdf::PbKdf2, Kdf::Scrypt],
{
    let mut v: Vec<Kdf> = Vec::new();
    v.push(Kdf::HKdf);
    v.push(Kdf::Concatenation);
    v.push(Kdf::PbKdf2);
    v.push(Kdf::Scrypt);
    proof {
        assert(v@ =~= seq![Kdf::HKdf, Kdf::Concatenation, Kdf::PbKdf2, Kdf::Scrypt]);
    }
    v
}

/// The supported digests.
pub fn digests() -> (r: Vec<Digest>)
    ensures
        r@ == seq![
            Digest::Sha1,
            Digest::Sha256,
            Digest::Sha384,
            Digest::Sha512,
            Digest::Sha3_256,
            Digest::Sha3_384,
            Digest::Sha3_512,
        ],
{
    let mut v: Vec<Digest> = Vec::new();
    v.push(Digest::Sha1);
    v.push(Digest::Sha256);
    v.push(Digest::Sha384);
    v.push(Digest::Sha512);
    v.push(Digest::Sha3_256);
    v.push(Digest::Sha3_384);
    v.push(Digest::Sha3_512);
    proof {
        assert(v@ =~= seq![
            Digest::Sha1,
            Digest::Sha256,
            Digest::Sha384,
            Digest::Sha512,
            Digest::Sha3_256,
            Digest::Sha3_384,
            Digest::Sha3_512,
        ]);
    }
    v
}

/// The AEAD algorithms ECIES can wrap its payload with.
pub fn ecies_enc_alg() -> (r: Vec<EciesEncryptionAlgorithm>)
    ensures
        r@ == seq![EciesEncryptionAlgorithm::AesGcm],
{
    let mut v: Vec<EciesEncryptionAlgorithm> = Vec::new();
    v.push(EciesEncryptionAlgorithm::AesGcm);
    proof {
        assert(v@ =~= seq![EciesEncryptionAlgorithm::AesGcm]);
    }
    v
}

/// The RSA modulus sizes the engine generates.
pub fn rsa_key_size() -> (r: Vec<RsaKeySize>)
    ensures
        r@ == seq![RsaKeySize::Rsa2048, RsaKeySize::Rsa3072, RsaKeySize::Rsa4096],
{
    let mut v: Vec<RsaKeySize> = Vec::new();
    v.push(RsaKeySize::Rsa2048);
    v.push(RsaKeySize::Rsa3072);
    v.push(RsaKeySize::Rsa4096);
    proof {
        assert(v@ =~= seq![RsaKeySize::Rsa2048, RsaKeySize::Rsa3072, RsaKeySize::Rsa4096]);
    }
    v
}

/// The RSA encryption paddings.
pub fn rsa_encryption_padding() -> (r: Vec<RsaEncryptionPadding>)
    ensures
        r@ == seq![RsaEncryptionPadding::Pkcs1v15, RsaEncryptionPadding::Oaep],
{
    let mut v: Vec<RsaEncryptionPadding> = Vec::new();
    v.push(RsaEncryptionPadding::Pkcs1v15);
    v.push(RsaEncryptionPadding::Oaep);
    proof {
        assert(v@ =~= seq![RsaEncryptionPadding::Pkcs1v15, RsaEncryptionPadding::Oaep]);
    }
    v
}

/// The JWK key types.
pub fn jwkey_type() -> (r: Vec<JwkeyType>)
    ensures
        r@ == seq![
            JwkeyType::RSA,
            JwkeyType::EcDSA,
            JwkeyType::Ed25519,
            JwkeyType::X25519,
            JwkeyType::Symmetric,
        ],
{
    let mut v: Vec<JwkeyType> = Vec::new();
    v.push(JwkeyType::RSA);
    v.push(JwkeyType::EcDSA);
    v.push(JwkeyType::Ed25519);
    v.push(JwkeyType::X25519);
    v.push(JwkeyType::Symmetric);
    proof {
        assert(v@ =~= seq![
            JwkeyType::RSA,
            JwkeyType::EcDSA,
            JwkeyType::Ed25519,
            JwkeyType::X25519,
            JwkeyType::Symmetric,
        ]);
    }
    v
}

/// The JWK key operations.
pub fn jwkey_operation() -> (r: Vec<JwkeyOperation>)
    ensures
        r@ == seq![
            JwkeyOperation::Sign,
            JwkeyOperation::Verify,
            JwkeyOperation::Encrypt,
            JwkeyOperation::Decrypt,
            JwkeyOperation::WrapKey,
            JwkeyOperation::UnwrapKey,
            JwkeyOperation::DeriveKey,
            JwkeyOperation::DeriveBits,
        ],
{
    let mut v: Vec<JwkeyOperation> = Vec::new();
    v.push(JwkeyOperation::Sign);
    v.push(JwkeyOperation::Verify);
    v.push(JwkeyOperation::Encrypt);
    v.push(JwkeyOperation::Decrypt);
    v.push(JwkeyOperation::WrapKey);
    v.push(JwkeyOperation::UnwrapKey);
    v.push(JwkeyOperation::DeriveKey);
    v.push(JwkeyOperation::DeriveBits);
    proof {
        assert(v@ =~= seq![
            JwkeyOperation::Sign,
            JwkeyOperation::Verify,
            JwkeyOperation::Encrypt,
            JwkeyOperation::Decrypt,
            JwkeyOperation::WrapKey,
            JwkeyOperation::UnwrapKey,
            JwkeyOperation::DeriveKey,
            JwkeyOperation::DeriveBits,
        ]);
    }
    v
}

/// The algorithms a JWK key type admits.
pub fn jwkey_algorithm(kty: JwkeyType) -> (r: Vec<JwkeyAlgorithm>)
    ensures
        kty == JwkeyType::RSA ==> r@ == seq![
            JwkeyAlgorithm::RS256,
            JwkeyAlgorithm::RS384,
            JwkeyAlgorithm::RS512,
            JwkeyAlgorithm::PS256,
            JwkeyAlgorithm::PS384,
            JwkeyAlgorithm::PS512,
        ],
        kty == JwkeyType::EcDSA ==> r@ == seq![
            JwkeyAlgorithm::ES256,
            JwkeyAlgorithm::ES384,
            JwkeyAlgorithm::ES521,
            JwkeyAlgorithm::ES256K,
        ],
        kty == JwkeyType::Ed25519 ==> r@ == seq![JwkeyAlgorithm::EdDSA],
        kty == JwkeyType::X25519 ==> r@ == seq![
            JwkeyAlgorithm::EcdhEs,
            JwkeyAlgorithm::EcdhEsA128kw,
            JwkeyAlgorithm::EcdhEsA192kw,
            JwkeyAlgorithm::EcdhEsA256kw,
        ],
        kty == JwkeyType::Symmetric ==> r@.len() == 16,
{
    let mut v: Vec<JwkeyAlgorithm> = Vec::new();
    match kty {
        JwkeyType::RSA => {
            v.push(JwkeyAlgorithm::RS256);
            v.push(JwkeyAlgorithm::RS384);
            v.push(JwkeyAlgorithm::RS512);
            v.push(JwkeyAlgorithm::PS256);
            v.push(JwkeyAlgorithm::PS384);
            v.push(JwkeyAlgorithm::PS512);
            proof {
                assert(v@ =~= seq![
                    JwkeyAlgorithm::RS256,
                    JwkeyAlgorithm::RS384,
                    JwkeyAlgorithm::RS512,
                    JwkeyAlgorithm::PS256,
                    JwkeyAlgorithm::PS384,
                    JwkeyAlgorithm::PS512,
                ]);
            }
        },
        JwkeyType::EcDSA => {
            v.push(JwkeyAlgorithm::ES256);
            v.push(JwkeyAlgorithm::ES384);
            v.push(JwkeyAlgorithm::ES521);
            v.push(JwkeyAlgorithm::ES256K);
            proof {
                assert(v@ =~= seq![
                    JwkeyAlgorithm::ES256,
                    JwkeyAlgorithm::ES384,
                    JwkeyAlgorithm::ES521,
                    JwkeyAlgorithm::ES256K,
                ]);
            }
        },
        JwkeyType::Ed25519 => {
            v.push(JwkeyAlgorithm::EdDSA);
            proof {
                assert(v@ =~= seq![JwkeyAlgorithm::EdDSA]);
            }
        },
        JwkeyType::X25519 => {
            v.push(JwkeyAlgorithm::EcdhEs);
            v.push(JwkeyAlgorithm::EcdhEsA128kw);
            v.push(JwkeyAlgorithm::EcdhEsA192kw);
            v.push(JwkeyAlgorithm::EcdhEsA256kw);
            proof {
                assert(v@ =~= seq![
                    JwkeyAlgorithm::EcdhEs,
                    JwkeyAlgorithm::EcdhEsA128kw,
                    JwkeyAlgorithm::EcdhEsA192kw,
                    JwkeyAlgorithm::EcdhEsA256kw,
                ]);
            }
        },
        JwkeyType::Symmetric => {
            v.push(JwkeyAlgorithm::Dir);
            v.push(JwkeyAlgorithm::HS256);
            v.push(JwkeyAlgorithm::A128GCM);
            v.push(JwkeyAlgorithm::A128GCMKW);
            v.push(JwkeyAlgorithm::A128KW);
            v.push(JwkeyAlgorithm::A128cbcHs256);
            v.push(JwkeyAlgorithm::HS384);
            v.push(JwkeyAlgorithm::A192GCM);
            v.push(JwkeyAlgorithm::A192GCMKW);
            v.push(JwkeyAlgorithm::A192KW);
            v.push(JwkeyAlgorithm::A192cbcHs384);
            v.push(JwkeyAlgorithm::HS512);
            v.push(JwkeyAlgorithm::A256GCM);
            v.push(JwkeyAlgorithm::A256GCMKW);
            v.push(JwkeyAlgorithm::A256KW);
            v.push(JwkeyAlgorithm::A256cbcHs512);
        },
    }
    v
}

/// The usages a JWK key type admits.
pub fn jwkey_usage(kty: JwkeyType) -> (r: Vec<JwkeyUsage>)
    ensures
        kty == JwkeyType::RSA || kty == JwkeyType::Symmetric ==> r@ == seq![
            JwkeyUsage::Encryption,
            JwkeyUsage::Signature,
        ],
        kty == JwkeyType::EcDSA || kty == JwkeyType::Ed25519 ==> r@ == seq![JwkeyUsage::Signature],
        kty == JwkeyType::X25519 ==> r@ == seq![JwkeyUsage::Encryption],
{
    let mut v: Vec<JwkeyUsage> = Vec::new();
    match kty {
        JwkeyType::RSA | JwkeyType::Symmetric => {
            v.push(JwkeyUsage::Encryption);
            v.push(JwkeyUsage::Signature);
            proof {
                assert(v@ =~= seq![JwkeyUsage::Encryption, JwkeyUsage::Signature]);
            }
        },
        JwkeyType::EcDSA | JwkeyType::Ed25519 => {
            v.push(JwkeyUsage::Signature);
            proof {
                assert(v@ =~= seq![JwkeyUsage::Signature]);
            }
        },
        JwkeyType::X25519 => {
            v.push(JwkeyUsage::Encryption);
            proof {
                assert(v@ =~= seq![JwkeyUsage::Encryption]);
            }
        },
    }
    v
}

} // verus!

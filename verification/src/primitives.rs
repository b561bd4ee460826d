//! The cryptographic and parsing primitives that the library takes from other
//! crates.
//!
//! Nothing in this file is proved.  Each function below calls one primitive
//! and is believed to return what its contract says; each contract names the
//! primitive's result as a function of the bytes handed in and says nothing
//! of what that result is.  All of them take and return plain bytes and text.

use p256::ecdsa::signature::Verifier;
use p256::ecdsa::{Signature, VerifyingKey};
use p256::pkcs8::DecodePublicKey;
use sha2::{Digest, Sha256};
use vstd::prelude::*;
use x509_parser::parse_x509_certificate;
use x509_parser::pem::parse_x509_pem;

verus! {

/// Size of a SHA-256 digest.
pub const SHA256_DIGEST_SIZE: usize = 32;

/// The SHA-256 digest of `data`.
pub uninterp spec fn sha256(data: Seq<u8>) -> Seq<u8>;

/// Whether `sec1` is the SEC1 encoding of a P-256 public key; if it is not,
/// the decoder's diagnostic text.
pub uninterp spec fn p256_key_decoding(sec1: Seq<u8>) -> Result<(), Seq<char>>;

/// Whether `signature`, as raw `r` followed by `s`, is a valid ECDSA signature
/// with SHA-256 of `message` under the P-256 public key that `key` encodes in
/// SEC1 form; if it is not, or if one of the two does not decode, the
/// verifier's diagnostic text.
pub uninterp spec fn p256_ecdsa_verification(
    key: Seq<u8>,
    message: Seq<u8>,
    signature: Seq<u8>,
) -> Result<(), Seq<char>>;

/// The uncompressed SEC1 encoding of the P-256 public key that the DER-encoded
/// SubjectPublicKeyInfo `spki` holds; if it holds none, the decoder's
/// diagnostic text.
pub uninterp spec fn p256_key_of_spki(spki: Seq<u8>) -> Result<Seq<u8>, Seq<char>>;

/// The decoded contents of the first PEM block in `document`; if there is
/// none, or it is malformed, the parser's diagnostic text.
pub uninterp spec fn pem_contents(document: Seq<u8>) -> Result<Seq<u8>, Seq<char>>;

/// The DER encoding of the SubjectPublicKeyInfo of the X.509 certificate at
/// the start of `der`; if `der` does not start with a certificate, the
/// parser's diagnostic text.
pub uninterp spec fn x509_public_key_info(der: Seq<u8>) -> Result<Seq<u8>, Seq<char>>;

/// What a primitive that only accepts or rejects returned, with the text
/// taken by its view.
pub open spec fn check_view(r: Result<(), String>) -> Result<(), Seq<char>> {
    match r {
        Ok(_) => Ok(()),
        Err(text) => Err(text@),
    }
}

/// What a primitive that yields bytes returned, with bytes and text taken by
/// their views.
pub open spec fn bytes_view(r: Result<Vec<u8>, String>) -> Result<Seq<u8>, Seq<char>> {
    match r {
        Ok(bytes) => Ok(bytes@),
        Err(text) => Err(text@),
    }
}

/// Calls `sha2::Sha256::digest`.  The contract names the digest and claims
/// that it has 32 bytes, the output size that the crate declares for SHA-256.
#[verifier::external_body]
pub(crate) fn sha256_digest(data: &[u8]) -> (digest: Vec<u8>)
    ensures
        digest@ == sha256(data@),
        digest@.len() == SHA256_DIGEST_SIZE,
{
    Sha256::digest(data).to_vec()
}

/// Calls `p256::ecdsa::VerifyingKey::from_sec1_bytes` and drops the key.  The
/// contract names the outcome: success, or the text of the crate's error.
#[verifier::external_body]
pub(crate) fn decode_sec1_key(sec1: &[u8]) -> (r: Result<(), String>)
    ensures
        check_view(r) == p256_key_decoding(sec1@),
{
    match VerifyingKey::from_sec1_bytes(sec1) {
        Ok(_) => Ok(()),
        Err(e) => Err(e.to_string()),
    }
}

/// Calls `verify` of `p256::ecdsa::VerifyingKey`, on a key decoded by
/// `VerifyingKey::from_sec1_bytes` and a signature decoded by
/// `Signature::try_from`.  The contract names the outcome: success, or the
/// text of the error of the first of the three calls that failed.
#[verifier::external_body]
pub(crate) fn ecdsa_verify(key: &[u8], message: &[u8], signature: &[u8]) -> (r: Result<
    (),
    String,
>)
    ensures
        check_view(r) == p256_ecdsa_verification(key@, message@, signature@),
{
    let key = match VerifyingKey::from_sec1_bytes(key) {
        Ok(key) => key,
        Err(e) => return Err(e.to_string()),
    };
    let signature = match Signature::try_from(signature) {
        Ok(signature) => signature,
        Err(e) => return Err(e.to_string()),
    };
    match key.verify(message, &signature) {
        Ok(_) => Ok(()),
        Err(e) => Err(e.to_string()),
    }
}

/// Calls `from_public_key_der` of `p256::ecdsa::VerifyingKey` and encodes the
/// key with `to_encoded_point`, uncompressed.  The contract names the
/// outcome: the encoded key, or the text of the crate's error.
#[verifier::external_body]
pub(crate) fn decode_spki_key(spki: &[u8]) -> (r: Result<Vec<u8>, String>)
    ensures
        bytes_view(r) == p256_key_of_spki(spki@),
{
    match VerifyingKey::from_public_key_der(spki) {
        Ok(key) => Ok(key.to_encoded_point(false).as_bytes().to_vec()),
        Err(e) => Err(e.to_string()),
    }
}

/// Calls `x509_parser::pem::parse_x509_pem` and keeps the contents of the
/// block it found.  The contract names the outcome: the contents, or the text
/// of the crate's error.
#[verifier::external_body]
pub(crate) fn decode_pem(document: &[u8]) -> (r: Result<Vec<u8>, String>)
    ensures
        bytes_view(r) == pem_contents(document@),
{
    match parse_x509_pem(document) {
        Ok((_, pem)) => Ok(pem.contents),
        Err(e) => Err(e.to_string()),
    }
}

/// Calls `x509_parser::parse_x509_certificate` and copies the raw
/// SubjectPublicKeyInfo of the certificate it found.  The contract names the
/// outcome: those bytes, or the text of the crate's error.
#[verifier::external_body]
pub(crate) fn decode_certificate_key_info(der: &[u8]) -> (r: Result<Vec<u8>, String>)
    ensures
        bytes_view(r) == x509_public_key_info(der@),
{
    match parse_x509_certificate(der) {
        Ok((_, certificate)) => Ok(certificate.public_key().raw.to_vec()),
        Err(e) => Err(e.to_string()),
    }
}

} // verus!

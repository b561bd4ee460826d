//! ECDSA over P-256 on the raw encodings that a quote uses.
//!
//! A quote holds a key as the coordinates `x` and `y` of a point, 32 bytes
//! each, without the tag byte that the SEC1 encoding puts in front, and a
//! signature as `r` followed by `s`, 32 bytes each, not as DER.

use crate::error::{verdict_view, Error, ErrorView, Verdict};
use crate::primitives::{
    decode_sec1_key, ecdsa_verify, p256_ecdsa_verification, p256_key_decoding,
};
use vstd::prelude::*;

verus! {

/// The tag byte of an uncompressed point in SEC1 encoding.
pub const SEC1_UNCOMPRESSED_TAG: u8 = 0x04;

/// The SEC1 encoding of the uncompressed point whose coordinates are `key`.
pub open spec fn tagged_point(key: Seq<u8>) -> Seq<u8> {
    seq![SEC1_UNCOMPRESSED_TAG] + key
}

/// The SEC1 encoding of the key that the raw coordinates `key` stand for, or
/// a `Key` error with the decoder's text if they are not a point of the curve.
pub open spec fn key_of_untagged(key: Seq<u8>) -> Result<Seq<u8>, ErrorView> {
    match p256_key_decoding(tagged_point(key)) {
        Ok(_) => Ok(tagged_point(key)),
        Err(text) => Err(ErrorView::Key(text)),
    }
}

/// The verdict on `signature` over `message` under the SEC1-encoded key
/// `key`: a `Signature` error with the verifier's text unless the verifier
/// accepts.
pub open spec fn signature_verdict(key: Seq<u8>, message: Seq<u8>, signature: Seq<u8>) -> Verdict {
    match p256_ecdsa_verification(key, message, signature) {
        Ok(_) => Ok(()),
        Err(text) => Err(ErrorView::Signature(text)),
    }
}

/// The verdict on `signature` over `message` under the raw key `key`: the key
/// is decoded first, so a key that is no point of the curve gives a `Key`
/// error whatever the signature is.
pub open spec fn raw_signature_verdict(
    message: Seq<u8>,
    signature: Seq<u8>,
    key: Seq<u8>,
) -> Verdict {
    match key_of_untagged(key) {
        Ok(sec1) => signature_verdict(sec1, message, signature),
        Err(e) => Err(e),
    }
}

/// A key to verify signatures with, held in SEC1 encoding.
#[derive(Debug)]
pub struct VerificationKey {
    sec1: Vec<u8>,
}

impl View for VerificationKey {
    type V = Seq<u8>;

    closed spec fn view(&self) -> Seq<u8> {
        self.sec1@
    }
}

/// What a key decoder returned, with key and error taken by their views.
pub open spec fn key_view(r: Result<VerificationKey, Error>) -> Result<Seq<u8>, ErrorView> {
    match r {
        Ok(key) => Ok(key@),
        Err(e) => Err(e@),
    }
}

impl VerificationKey {
    /// Takes a key that is already in SEC1 encoding.  Whether it encodes a
    /// point of the curve shows when a signature is verified with it.
    pub fn from_sec1_bytes(sec1: Vec<u8>) -> (key: VerificationKey)
        ensures
            key@ == sec1@,
    {
        VerificationKey { sec1 }
    }

    /// Decodes the raw coordinates of a point: puts the tag of an
    /// uncompressed point in front and has the result decoded as a key.
    pub fn from_untagged_bytes(key: &[u8]) -> (r: Result<VerificationKey, Error>)
        ensures
            key_view(r) == key_of_untagged(key@),
    {
        let mut sec1: Vec<u8> = Vec::new();
        sec1.push(SEC1_UNCOMPRESSED_TAG);
        sec1.extend_from_slice(key);
        assert(sec1@ =~= tagged_point(key@));
        match decode_sec1_key(sec1.as_slice()) {
            Ok(_) => Ok(VerificationKey { sec1 }),
            Err(text) => Err(Error::Key(text)),
        }
    }

    /// The SEC1 encoding of the key.
    pub fn as_bytes(&self) -> (sec1: &[u8])
        ensures
            sec1@ == self@,
    {
        self.sec1.as_slice()
    }

    /// Verifies the raw signature `signature` over `message`, the message
    /// itself and not a digest of it.
    pub fn verify(&self, message: &[u8], signature: &[u8]) -> (r: Result<(), Error>)
        ensures
            verdict_view(r) == signature_verdict(self@, message@, signature@),
    {
        match ecdsa_verify(self.sec1.as_slice(), message, signature) {
            Ok(_) => Ok(()),
            Err(text) => Err(Error::Signature(text)),
        }
    }
}

/// Verifies the raw signature `signature` over `message` under the raw key
/// `key`.
pub fn verify(message: &[u8], signature: &[u8], key: &[u8]) -> (r: Result<(), Error>)
    ensures
        verdict_view(r) == raw_signature_verdict(message@, signature@, key@),
{
    match VerificationKey::from_untagged_bytes(key) {
        Ok(key) => key.verify(message, signature),
        Err(e) => Err(e),
    }
}

} // verus!

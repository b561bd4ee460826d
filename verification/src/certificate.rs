//! The key of the certificate that a quote carries.
//!
//! The certificate is taken as it stands: neither its validity period nor its
//! signature nor its chain of issuance is looked at.  Whoever relies on the
//! key has to establish trust in the certificate by other means.

use crate::error::{Error, ErrorView};
use crate::primitives::{
    decode_certificate_key_info, decode_pem, decode_spki_key, p256_key_of_spki, pem_contents,
    x509_public_key_info,
};
use crate::signature::{key_view, VerificationKey};
use vstd::prelude::*;

verus! {

/// The contents of the first PEM block of `document`, or a `PemParsing` error
/// with the parser's text.
pub open spec fn pem_of(document: Seq<u8>) -> Result<Seq<u8>, ErrorView> {
    match pem_contents(document) {
        Ok(der) => Ok(der),
        Err(text) => Err(ErrorView::PemParsing(text)),
    }
}

/// The SEC1 encoding of the key of the certificate `der`.  A certificate that
/// does not parse gives a `PemParsing` error, a key that is not a P-256 key a
/// `Signature` error, each with the text of the decoder that failed.
pub open spec fn key_of_certificate(der: Seq<u8>) -> Result<Seq<u8>, ErrorView> {
    match x509_public_key_info(der) {
        Ok(spki) => match p256_key_of_spki(spki) {
            Ok(sec1) => Ok(sec1),
            Err(text) => Err(ErrorView::Signature(text)),
        },
        Err(text) => Err(ErrorView::PemParsing(text)),
    }
}

/// The SEC1 encoding of the key of the first certificate in the PEM document
/// `document`.
pub open spec fn key_of_pem(document: Seq<u8>) -> Result<Seq<u8>, ErrorView> {
    match pem_of(document) {
        Ok(der) => key_of_certificate(der),
        Err(e) => Err(e),
    }
}

/// A decoded PEM block.
#[derive(Debug)]
pub struct Pem {
    contents: Vec<u8>,
}

impl View for Pem {
    type V = Seq<u8>;

    closed spec fn view(&self) -> Seq<u8> {
        self.contents@
    }
}

/// What a PEM decoder returned, with contents and error taken by their views.
pub open spec fn pem_view(r: Result<Pem, Error>) -> Result<Seq<u8>, ErrorView> {
    match r {
        Ok(pem) => Ok(pem@),
        Err(e) => Err(e@),
    }
}

impl Pem {
    /// Decodes the first PEM block of `document`.
    pub fn parse(document: &[u8]) -> (r: Result<Pem, Error>)
        ensures
            pem_view(r) == pem_of(document@),
    {
        match decode_pem(document) {
            Ok(contents) => Ok(Pem { contents }),
            Err(text) => Err(Error::PemParsing(text)),
        }
    }

    /// The decoded contents of the block.
    pub fn contents(&self) -> (contents: &[u8])
        ensures
            contents@ == self@,
    {
        self.contents.as_slice()
    }

    /// Reads the block as an X.509 certificate and decodes its
    /// SubjectPublicKeyInfo as a P-256 key.
    pub fn verification_key(&self) -> (r: Result<VerificationKey, Error>)
        ensures
            key_view(r) == key_of_certificate(self@),
    {
        match decode_certificate_key_info(self.contents.as_slice()) {
            Ok(spki) => match decode_spki_key(spki.as_slice()) {
                Ok(sec1) => Ok(VerificationKey::from_sec1_bytes(sec1)),
                Err(text) => Err(Error::Signature(text)),
            },
            Err(text) => Err(Error::PemParsing(text)),
        }
    }
}

/// Extracts the verification key of the first certificate in the PEM
/// document `pem_bytes`.
pub fn extract_key(pem_bytes: &[u8]) -> (r: Result<VerificationKey, Error>)
    ensures
        key_view(r) == key_of_pem(pem_bytes@),
{
    match Pem::parse(pem_bytes) {
        Ok(pem) => pem.verification_key(),
        Err(e) => Err(e),
    }
}

} // verus!

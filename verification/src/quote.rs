//! The quote, its accessors and the three verification operations.
//!
//! Each operation checks one link of the chain of trust and is a function of
//! the quote's bytes alone: nothing is remembered between calls, so a caller
//! who wants the whole chain runs all three, and an outside check of the
//! certificate as well.

use crate::binding::{binding_verdict, check};
use crate::certificate::{key_of_pem, pem_of, pem_view, Pem};
use crate::error::{
    verdict_view, Error, ErrorView, Verdict, TRUNCATED_CERTIFICATION_DATA, TRUNCATED_KEY,
    TRUNCATED_SIGNATURE,
};
use crate::layout::{
    attestation_key, certification_data, field_view, header_and_enclave_report_body,
    isv_enclave_signature, qe_authentication_data, qe_authentication_data_size,
    quoting_enclave_report, quoting_enclave_report_data, quoting_enclave_signature, read_le_u16,
    region, take_region, take_tail, LengthError,
    ATTESTATION_KEY_START, CERTIFICATION_DATA_HEADER_SIZE, ENCLAVE_REPORT_DATA_SIZE,
    ENCLAVE_REPORT_SIZE, ISV_ENCLAVE_SIGNATURE_START, KEY_SIZE,
    QUOTING_ENCLAVE_AUTHENTICATION_DATA_SIZE_SIZE, QUOTING_ENCLAVE_AUTHENTICATION_DATA_SIZE_START,
    QUOTING_ENCLAVE_AUTHENTICATION_DATA_START, QUOTING_ENCLAVE_REPORT_DATA_START,
    QUOTING_ENCLAVE_REPORT_START, QUOTING_ENCLAVE_SIGNATURE_START, SIGNATURE_SIZE,
    SIGNED_QUOTE_SIZE,
};
use crate::signature::{key_of_untagged, key_view, signature_verdict, VerificationKey};
use vstd::prelude::*;
use vstd::slice::{slice_subrange, slice_to_vec};

verus! {

/// The attestation key of `quote`, decoded.  A quote that ends before the end
/// of the key gives a `Key` error, as a key that is no point of the curve
/// does.
pub open spec fn decoded_attestation_key(quote: Seq<u8>) -> Result<Seq<u8>, ErrorView> {
    match attestation_key(quote) {
        Ok(key) => key_of_untagged(key),
        Err(_) => Err(ErrorView::Key(TRUNCATED_KEY@)),
    }
}

/// The PEM block at the start of the certification data of `quote`, decoded.
/// A quote that ends before its certification data starts gives a
/// `PemParsing` error, as a malformed block does.
pub open spec fn pck_pem(quote: Seq<u8>) -> Result<Seq<u8>, ErrorView> {
    match certification_data(quote) {
        Ok(document) => pem_of(document),
        Err(_) => Err(ErrorView::PemParsing(TRUNCATED_CERTIFICATION_DATA@)),
    }
}

/// The verdict on the signature that `quote` holds at `signature_offset`,
/// over `message` under the SEC1-encoded key `key`.  A quote that ends before
/// the end of the signature gives a `Signature` error.
pub open spec fn signature_at_verdict(
    quote: Seq<u8>,
    message: Seq<u8>,
    signature_offset: int,
    key: Seq<u8>,
) -> Verdict {
    match region(quote, signature_offset, SIGNATURE_SIZE as int) {
        Ok(signature) => signature_verdict(key, message, signature),
        Err(_) => Err(ErrorView::Signature(TRUNCATED_SIGNATURE@)),
    }
}

/// The verdict of [`Quote::verify_enclave_report_body`].  The attestation key
/// is decoded first; a quote that holds it whole holds the signed region and
/// the signature too, which lie in front of it.
pub open spec fn enclave_report_body_verdict(quote: Seq<u8>) -> Verdict {
    match decoded_attestation_key(quote) {
        Ok(key) => signature_verdict(
            key,
            quote.subrange(0, SIGNED_QUOTE_SIZE as int),
            quote.subrange(
                ISV_ENCLAVE_SIGNATURE_START as int,
                ISV_ENCLAVE_SIGNATURE_START + SIGNATURE_SIZE,
            ),
        ),
        Err(e) => Err(e),
    }
}

/// The verdict of [`Quote::verify_quoting_enclave_report`].  The key is taken
/// from the certificate first; a quote that reaches its certification data
/// holds the quoting enclave's report and its signature too.
pub open spec fn quoting_enclave_report_verdict(quote: Seq<u8>) -> Verdict {
    match certification_data(quote) {
        Ok(document) => match key_of_pem(document) {
            Ok(key) => signature_verdict(
                key,
                quote.subrange(
                    QUOTING_ENCLAVE_REPORT_START as int,
                    QUOTING_ENCLAVE_REPORT_START + ENCLAVE_REPORT_SIZE,
                ),
                quote.subrange(
                    QUOTING_ENCLAVE_SIGNATURE_START as int,
                    QUOTING_ENCLAVE_SIGNATURE_START + SIGNATURE_SIZE,
                ),
            ),
            Err(e) => Err(e),
        },
        Err(_) => Err(ErrorView::PemParsing(TRUNCATED_CERTIFICATION_DATA@)),
    }
}

/// The verdict of [`Quote::verify_attestation_key`]: that of the binding on
/// the three fields it reads, and the same error where one of them is cut
/// short.
pub open spec fn attestation_key_verdict(quote: Seq<u8>) -> Verdict {
    match (
        attestation_key(quote),
        qe_authentication_data(quote),
        quoting_enclave_report_data(quote),
    ) {
        (Ok(key), Ok(auth_data), Ok(report_data)) => binding_verdict(key, auth_data, report_data),
        _ => Err(ErrorView::AttestationKey),
    }
}

/// A quote for DCAP attestation: the bytes as they were handed in.
#[derive(Debug)]
pub struct Quote {
    bytes: Vec<u8>,
}

impl View for Quote {
    type V = Seq<u8>;

    closed spec fn view(&self) -> Seq<u8> {
        self.bytes@
    }
}

impl Quote {
    /// Copies `bytes` into a new quote.  Nothing is checked here: a buffer of
    /// any length, the empty one too, makes a quote.
    pub fn from_bytes(bytes: &[u8]) -> (quote: Quote)
        ensures
            quote@ == bytes@,
    {
        Quote { bytes: slice_to_vec(bytes) }
    }

    /// The bytes of the quote.
    pub fn as_bytes(&self) -> (bytes: &[u8])
        ensures
            bytes@ == self@,
    {
        self.bytes.as_slice()
    }

    /// Verifies the enclave report body: the signature over the quote header
    /// and the enclave report body, under the attestation key.
    pub fn verify_enclave_report_body(&self) -> (r: Result<(), Error>)
        ensures
            verdict_view(r) == enclave_report_body_verdict(self@),
    {
        match self.get_attestation_key() {
            Ok(key) => {
                let bytes = self.get_header_and_enclave_report_body().unwrap();
                self.verify_signature(bytes, ISV_ENCLAVE_SIGNATURE_START, &key)
            },
            Err(e) => Err(e),
        }
    }

    /// Verifies the quoting enclave's report: the signature over it, under
    /// the key of the certificate that the quote carries.
    pub fn verify_quoting_enclave_report(&self) -> (r: Result<(), Error>)
        ensures
            verdict_view(r) == quoting_enclave_report_verdict(self@),
    {
        match self.get_pck_pem() {
            Ok(pem) => match pem.verification_key() {
                Ok(key) => {
                    let bytes = self.get_quoting_enclave_report().unwrap();
                    self.verify_signature(bytes, QUOTING_ENCLAVE_SIGNATURE_START, &key)
                },
                Err(e) => Err(e),
            },
            Err(e) => Err(e),
        }
    }

    /// Verifies that the attestation key is the one the quoting enclave
    /// vouches for in its report data.
    pub fn verify_attestation_key(&self) -> (r: Result<(), Error>)
        ensures
            verdict_view(r) == attestation_key_verdict(self@),
    {
        match self.get_qe_authentication_data() {
            Ok(auth_data) => {
                let key = self.get_attestation_key_bytes().unwrap();
                let report_data = self.get_quoting_enclave_report_data().unwrap();
                check(key, auth_data, report_data)
            },
            Err(_) => Err(Error::AttestationKey),
        }
    }

    /// The quote header followed by the enclave report body.
    pub fn get_header_and_enclave_report_body(&self) -> (r: Result<&[u8], LengthError>)
        ensures
            field_view(r) == header_and_enclave_report_body(self@),
    {
        take_region(self.bytes.as_slice(), 0, SIGNED_QUOTE_SIZE)
    }

    /// The signature over the header and the enclave report body.
    pub fn get_isv_enclave_signature(&self) -> (r: Result<&[u8], LengthError>)
        ensures
            field_view(r) == isv_enclave_signature(self@),
    {
        take_region(self.bytes.as_slice(), ISV_ENCLAVE_SIGNATURE_START, SIGNATURE_SIZE)
    }

    /// The raw attestation key.
    pub fn get_attestation_key_bytes(&self) -> (r: Result<&[u8], LengthError>)
        ensures
            field_view(r) == attestation_key(self@),
    {
        take_region(self.bytes.as_slice(), ATTESTATION_KEY_START, KEY_SIZE)
    }

    /// The quoting enclave's report.
    pub fn get_quoting_enclave_report(&self) -> (r: Result<&[u8], LengthError>)
        ensures
            field_view(r) == quoting_enclave_report(self@),
    {
        take_region(self.bytes.as_slice(), QUOTING_ENCLAVE_REPORT_START, ENCLAVE_REPORT_SIZE)
    }

    /// The report data of the quoting enclave's report.
    pub fn get_quoting_enclave_report_data(&self) -> (r: Result<&[u8], LengthError>)
        ensures
            field_view(r) == quoting_enclave_report_data(self@),
    {
        take_region(
            self.bytes.as_slice(),
            QUOTING_ENCLAVE_REPORT_DATA_START,
            ENCLAVE_REPORT_DATA_SIZE,
        )
    }

    /// The signature over the quoting enclave's report.
    pub fn get_quoting_enclave_signature(&self) -> (r: Result<&[u8], LengthError>)
        ensures
            field_view(r) == quoting_enclave_signature(self@),
    {
        take_region(self.bytes.as_slice(), QUOTING_ENCLAVE_SIGNATURE_START, SIGNATURE_SIZE)
    }

    /// The length that the quote declares for the authentication data.
    pub fn get_qe_authentication_data_size(&self) -> (r: Result<u16, LengthError>)
        ensures
            match r {
                Ok(size) => qe_authentication_data_size(self@) == Ok::<int, LengthError>(
                    size as int,
                ),
                Err(e) => qe_authentication_data_size(self@) == Err::<int, LengthError>(e),
            },
    {
        match take_region(
            self.bytes.as_slice(),
            QUOTING_ENCLAVE_AUTHENTICATION_DATA_SIZE_START,
            QUOTING_ENCLAVE_AUTHENTICATION_DATA_SIZE_SIZE,
        ) {
            Ok(size_bytes) => Ok(read_le_u16(size_bytes)),
            Err(e) => Err(e),
        }
    }

    /// The quoting enclave's authentication data.  The length in front of it
    /// is read first and held against what the quote has left.
    pub fn get_qe_authentication_data(&self) -> (r: Result<&[u8], LengthError>)
        ensures
            field_view(r) == qe_authentication_data(self@),
    {
        match self.get_qe_authentication_data_size() {
            Ok(data_length) => take_region(
                self.bytes.as_slice(),
                QUOTING_ENCLAVE_AUTHENTICATION_DATA_START,
                data_length as usize,
            ),
            Err(e) => Err(e),
        }
    }

    /// The body of the certification data, from behind its header to the end
    /// of the quote.  Where it starts follows from the length of the
    /// authentication data.
    pub fn get_certification_data(&self) -> (r: Result<&[u8], LengthError>)
        ensures
            field_view(r) == certification_data(self@),
    {
        match self.get_qe_authentication_data_size() {
            Ok(data_length) => take_tail(
                self.bytes.as_slice(),
                QUOTING_ENCLAVE_AUTHENTICATION_DATA_START + data_length as usize
                    + CERTIFICATION_DATA_HEADER_SIZE,
            ),
            Err(e) => Err(e),
        }
    }

    /// The key that verifies the signature over the header and the enclave
    /// report body.
    pub fn get_attestation_key(&self) -> (r: Result<VerificationKey, Error>)
        ensures
            key_view(r) == decoded_attestation_key(self@),
    {
        match self.get_attestation_key_bytes() {
            Ok(key) => VerificationKey::from_untagged_bytes(key),
            Err(_) => Err(Error::Key(String::from_str(TRUNCATED_KEY))),
        }
    }

    /// The PEM block of the certificate whose key signed the quoting
    /// enclave's report.  The certificate is not validated.
    pub fn get_pck_pem(&self) -> (r: Result<Pem, Error>)
        ensures
            pem_view(r) == pck_pem(self@),
    {
        match self.get_certification_data() {
            Ok(document) => Pem::parse(document),
            Err(_) => Err(Error::PemParsing(String::from_str(TRUNCATED_CERTIFICATION_DATA))),
        }
    }

    /// Verifies the signature that the quote holds at `signature_offset`,
    /// over `bytes`, the message itself and not a digest of it, under `key`.
    pub fn verify_signature(
        &self,
        bytes: &[u8],
        signature_offset: usize,
        key: &VerificationKey,
    ) -> (r: Result<(), Error>)
        ensures
            verdict_view(r) == signature_at_verdict(self@, bytes@, signature_offset as int, key@),
    {
        let available = self.bytes.len();
        if signature_offset <= available && available - signature_offset >= SIGNATURE_SIZE {
            let signature = slice_subrange(
                self.bytes.as_slice(),
                signature_offset,
                signature_offset + SIGNATURE_SIZE,
            );
            key.verify(bytes, signature)
        } else {
            Err(Error::Signature(String::from_str(TRUNCATED_SIGNATURE)))
        }
    }
}

} // verus!

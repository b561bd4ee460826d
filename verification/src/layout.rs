//! Byte layout of a DCAP quote (version 3, ECDSA P-256).
//!
//! Offsets and sizes follow the tables of the Intel SGX ECDSA quote library
//! reference.  Every field is described twice: as a constant for executable
//! code, and as a spec function on the quote's bytes that the contracts of
//! the accessors refer to.

use vstd::prelude::*;
use vstd::slice::slice_subrange;

verus! {

/// Size of the quote header.
pub const QUOTE_HEADER_SIZE: usize = 48;

/// Size of an enclave report body; the quoting enclave's report has the same
/// layout.
pub const ENCLAVE_REPORT_SIZE: usize = 384;

/// Offset of the report data inside an enclave report body.
pub const ENCLAVE_REPORT_DATA_OFFSET: usize = 320;

/// Size of the report data inside an enclave report body.
pub const ENCLAVE_REPORT_DATA_SIZE: usize = 64;

/// Size of the field that holds the length of the quote signature data.
pub const SIGNATURE_DATA_LENGTH_SIZE: usize = 4;

/// Size of a raw ECDSA signature, `r` followed by `s`.
pub const SIGNATURE_SIZE: usize = 64;

/// Size of a raw ECDSA key, `x` followed by `y`, without the SEC1 tag byte.
pub const KEY_SIZE: usize = 64;

/// Size of the signed region of the quote: the quote header and the enclave
/// report body.
pub const SIGNED_QUOTE_SIZE: usize = QUOTE_HEADER_SIZE + ENCLAVE_REPORT_SIZE;

/// Start of the signature over the header and the enclave report body.
pub const ISV_ENCLAVE_SIGNATURE_START: usize = SIGNED_QUOTE_SIZE + SIGNATURE_DATA_LENGTH_SIZE;

/// Start of the attestation key.
pub const ATTESTATION_KEY_START: usize = ISV_ENCLAVE_SIGNATURE_START + SIGNATURE_SIZE;

/// Start of the quoting enclave's report.
pub const QUOTING_ENCLAVE_REPORT_START: usize = ATTESTATION_KEY_START + KEY_SIZE;

/// Start of the report data inside the quoting enclave's report.
pub const QUOTING_ENCLAVE_REPORT_DATA_START: usize = QUOTING_ENCLAVE_REPORT_START
    + ENCLAVE_REPORT_DATA_OFFSET;

/// Size of the digest at the start of the quoting enclave's report data.  The
/// rest of the report data is zero.
pub const QUOTING_ENCLAVE_REPORT_DATA_DIGEST_SIZE: usize = 32;

/// Start of the signature over the quoting enclave's report.
pub const QUOTING_ENCLAVE_SIGNATURE_START: usize = QUOTING_ENCLAVE_REPORT_START
    + ENCLAVE_REPORT_SIZE;

/// Start of the little-endian length of the quoting enclave's authentication
/// data.
pub const QUOTING_ENCLAVE_AUTHENTICATION_DATA_SIZE_START: usize = QUOTING_ENCLAVE_SIGNATURE_START
    + SIGNATURE_SIZE;

/// Size of the length field of the authentication data.
pub const QUOTING_ENCLAVE_AUTHENTICATION_DATA_SIZE_SIZE: usize = 2;

/// Start of the quoting enclave's authentication data.
pub const QUOTING_ENCLAVE_AUTHENTICATION_DATA_START: usize =
    QUOTING_ENCLAVE_AUTHENTICATION_DATA_SIZE_START + QUOTING_ENCLAVE_AUTHENTICATION_DATA_SIZE_SIZE;

/// Size of the header of the certification data, which follows the
/// authentication data: a two-byte type and a four-byte length.
pub const CERTIFICATION_DATA_HEADER_SIZE: usize = 6;

/// A field does not fit into the bytes at hand.
#[derive(Clone, Copy, Debug, PartialEq, Eq, Structural)]
pub struct LengthError {
    /// Number of bytes that the buffer must hold for the field to be whole.
    pub required: usize,
    /// Number of bytes that the buffer holds.
    pub available: usize,
}

/// The `size` bytes of `bytes` that start at `start`, or the length that
/// `bytes` lacks.
pub open spec fn region(bytes: Seq<u8>, start: int, size: int) -> Result<Seq<u8>, LengthError> {
    if start + size <= bytes.len() {
        Ok(bytes.subrange(start, start + size))
    } else {
        Err(LengthError { required: (start + size) as usize, available: bytes.len() as usize })
    }
}

/// The bytes of `bytes` from `start` to its end.
pub open spec fn tail(bytes: Seq<u8>, start: int) -> Result<Seq<u8>, LengthError> {
    if start <= bytes.len() {
        Ok(bytes.subrange(start, bytes.len() as int))
    } else {
        Err(LengthError { required: start as usize, available: bytes.len() as usize })
    }
}

/// The number that two bytes encode in little-endian order.
pub open spec fn le_u16(low: u8, high: u8) -> int {
    low as int + 256 * (high as int)
}

/// The quote header followed by the enclave report body.
pub open spec fn header_and_enclave_report_body(quote: Seq<u8>) -> Result<Seq<u8>, LengthError> {
    region(quote, 0, SIGNED_QUOTE_SIZE as int)
}

/// The signature over the header and the enclave report body.
pub open spec fn isv_enclave_signature(quote: Seq<u8>) -> Result<Seq<u8>, LengthError> {
    region(quote, ISV_ENCLAVE_SIGNATURE_START as int, SIGNATURE_SIZE as int)
}

/// The raw attestation key.
pub open spec fn attestation_key(quote: Seq<u8>) -> Result<Seq<u8>, LengthError> {
    region(quote, ATTESTATION_KEY_START as int, KEY_SIZE as int)
}

/// The quoting enclave's report.
pub open spec fn quoting_enclave_report(quote: Seq<u8>) -> Result<Seq<u8>, LengthError> {
    region(quote, QUOTING_ENCLAVE_REPORT_START as int, ENCLAVE_REPORT_SIZE as int)
}

/// The report data of the quoting enclave's report.
pub open spec fn quoting_enclave_report_data(quote: Seq<u8>) -> Result<Seq<u8>, LengthError> {
    region(quote, QUOTING_ENCLAVE_REPORT_DATA_START as int, ENCLAVE_REPORT_DATA_SIZE as int)
}

/// The signature over the quoting enclave's report.
pub open spec fn quoting_enclave_signature(quote: Seq<u8>) -> Result<Seq<u8>, LengthError> {
    region(quote, QUOTING_ENCLAVE_SIGNATURE_START as int, SIGNATURE_SIZE as int)
}

/// The length that the quote declares for the authentication data.
pub open spec fn qe_authentication_data_size(quote: Seq<u8>) -> Result<int, LengthError> {
    match region(
        quote,
        QUOTING_ENCLAVE_AUTHENTICATION_DATA_SIZE_START as int,
        QUOTING_ENCLAVE_AUTHENTICATION_DATA_SIZE_SIZE as int,
    ) {
        Ok(field) => Ok(le_u16(field[0], field[1])),
        Err(e) => Err(e),
    }
}

/// The quoting enclave's authentication data: as many bytes as the length
/// field in front of it declares.
pub open spec fn qe_authentication_data(quote: Seq<u8>) -> Result<Seq<u8>, LengthError> {
    match qe_authentication_data_size(quote) {
        Ok(size) => region(quote, QUOTING_ENCLAVE_AUTHENTICATION_DATA_START as int, size),
        Err(e) => Err(e),
    }
}

/// Where the body of the certification data starts: behind the authentication
/// data and the header of the certification data.
pub open spec fn certification_data_start(quote: Seq<u8>) -> Result<int, LengthError> {
    match qe_authentication_data_size(quote) {
        Ok(size) => Ok(
            QUOTING_ENCLAVE_AUTHENTICATION_DATA_START + size + CERTIFICATION_DATA_HEADER_SIZE,
        ),
        Err(e) => Err(e),
    }
}

/// The body of the certification data: everything from its start to the end
/// of the quote.
pub open spec fn certification_data(quote: Seq<u8>) -> Result<Seq<u8>, LengthError> {
    match certification_data_start(quote) {
        Ok(start) => tail(quote, start),
        Err(e) => Err(e),
    }
}

/// What a fallible accessor returned, with the slice taken by its view.
pub open spec fn field_view(r: Result<&[u8], LengthError>) -> Result<Seq<u8>, LengthError> {
    match r {
        Ok(field) => Ok(field@),
        Err(e) => Err(e),
    }
}

/// Borrows `size` bytes of `bytes` from `start`, if `bytes` holds them.
pub fn take_region<'a>(bytes: &'a [u8], start: usize, size: usize) -> (r: Result<
    &'a [u8],
    LengthError,
>)
    requires
        start + size <= usize::MAX,
    ensures
        field_view(r) == region(bytes@, start as int, size as int),
{
    let end = start + size;
    if end <= bytes.len() {
        Ok(slice_subrange(bytes, start, end))
    } else {
        Err(LengthError { required: end, available: bytes.len() })
    }
}

/// Reads the number that the two bytes of `field` encode in little-endian
/// order.
pub fn read_le_u16(field: &[u8]) -> (value: u16)
    requires
        field@.len() == 2,
    ensures
        value == le_u16(field@[0], field@[1]),
{
    let low: u16 = field[0] as u16;
    let high: u16 = field[1] as u16;
    low + 256 * high
}

/// Borrows the bytes of `bytes` from `start` to its end, if `start` lies
/// inside `bytes` or at its end.
pub fn take_tail<'a>(bytes: &'a [u8], start: usize) -> (r: Result<&'a [u8], LengthError>)
    ensures
        field_view(r) == tail(bytes@, start as int),
{
    if start <= bytes.len() {
        Ok(slice_subrange(bytes, start, bytes.len()))
    } else {
        Err(LengthError { required: start, available: bytes.len() })
    }
}

} // verus!

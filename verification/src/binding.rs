//! The binding of the attestation key to the quoting enclave's report.
//!
//! The quoting enclave vouches for the attestation key by putting a digest
//! into the report data of its own report: SHA-256 over the raw key followed
//! by the authentication data.  The digest fills the first half of the report
//! data; the second half is zero.

use crate::error::{verdict_view, Error, ErrorView, Verdict};
use crate::layout::{ENCLAVE_REPORT_DATA_SIZE, KEY_SIZE, QUOTING_ENCLAVE_REPORT_DATA_DIGEST_SIZE};
use crate::primitives::{sha256, sha256_digest};
use vstd::prelude::*;
use vstd::slice::{slice_subrange, slice_to_vec};

verus! {

/// Every byte of `bytes` is zero.
pub open spec fn all_zero(bytes: Seq<u8>) -> bool {
    forall|i: int| 0 <= i < bytes.len() ==> bytes[i] == 0
}

/// The digest that binds `attestation_key` and `auth_data`.
pub open spec fn binding_digest(attestation_key: Seq<u8>, auth_data: Seq<u8>) -> Seq<u8> {
    sha256(attestation_key + auth_data)
}

/// `report_data` binds `attestation_key` and `auth_data`: key and report data
/// have their sizes, the report data starts with the binding digest, and all
/// that follows the digest is zero.
pub open spec fn key_is_bound(
    attestation_key: Seq<u8>,
    auth_data: Seq<u8>,
    report_data: Seq<u8>,
) -> bool {
    &&& attestation_key.len() == KEY_SIZE
    &&& report_data.len() == ENCLAVE_REPORT_DATA_SIZE
    &&& report_data.subrange(0, QUOTING_ENCLAVE_REPORT_DATA_DIGEST_SIZE as int) == binding_digest(
        attestation_key,
        auth_data,
    )
    &&& all_zero(
        report_data.subrange(
            QUOTING_ENCLAVE_REPORT_DATA_DIGEST_SIZE as int,
            ENCLAVE_REPORT_DATA_SIZE as int,
        ),
    )
}

/// The verdict on the binding: one error for every way in which it can fail.
pub open spec fn binding_verdict(
    attestation_key: Seq<u8>,
    auth_data: Seq<u8>,
    report_data: Seq<u8>,
) -> Verdict {
    if key_is_bound(attestation_key, auth_data, report_data) {
        Ok(())
    } else {
        Err(ErrorView::AttestationKey)
    }
}

/// Compares two byte strings.
pub fn bytes_equal(a: &[u8], b: &[u8]) -> (equal: bool)
    ensures
        equal == (a@ == b@),
{
    if a.len() != b.len() {
        return false;
    }
    let mut i: usize = 0;
    while i < a.len()
        invariant
            a@.len() == b@.len(),
            i <= a@.len(),
            forall|j: int| 0 <= j < i ==> a@[j] == b@[j],
        decreases a@.len() - i,
    {
        if a[i] != b[i] {
            return false;
        }
        i += 1;
    }
    assert(a@ =~= b@);
    true
}

/// Tells whether every byte of `bytes` is zero.
pub fn is_all_zero(bytes: &[u8]) -> (zero: bool)
    ensures
        zero == all_zero(bytes@),
{
    let mut i: usize = 0;
    while i < bytes.len()
        invariant
            i <= bytes@.len(),
            forall|j: int| 0 <= j < i ==> bytes@[j] == 0,
        decreases bytes@.len() - i,
    {
        if bytes[i] != 0 {
            return false;
        }
        i += 1;
    }
    true
}

/// Checks that `report_data` binds `attestation_key` and `auth_data`.
pub fn check(attestation_key: &[u8], auth_data: &[u8], report_data: &[u8]) -> (r: Result<
    (),
    Error,
>)
    ensures
        verdict_view(r) == binding_verdict(attestation_key@, auth_data@, report_data@),
{
    if attestation_key.len() != KEY_SIZE || report_data.len() != ENCLAVE_REPORT_DATA_SIZE {
        return Err(Error::AttestationKey);
    }
    let mut bound = slice_to_vec(attestation_key);
    bound.extend_from_slice(auth_data);
    assert(bound@ =~= attestation_key@ + auth_data@);
    let digest = sha256_digest(bound.as_slice());

    let stated = slice_subrange(report_data, 0, QUOTING_ENCLAVE_REPORT_DATA_DIGEST_SIZE);
    let padding = slice_subrange(
        report_data,
        QUOTING_ENCLAVE_REPORT_DATA_DIGEST_SIZE,
        ENCLAVE_REPORT_DATA_SIZE,
    );
    if bytes_equal(stated, digest.as_slice()) && is_all_zero(padding) {
        Ok(())
    } else {
        Err(Error::AttestationKey)
    }
}

} // verus!

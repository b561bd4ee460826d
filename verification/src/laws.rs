//! What holds of the verification operations on every quote.

use crate::binding::{all_zero, binding_digest, key_is_bound};
use crate::error::{ErrorView, TRUNCATED_CERTIFICATION_DATA};
use crate::layout::{
    attestation_key, certification_data, certification_data_start, qe_authentication_data,
    qe_authentication_data_size, quoting_enclave_report_data, ATTESTATION_KEY_START,
    ENCLAVE_REPORT_DATA_SIZE, ENCLAVE_REPORT_SIZE, ISV_ENCLAVE_SIGNATURE_START, KEY_SIZE,
    QUOTING_ENCLAVE_AUTHENTICATION_DATA_SIZE_START, QUOTING_ENCLAVE_AUTHENTICATION_DATA_START,
    QUOTING_ENCLAVE_REPORT_DATA_DIGEST_SIZE, QUOTING_ENCLAVE_REPORT_DATA_START,
    QUOTING_ENCLAVE_REPORT_START, QUOTING_ENCLAVE_SIGNATURE_START, SIGNATURE_SIZE,
    SIGNED_QUOTE_SIZE,
};
use crate::quote::{
    attestation_key_verdict, decoded_attestation_key, enclave_report_body_verdict,
    quoting_enclave_report_verdict, Quote,
};
use vstd::prelude::*;

verus! {

/// `index` lies in one of the three fields that the binding of the
/// attestation key reads: the key, the report data of the quoting enclave's
/// report, and the authentication data with the length in front of it.
pub open spec fn in_binding_fields(quote: Seq<u8>, index: int) -> bool {
    ||| ATTESTATION_KEY_START <= index < ATTESTATION_KEY_START + KEY_SIZE
    ||| QUOTING_ENCLAVE_REPORT_DATA_START <= index < QUOTING_ENCLAVE_REPORT_DATA_START
        + ENCLAVE_REPORT_DATA_SIZE
    ||| qe_authentication_data_size(quote) matches Ok(size)
        && QUOTING_ENCLAVE_AUTHENTICATION_DATA_SIZE_START <= index
        < QUOTING_ENCLAVE_AUTHENTICATION_DATA_START + size
}

/// `index` lies in one of the fields that the verification of the enclave
/// report body reads: the header with the enclave report body, the signature
/// over them, and the attestation key.
pub open spec fn in_enclave_report_body_fields(index: int) -> bool {
    ||| 0 <= index < SIGNED_QUOTE_SIZE
    ||| ISV_ENCLAVE_SIGNATURE_START <= index < ATTESTATION_KEY_START + KEY_SIZE
}

/// `index` lies in one of the fields that the verification of the quoting
/// enclave's report reads: the report, the signature over it, the length of
/// the authentication data, by which the certification data is found, and
/// the certification data.
pub open spec fn in_quoting_enclave_report_fields(quote: Seq<u8>, index: int) -> bool {
    ||| QUOTING_ENCLAVE_REPORT_START <= index < QUOTING_ENCLAVE_AUTHENTICATION_DATA_START
    ||| certification_data_start(quote) matches Ok(start) && start <= index
}

/// Two quotes with the same bytes get the same verdict from each of the three
/// operations: a verdict depends on nothing but the bytes, so asking again
/// gives the same answer.
pub proof fn lemma_verdicts_follow_bytes(first: Quote, second: Quote)
    requires
        first@ == second@,
    ensures
        enclave_report_body_verdict(first@) == enclave_report_body_verdict(second@),
        quoting_enclave_report_verdict(first@) == quoting_enclave_report_verdict(second@),
        attestation_key_verdict(first@) == attestation_key_verdict(second@),
{
}

/// The verification of the enclave report body fails with a `Key` error or a
/// `Signature` error and no other; with a `Signature` error where the quote
/// holds an attestation key that decodes.
pub proof fn lemma_enclave_report_body_failures(quote: Seq<u8>)
    ensures
        enclave_report_body_verdict(quote) matches Err(e) ==> e is Key || e is Signature,
        decoded_attestation_key(quote) is Ok ==> (enclave_report_body_verdict(quote) matches Err(e)
            ==> e is Signature),
{
}

/// The verification of the quoting enclave's report fails with a `PemParsing`
/// error or a `Signature` error and no other.
pub proof fn lemma_quoting_enclave_report_failures(quote: Seq<u8>)
    ensures
        quoting_enclave_report_verdict(quote) matches Err(e) ==> e is PemParsing || e is Signature,
{
}

/// A quote cut off before the place where its certification data starts fails
/// the verification of the quoting enclave's report with a `PemParsing`
/// error.  So does one cut off from a quote that is too short to say where
/// its certification data starts.
pub proof fn lemma_truncation_before_certificate(quote: Seq<u8>, length: int)
    requires
        0 <= length <= quote.len(),
        certification_data_start(quote) matches Ok(start) ==> length < start,
    ensures
        quoting_enclave_report_verdict(quote.subrange(0, length)) == Err::<(), ErrorView>(
            ErrorView::PemParsing(TRUNCATED_CERTIFICATION_DATA@),
        ),
{
    let cut = quote.subrange(0, length);
    assert(certification_data(cut) is Err);
}

/// Where the attestation key of a quote is bound, changing one byte of the
/// report data of the quoting enclave's report, in the digest or in the zero
/// bytes behind it, unbinds it.
pub proof fn lemma_report_data_change_unbinds(quote: Seq<u8>, index: int, byte: u8)
    requires
        attestation_key_verdict(quote) is Ok,
        QUOTING_ENCLAVE_REPORT_DATA_START <= index < QUOTING_ENCLAVE_REPORT_DATA_START
            + ENCLAVE_REPORT_DATA_SIZE,
        byte != quote[index],
    ensures
        attestation_key_verdict(quote.update(index, byte)) == Err::<(), ErrorView>(
            ErrorView::AttestationKey,
        ),
{
    let changed = quote.update(index, byte);
    let key = attestation_key(quote)->Ok_0;
    let auth_data = qe_authentication_data(quote)->Ok_0;
    let report_data = quoting_enclave_report_data(quote)->Ok_0;
    let position = index - QUOTING_ENCLAVE_REPORT_DATA_START;
    assert(attestation_key(changed)->Ok_0 =~= key);
    assert(qe_authentication_data_size(changed) == qe_authentication_data_size(quote));
    assert(qe_authentication_data(changed)->Ok_0 =~= auth_data);
    let changed_data = quoting_enclave_report_data(changed)->Ok_0;
    assert(changed_data =~= report_data.update(position, byte));
    if position < QUOTING_ENCLAVE_REPORT_DATA_DIGEST_SIZE {
        let digest = binding_digest(key, auth_data);
        let stated = changed_data.subrange(0, QUOTING_ENCLAVE_REPORT_DATA_DIGEST_SIZE as int);
        assert(report_data.subrange(0, QUOTING_ENCLAVE_REPORT_DATA_DIGEST_SIZE as int)[position]
            == digest[position]);
        assert(stated[position] == byte);
        assert(stated != digest);
    } else {
        let padding = report_data.subrange(
            QUOTING_ENCLAVE_REPORT_DATA_DIGEST_SIZE as int,
            ENCLAVE_REPORT_DATA_SIZE as int,
        );
        let changed_padding = changed_data.subrange(
            QUOTING_ENCLAVE_REPORT_DATA_DIGEST_SIZE as int,
            ENCLAVE_REPORT_DATA_SIZE as int,
        );
        let offset = position - QUOTING_ENCLAVE_REPORT_DATA_DIGEST_SIZE;
        assert(padding[offset] == 0);
        assert(changed_padding[offset] == byte);
        assert(!all_zero(changed_padding));
    }
    assert(!key_is_bound(key, auth_data, changed_data));
}

/// Changing a byte that lies in none of the fields which the binding reads
/// leaves the verdict on the attestation key as it was.
pub proof fn lemma_binding_ignores_other_bytes(quote: Seq<u8>, index: int, byte: u8)
    requires
        0 <= index < quote.len(),
        !in_binding_fields(quote, index),
    ensures
        attestation_key_verdict(quote.update(index, byte)) == attestation_key_verdict(quote),
{
    let changed = quote.update(index, byte);
    assert(qe_authentication_data_size(changed) == qe_authentication_data_size(quote));
    if qe_authentication_data(quote) is Ok {
        assert(attestation_key(changed)->Ok_0 =~= attestation_key(quote)->Ok_0);
        assert(qe_authentication_data(changed)->Ok_0 =~= qe_authentication_data(quote)->Ok_0);
        assert(quoting_enclave_report_data(changed)->Ok_0 =~= quoting_enclave_report_data(
            quote,
        )->Ok_0);
    }
}

/// Changing a byte that lies in none of the fields which the verification of
/// the enclave report body reads leaves its verdict as it was.
pub proof fn lemma_enclave_report_body_ignores_other_bytes(quote: Seq<u8>, index: int, byte: u8)
    requires
        0 <= index < quote.len(),
        !in_enclave_report_body_fields(index),
    ensures
        enclave_report_body_verdict(quote.update(index, byte)) == enclave_report_body_verdict(
            quote,
        ),
{
    let changed = quote.update(index, byte);
    if attestation_key(quote) is Ok {
        assert(attestation_key(changed)->Ok_0 =~= attestation_key(quote)->Ok_0);
        assert(changed.subrange(0, SIGNED_QUOTE_SIZE as int) =~= quote.subrange(
            0,
            SIGNED_QUOTE_SIZE as int,
        ));
        assert(changed.subrange(
            ISV_ENCLAVE_SIGNATURE_START as int,
            ISV_ENCLAVE_SIGNATURE_START + SIGNATURE_SIZE,
        ) =~= quote.subrange(
            ISV_ENCLAVE_SIGNATURE_START as int,
            ISV_ENCLAVE_SIGNATURE_START + SIGNATURE_SIZE,
        ));
    }
}

/// Changing a byte that lies in none of the fields which the verification of
/// the quoting enclave's report reads leaves its verdict as it was.
pub proof fn lemma_quoting_enclave_report_ignores_other_bytes(
    quote: Seq<u8>,
    index: int,
    byte: u8,
)
    requires
        0 <= index < quote.len(),
        !in_quoting_enclave_report_fields(quote, index),
    ensures
        quoting_enclave_report_verdict(quote.update(index, byte))
            == quoting_enclave_report_verdict(quote),
{
    let changed = quote.update(index, byte);
    assert(qe_authentication_data_size(changed) == qe_authentication_data_size(quote));
    if certification_data(quote) is Ok {
        assert(certification_data(changed)->Ok_0 =~= certification_data(quote)->Ok_0);
        assert(changed.subrange(
            QUOTING_ENCLAVE_REPORT_START as int,
            QUOTING_ENCLAVE_REPORT_START + ENCLAVE_REPORT_SIZE,
        ) =~= quote.subrange(
            QUOTING_ENCLAVE_REPORT_START as int,
            QUOTING_ENCLAVE_REPORT_START + ENCLAVE_REPORT_SIZE,
        ));
        assert(changed.subrange(
            QUOTING_ENCLAVE_SIGNATURE_START as int,
            QUOTING_ENCLAVE_SIGNATURE_START + SIGNATURE_SIZE,
        ) =~= quote.subrange(
            QUOTING_ENCLAVE_SIGNATURE_START as int,
            QUOTING_ENCLAVE_SIGNATURE_START + SIGNATURE_SIZE,
        ));
    }
}

} // verus!

//! The three verification operations on a reference quote and on copies of it
//! with one thing changed.

use p256::ecdsa::signature::Signer;
use p256::ecdsa::{Signature, SigningKey};
use quote_verify::layout::{
    ATTESTATION_KEY_START, ENCLAVE_REPORT_DATA_SIZE, ENCLAVE_REPORT_SIZE,
    ISV_ENCLAVE_SIGNATURE_START, KEY_SIZE, QUOTE_HEADER_SIZE,
    QUOTING_ENCLAVE_AUTHENTICATION_DATA_SIZE_START, QUOTING_ENCLAVE_AUTHENTICATION_DATA_START,
    QUOTING_ENCLAVE_REPORT_DATA_DIGEST_SIZE, QUOTING_ENCLAVE_REPORT_DATA_START,
    QUOTING_ENCLAVE_REPORT_START, QUOTING_ENCLAVE_SIGNATURE_START, SIGNATURE_SIZE,
};
use quote_verify::certificate::{extract_key, Pem};
use quote_verify::error::{TRUNCATED_CERTIFICATION_DATA, TRUNCATED_KEY, TRUNCATED_SIGNATURE};
use quote_verify::signature::VerificationKey;
use quote_verify::{Error, LengthError, Quote};
use sha2::{Digest, Sha256};

/// Length of the authentication data in the reference quote.
const AUTHENTICATION_DATA_SIZE: usize = 32;

/// Where the PEM certificate starts in the reference quote.
const CERTIFICATE_START: usize = 0x41C;

/// The key that signs the enclave report of the reference quote.
fn attestation_signer() -> SigningKey {
    let scalar = [
        0xC9, 0xAF, 0xA9, 0xD8, 0x45, 0xBA, 0x75, 0x16, 0x6B, 0x5C, 0x21, 0x57, 0x67, 0xB1, 0xD6,
        0x93, 0x4E, 0x50, 0xC3, 0xDB, 0x36, 0xE8, 0x9B, 0x12, 0x7B, 0x8A, 0x62, 0x2B, 0x12, 0x0F,
        0x67, 0x21,
    ];
    SigningKey::from_slice(&scalar).expect("a scalar of the curve")
}

/// The key of the certificate in the reference quote.
fn pck_signer() -> SigningKey {
    SigningKey::from_slice(&[0x11; 32]).expect("a scalar of the curve")
}

/// The SEC1 encoding of the public key of `signer`, uncompressed.
fn sec1(signer: &SigningKey) -> Vec<u8> {
    signer.verifying_key().to_encoded_point(false).as_bytes().to_vec()
}

/// The raw signature of `signer` over `message`.
fn sign(signer: &SigningKey, message: &[u8]) -> Vec<u8> {
    let signature: Signature = signer.sign(message);
    signature.to_bytes().to_vec()
}

/// One DER element.
fn der(tag: u8, content: &[u8]) -> Vec<u8> {
    let mut out = vec![tag];
    let length = content.len();
    if length < 128 {
        out.push(length as u8);
    } else if length < 256 {
        out.push(0x81);
        out.push(length as u8);
    } else {
        out.push(0x82);
        out.push((length >> 8) as u8);
        out.push((length & 0xFF) as u8);
    }
    out.extend_from_slice(content);
    out
}

/// The DER encoding of the SubjectPublicKeyInfo of the public key of `signer`.
fn subject_public_key_info(signer: &SigningKey) -> Vec<u8> {
    let ec_public_key = der(0x06, &[0x2A, 0x86, 0x48, 0xCE, 0x3D, 0x02, 0x01]);
    let prime256v1 = der(0x06, &[0x2A, 0x86, 0x48, 0xCE, 0x3D, 0x03, 0x01, 0x07]);
    let algorithm = der(0x30, &[ec_public_key, prime256v1].concat());
    let key = der(0x03, &[vec![0x00], sec1(signer)].concat());
    der(0x30, &[algorithm, key].concat())
}

/// A self-signed X.509 certificate for the public key of `signer`, in DER.
fn certificate_der(signer: &SigningKey) -> Vec<u8> {
    let ecdsa_with_sha256 =
        der(0x30, &der(0x06, &[0x2A, 0x86, 0x48, 0xCE, 0x3D, 0x04, 0x03, 0x02]));
    let common_name = [der(0x06, &[0x55, 0x04, 0x03]), der(0x0C, b"Test PCK Certificate")];
    let name = der(0x30, &der(0x31, &der(0x30, &common_name.concat())));
    let validity =
        der(0x30, &[der(0x17, b"230101000000Z"), der(0x17, b"330101000000Z")].concat());
    let tbs = der(
        0x30,
        &[
            der(0xA0, &der(0x02, &[0x02])),
            der(0x02, &[0x01]),
            ecdsa_with_sha256.clone(),
            name.clone(),
            validity,
            name,
            subject_public_key_info(signer),
        ]
        .concat(),
    );
    let signature: Signature = signer.sign(&tbs);
    let signature = der(0x03, &[vec![0x00], signature.to_der().as_bytes().to_vec()].concat());
    der(0x30, &[tbs, ecdsa_with_sha256, signature].concat())
}

/// Base64 with padding.
fn base64(data: &[u8]) -> String {
    let alphabet = b"ABCDEFGHIJKLMNOPQRSTUVWXYZabcdefghijklmnopqrstuvwxyz0123456789+/";
    let mut out = String::new();
    for chunk in data.chunks(3) {
        let b0 = chunk[0] as usize;
        let b1 = if chunk.len() > 1 { chunk[1] as usize } else { 0 };
        let b2 = if chunk.len() > 2 { chunk[2] as usize } else { 0 };
        out.push(alphabet[b0 >> 2] as char);
        out.push(alphabet[((b0 & 0x03) << 4) | (b1 >> 4)] as char);
        if chunk.len() > 1 {
            out.push(alphabet[((b1 & 0x0F) << 2) | (b2 >> 6)] as char);
        } else {
            out.push('=');
        }
        if chunk.len() > 2 {
            out.push(alphabet[b2 & 0x3F] as char);
        } else {
            out.push('=');
        }
    }
    out
}

/// `contents` as a PEM block with the label of a certificate.
fn pem(contents: &[u8]) -> Vec<u8> {
    let mut out = String::from("-----BEGIN CERTIFICATE-----\n");
    let encoded = base64(contents);
    for line in encoded.as_bytes().chunks(64) {
        out.push_str(std::str::from_utf8(line).expect("base64 is ASCII"));
        out.push('\n');
    }
    out.push_str("-----END CERTIFICATE-----\n");
    out.into_bytes()
}

/// A quote in which every link of the chain of trust holds, with
/// authentication data of `authentication_data_size` bytes.
fn quote_with_authentication_data(authentication_data_size: usize) -> Vec<u8> {
    let attestation = attestation_signer();
    let pck = pck_signer();
    let mut quote: Vec<u8> = Vec::new();

    // Header: version 3, attestation key type 2, then a pattern.
    quote.extend_from_slice(&[3, 0, 2, 0]);
    quote.extend((4..QUOTE_HEADER_SIZE).map(|i| (i * 7 + 1) as u8));
    // Enclave report body.
    quote.extend((0..ENCLAVE_REPORT_SIZE).map(|i| (i * 13 + 5) as u8));
    let signed = quote.clone();

    let certificate = pem(&certificate_der(&pck));
    let signature_data_size =
        2 * SIGNATURE_SIZE + KEY_SIZE + ENCLAVE_REPORT_SIZE + 2 + authentication_data_size + 6
            + certificate.len();
    quote.extend_from_slice(&(signature_data_size as u32).to_le_bytes());
    assert_eq!(quote.len(), ISV_ENCLAVE_SIGNATURE_START);
    quote.extend_from_slice(&sign(&attestation, &signed));
    assert_eq!(quote.len(), ATTESTATION_KEY_START);
    let attestation_key = sec1(&attestation)[1..].to_vec();
    quote.extend_from_slice(&attestation_key);
    assert_eq!(quote.len(), QUOTING_ENCLAVE_REPORT_START);

    let authentication_data: Vec<u8> =
        (0..authentication_data_size).map(|i| (i * 3 + 2) as u8).collect();
    let mut report: Vec<u8> = (0..ENCLAVE_REPORT_SIZE).map(|i| (i * 11 + 17) as u8).collect();
    let mut hasher = Sha256::new();
    hasher.update(&attestation_key);
    hasher.update(&authentication_data);
    let digest = hasher.finalize();
    let report_data = &mut report[320..320 + ENCLAVE_REPORT_DATA_SIZE];
    report_data[..QUOTING_ENCLAVE_REPORT_DATA_DIGEST_SIZE].copy_from_slice(&digest);
    report_data[QUOTING_ENCLAVE_REPORT_DATA_DIGEST_SIZE..].fill(0);
    quote.extend_from_slice(&report);
    assert_eq!(quote.len(), QUOTING_ENCLAVE_SIGNATURE_START);
    quote.extend_from_slice(&sign(&pck, &report));
    assert_eq!(quote.len(), QUOTING_ENCLAVE_AUTHENTICATION_DATA_SIZE_START);
    quote.extend_from_slice(&(authentication_data_size as u16).to_le_bytes());
    assert_eq!(quote.len(), QUOTING_ENCLAVE_AUTHENTICATION_DATA_START);
    quote.extend_from_slice(&authentication_data);

    // Certification data: type 5, a chain of PEM certificates, and its size.
    quote.extend_from_slice(&5u16.to_le_bytes());
    quote.extend_from_slice(&(certificate.len() as u32).to_le_bytes());
    quote.extend_from_slice(&certificate);
    quote
}

/// The reference quote.
fn hw_quote() -> Vec<u8> {
    let quote = quote_with_authentication_data(AUTHENTICATION_DATA_SIZE);
    assert_eq!(&quote[CERTIFICATE_START..CERTIFICATE_START + 10], b"-----BEGIN");
    quote
}

#[test]
fn verify_valid_quote_report() {
    let quote = Quote::from_bytes(&hw_quote());
    assert!(quote.verify_quoting_enclave_report().is_ok());
}

#[test]
fn invalid_quote_report() {
    let mut bad_quote = hw_quote();
    bad_quote[QUOTING_ENCLAVE_REPORT_START + 1] = 0;
    let quote = Quote::from_bytes(&bad_quote);
    assert!(matches!(
        quote.verify_quoting_enclave_report(),
        Err(Error::Signature(_))
    ));
}

#[test]
fn failure_to_parse_pem_certificates() {
    let quote = Quote::from_bytes(&hw_quote()[..0x41c]);
    assert!(matches!(
        quote.verify_quoting_enclave_report(),
        Err(Error::PemParsing(_))
    ));
}

#[test]
fn failure_to_load_certificate() {
    let mut bad_cert = hw_quote();
    bad_cert[0x440] = 0;
    let quote = Quote::from_bytes(&bad_cert);

    assert!(matches!(
        quote.verify_quoting_enclave_report(),
        Err(Error::PemParsing(_))
    ));
}

#[test]
fn verify_valid_enclave_report_body() {
    let quote = Quote::from_bytes(&hw_quote());
    assert!(quote.verify_enclave_report_body().is_ok());
}

#[test]
fn failed_signature_for_enclave_report_body() {
    let mut bytes = hw_quote();
    bytes[ISV_ENCLAVE_SIGNATURE_START] = 1;
    let quote = Quote::from_bytes(&bytes);
    assert!(matches!(
        quote.verify_enclave_report_body(),
        Err(Error::Signature(_))
    ));
}

#[test]
fn failed_to_load_attestation_key_for_enclave_report() {
    let mut identity = [0; KEY_SIZE];
    let mut bytes = hw_quote();

    bytes[ATTESTATION_KEY_START..ATTESTATION_KEY_START + KEY_SIZE]
        .swap_with_slice(&mut identity);
    let quote = Quote::from_bytes(&bytes);

    assert!(matches!(
        quote.verify_enclave_report_body(),
        Err(Error::Key(_))
    ));
}

#[test]
fn verify_valid_attestation_key() {
    let quote = Quote::from_bytes(&hw_quote());
    assert!(quote.verify_attestation_key().is_ok());
}

#[test]
fn invalid_attestation_key() {
    let mut bytes = hw_quote();
    bytes[ATTESTATION_KEY_START] = 1;
    let quote = Quote::from_bytes(&bytes);
    assert_eq!(quote.verify_attestation_key(), Err(Error::AttestationKey));
}

#[test]
fn no_trailing_zeros_after_quote_report_data_digest() {
    let mut bytes = hw_quote();
    bytes[QUOTING_ENCLAVE_REPORT_DATA_START + QUOTING_ENCLAVE_REPORT_DATA_DIGEST_SIZE] = 1;
    let quote = Quote::from_bytes(&bytes);
    assert_eq!(quote.verify_attestation_key(), Err(Error::AttestationKey));
}

#[test]
fn no_trailing_zeros_at_end_of_quote_report_data_digest() {
    let mut bytes = hw_quote();
    bytes[QUOTING_ENCLAVE_REPORT_DATA_START + (ENCLAVE_REPORT_DATA_SIZE - 1)] = 1;
    let quote = Quote::from_bytes(&bytes);
    assert_eq!(quote.verify_attestation_key(), Err(Error::AttestationKey));
}

#[test]
fn construction_takes_any_length() {
    assert_eq!(Quote::from_bytes(&[]).as_bytes(), &[] as &[u8]);
    assert_eq!(Quote::from_bytes(&[7]).as_bytes(), &[7]);
    let bytes = hw_quote();
    assert_eq!(Quote::from_bytes(&bytes).as_bytes(), &bytes[..]);
}

#[test]
fn empty_quote_fails_every_operation() {
    let quote = Quote::from_bytes(&[]);
    assert_eq!(
        quote.verify_enclave_report_body(),
        Err(Error::Key(TRUNCATED_KEY.to_string()))
    );
    assert_eq!(
        quote.verify_quoting_enclave_report(),
        Err(Error::PemParsing(TRUNCATED_CERTIFICATION_DATA.to_string()))
    );
    assert_eq!(quote.verify_attestation_key(), Err(Error::AttestationKey));
}

#[test]
fn operations_are_repeatable() {
    let good = Quote::from_bytes(&hw_quote());
    let mut bytes = hw_quote();
    bytes[10] ^= 0xFF;
    bytes[QUOTING_ENCLAVE_REPORT_START] ^= 0xFF;
    bytes[QUOTING_ENCLAVE_REPORT_DATA_START] ^= 0xFF;
    let bad = Quote::from_bytes(&bytes);
    for quote in [&good, &bad] {
        assert_eq!(quote.verify_enclave_report_body(), quote.verify_enclave_report_body());
        assert_eq!(
            quote.verify_quoting_enclave_report(),
            quote.verify_quoting_enclave_report()
        );
        assert_eq!(quote.verify_attestation_key(), quote.verify_attestation_key());
    }
    assert!(good.verify_enclave_report_body().is_ok());
    assert!(bad.verify_enclave_report_body().is_err());
}

#[test]
fn flipped_byte_in_header_or_report_body_fails_the_signature() {
    for index in [0, 1, 47, 48, 200, 431] {
        let mut bytes = hw_quote();
        bytes[index] ^= 0x01;
        let quote = Quote::from_bytes(&bytes);
        assert!(
            matches!(quote.verify_enclave_report_body(), Err(Error::Signature(_))),
            "index {}",
            index
        );
        assert!(quote.verify_quoting_enclave_report().is_ok());
        assert!(quote.verify_attestation_key().is_ok());
    }
}

#[test]
fn flipped_byte_in_quoting_enclave_report_fails_the_signature() {
    for offset in [0, 100, 319, 383] {
        let mut bytes = hw_quote();
        bytes[QUOTING_ENCLAVE_REPORT_START + offset] ^= 0x80;
        let quote = Quote::from_bytes(&bytes);
        assert!(
            matches!(quote.verify_quoting_enclave_report(), Err(Error::Signature(_))),
            "offset {}",
            offset
        );
        assert!(quote.verify_enclave_report_body().is_ok());
    }
}

#[test]
fn signature_error_carries_the_verifier_text() {
    let mut bytes = hw_quote();
    bytes[0] ^= 0x01;
    let quote = Quote::from_bytes(&bytes);
    assert_eq!(
        quote.verify_enclave_report_body(),
        Err(Error::Signature("signature error".to_string()))
    );
}

#[test]
fn flipped_byte_in_attestation_key_fails_with_key_or_signature() {
    for offset in 0..KEY_SIZE {
        let mut bytes = hw_quote();
        bytes[ATTESTATION_KEY_START + offset] ^= 0x01;
        let quote = Quote::from_bytes(&bytes);
        let result = quote.verify_enclave_report_body();
        assert!(
            matches!(result, Err(Error::Key(_)) | Err(Error::Signature(_))),
            "offset {}: {:?}",
            offset,
            result
        );
    }
}

#[test]
fn truncation_before_the_certificate_is_a_pem_error() {
    let bytes = hw_quote();
    for length in [0, 1, 500, 1011, 1012, 1013, 1014, 1046, 1051] {
        let quote = Quote::from_bytes(&bytes[..length]);
        assert_eq!(
            quote.verify_quoting_enclave_report(),
            Err(Error::PemParsing(TRUNCATED_CERTIFICATION_DATA.to_string())),
            "length {}",
            length
        );
    }
}

#[test]
fn truncation_inside_the_certificate_is_a_pem_error() {
    let bytes = hw_quote();
    for length in [CERTIFICATE_START + 5, CERTIFICATE_START + 100, bytes.len() - 30] {
        let quote = Quote::from_bytes(&bytes[..length]);
        assert!(
            matches!(quote.verify_quoting_enclave_report(), Err(Error::PemParsing(_))),
            "length {}",
            length
        );
    }
}

#[test]
fn corrupted_certificate_is_a_pem_error() {
    // Inside the header line, inside the base64 text, and a certificate that
    // decodes to something which is no certificate.
    for index in [CERTIFICATE_START + 3, CERTIFICATE_START + 40] {
        let mut bytes = hw_quote();
        bytes[index] = b'!';
        let quote = Quote::from_bytes(&bytes);
        assert!(
            matches!(quote.verify_quoting_enclave_report(), Err(Error::PemParsing(_))),
            "index {}",
            index
        );
    }
    let mut bytes = hw_quote()[..CERTIFICATE_START].to_vec();
    bytes.extend_from_slice(&pem(b"no certificate"));
    let quote = Quote::from_bytes(&bytes);
    assert!(matches!(
        quote.verify_quoting_enclave_report(),
        Err(Error::PemParsing(_))
    ));
}

#[test]
fn certificate_with_another_kind_of_key_is_a_signature_error() {
    // The SubjectPublicKeyInfo names the curve secp384r1 in place of P-256.
    let mut der_bytes = certificate_der(&pck_signer());
    let prime256v1 = [0x2A, 0x86, 0x48, 0xCE, 0x3D, 0x03, 0x01, 0x07];
    let at = der_bytes
        .windows(prime256v1.len())
        .position(|window| window == prime256v1)
        .expect("the curve is named");
    der_bytes[at + 7] = 0x08;
    let mut bytes = hw_quote()[..CERTIFICATE_START].to_vec();
    bytes.extend_from_slice(&pem(&der_bytes));
    let quote = Quote::from_bytes(&bytes);
    assert!(matches!(
        quote.verify_quoting_enclave_report(),
        Err(Error::Signature(_))
    ));
}

#[test]
fn certificate_of_another_key_fails_the_signature() {
    let mut bytes = hw_quote()[..CERTIFICATE_START].to_vec();
    bytes.extend_from_slice(&pem(&certificate_der(&attestation_signer())));
    let quote = Quote::from_bytes(&bytes);
    assert!(matches!(
        quote.verify_quoting_enclave_report(),
        Err(Error::Signature(_))
    ));
}

#[test]
fn flipped_byte_in_report_data_unbinds_the_key() {
    for offset in 0..ENCLAVE_REPORT_DATA_SIZE {
        let mut bytes = hw_quote();
        bytes[QUOTING_ENCLAVE_REPORT_DATA_START + offset] ^= 0x01;
        let quote = Quote::from_bytes(&bytes);
        assert_eq!(
            quote.verify_attestation_key(),
            Err(Error::AttestationKey),
            "offset {}",
            offset
        );
    }
}

#[test]
fn bytes_outside_the_binding_do_not_matter_to_it() {
    let length = hw_quote().len();
    for index in [
        0,
        ISV_ENCLAVE_SIGNATURE_START,
        ATTESTATION_KEY_START - 1,
        QUOTING_ENCLAVE_REPORT_START,
        QUOTING_ENCLAVE_REPORT_DATA_START - 1,
        QUOTING_ENCLAVE_SIGNATURE_START,
        QUOTING_ENCLAVE_AUTHENTICATION_DATA_START + AUTHENTICATION_DATA_SIZE,
        length - 1,
    ] {
        let mut bytes = hw_quote();
        bytes[index] ^= 0xFF;
        let quote = Quote::from_bytes(&bytes);
        assert_eq!(quote.verify_attestation_key(), Ok(()), "index {}", index);
    }
}

#[test]
fn changed_authentication_data_unbinds_the_key() {
    let mut bytes = hw_quote();
    bytes[QUOTING_ENCLAVE_AUTHENTICATION_DATA_START + 5] ^= 0x01;
    let quote = Quote::from_bytes(&bytes);
    assert_eq!(quote.verify_attestation_key(), Err(Error::AttestationKey));
}

#[test]
fn changed_authentication_data_length_unbinds_the_key() {
    let mut bytes = hw_quote();
    bytes[QUOTING_ENCLAVE_AUTHENTICATION_DATA_SIZE_START] = 31;
    let quote = Quote::from_bytes(&bytes);
    assert_eq!(quote.verify_attestation_key(), Err(Error::AttestationKey));
}

#[test]
fn authentication_data_longer_than_the_quote_is_refused() {
    let mut bytes = hw_quote();
    bytes[QUOTING_ENCLAVE_AUTHENTICATION_DATA_SIZE_START] = 0xFF;
    bytes[QUOTING_ENCLAVE_AUTHENTICATION_DATA_SIZE_START + 1] = 0xFF;
    let quote = Quote::from_bytes(&bytes);
    assert_eq!(
        quote.get_qe_authentication_data(),
        Err(LengthError { required: 1014 + 0xFFFF, available: bytes.len() })
    );
    assert_eq!(
        quote.get_certification_data(),
        Err(LengthError { required: 1014 + 0xFFFF + 6, available: bytes.len() })
    );
    assert_eq!(quote.verify_attestation_key(), Err(Error::AttestationKey));
    assert_eq!(
        quote.verify_quoting_enclave_report(),
        Err(Error::PemParsing(TRUNCATED_CERTIFICATION_DATA.to_string()))
    );
}

#[test]
fn certificate_is_found_behind_authentication_data_of_any_length() {
    for size in [0, 1, 48, 300] {
        let bytes = quote_with_authentication_data(size);
        let quote = Quote::from_bytes(&bytes);
        assert_eq!(quote.get_qe_authentication_data().map(|data| data.len()), Ok(size));
        let start = 1014 + size + 6;
        assert_eq!(quote.get_certification_data(), Ok(&bytes[start..]));
        assert_eq!(quote.verify_quoting_enclave_report(), Ok(()), "size {}", size);
        assert_eq!(quote.verify_attestation_key(), Ok(()), "size {}", size);
        assert_eq!(quote.verify_enclave_report_body(), Ok(()), "size {}", size);
    }
}

#[test]
fn authentication_data_length_is_little_endian() {
    let bytes = quote_with_authentication_data(0x0102);
    assert_eq!(bytes[QUOTING_ENCLAVE_AUTHENTICATION_DATA_SIZE_START], 0x02);
    assert_eq!(bytes[QUOTING_ENCLAVE_AUTHENTICATION_DATA_SIZE_START + 1], 0x01);
    let quote = Quote::from_bytes(&bytes);
    assert_eq!(
        quote.get_qe_authentication_data(),
        Ok(&bytes[1014..1014 + 258])
    );
}

#[test]
fn accessors_return_the_fields_of_the_layout() {
    let bytes = hw_quote();
    let quote = Quote::from_bytes(&bytes);
    assert_eq!(quote.get_header_and_enclave_report_body(), Ok(&bytes[0..432]));
    assert_eq!(quote.get_isv_enclave_signature(), Ok(&bytes[436..500]));
    assert_eq!(quote.get_attestation_key_bytes(), Ok(&bytes[500..564]));
    assert_eq!(quote.get_quoting_enclave_report(), Ok(&bytes[564..948]));
    assert_eq!(quote.get_quoting_enclave_report_data(), Ok(&bytes[884..948]));
    assert_eq!(quote.get_quoting_enclave_signature(), Ok(&bytes[948..1012]));
    assert_eq!(quote.get_qe_authentication_data(), Ok(&bytes[1014..1046]));
    assert_eq!(quote.get_certification_data(), Ok(&bytes[1052..]));
}

#[test]
fn accessors_fail_one_byte_short_of_their_field() {
    let bytes = hw_quote();
    let short = |length: usize| Quote::from_bytes(&bytes[..length]);
    let error = |required: usize| LengthError { required, available: required - 1 };
    assert_eq!(short(431).get_header_and_enclave_report_body(), Err(error(432)));
    assert_eq!(short(432).get_header_and_enclave_report_body(), Ok(&bytes[..432]));
    assert_eq!(short(499).get_isv_enclave_signature(), Err(error(500)));
    assert_eq!(short(563).get_attestation_key_bytes(), Err(error(564)));
    assert_eq!(short(564).get_attestation_key_bytes(), Ok(&bytes[500..564]));
    assert_eq!(short(947).get_quoting_enclave_report(), Err(error(948)));
    assert_eq!(short(947).get_quoting_enclave_report_data(), Err(error(948)));
    assert_eq!(short(1011).get_quoting_enclave_signature(), Err(error(1012)));
    assert_eq!(short(1013).get_qe_authentication_data(), Err(error(1014)));
    assert_eq!(short(1045).get_qe_authentication_data(), Err(error(1046)));
    assert_eq!(short(1046).get_qe_authentication_data(), Ok(&bytes[1014..1046]));
    assert_eq!(short(1013).get_certification_data(), Err(error(1014)));
    assert_eq!(short(1051).get_certification_data(), Err(error(1052)));
    assert_eq!(short(1052).get_certification_data(), Ok(&bytes[1052..1052]));
    assert_eq!(
        Quote::from_bytes(&[]).get_header_and_enclave_report_body(),
        Err(LengthError { required: 432, available: 0 })
    );
}

#[test]
fn truncated_quote_gives_a_key_error_for_the_enclave_report_body() {
    let bytes = hw_quote();
    for length in [0, 431, 432, 500, 563] {
        let quote = Quote::from_bytes(&bytes[..length]);
        assert_eq!(
            quote.verify_enclave_report_body(),
            Err(Error::Key(TRUNCATED_KEY.to_string())),
            "length {}",
            length
        );
        assert_eq!(quote.verify_attestation_key(), Err(Error::AttestationKey));
    }
    let quote = Quote::from_bytes(&bytes[..564]);
    assert_eq!(quote.verify_enclave_report_body(), Ok(()));
}

#[test]
fn attestation_key_is_decoded_with_the_tag_in_front() {
    let bytes = hw_quote();
    let quote = Quote::from_bytes(&bytes);
    let key = quote.get_attestation_key().expect("a point of the curve");
    assert_eq!(key.as_bytes().len(), 65);
    assert_eq!(key.as_bytes()[0], 0x04);
    assert_eq!(&key.as_bytes()[1..], &bytes[500..564]);
    assert_eq!(key.as_bytes(), &sec1(&attestation_signer())[..]);
}

#[test]
fn signature_is_verified_where_the_offset_says() {
    let bytes = hw_quote();
    let quote = Quote::from_bytes(&bytes);
    let key = quote.get_attestation_key().unwrap();
    let message = &bytes[..432];
    assert_eq!(quote.verify_signature(message, ISV_ENCLAVE_SIGNATURE_START, &key), Ok(()));
    assert!(matches!(
        quote.verify_signature(message, ISV_ENCLAVE_SIGNATURE_START + 1, &key),
        Err(Error::Signature(_))
    ));
    assert!(matches!(
        quote.verify_signature(message, QUOTING_ENCLAVE_SIGNATURE_START, &key),
        Err(Error::Signature(_))
    ));
    for offset in [bytes.len() - 63, bytes.len(), usize::MAX - 10, usize::MAX] {
        assert_eq!(
            quote.verify_signature(message, offset, &key),
            Err(Error::Signature(TRUNCATED_SIGNATURE.to_string())),
            "offset {}",
            offset
        );
    }
}

#[test]
fn pem_of_the_quote_holds_the_certificate() {
    let quote = Quote::from_bytes(&hw_quote());
    let pem_block = quote.get_pck_pem().expect("a PEM block");
    assert_eq!(pem_block.contents(), &certificate_der(&pck_signer())[..]);
    let key = pem_block.verification_key().expect("a P-256 key");
    assert_eq!(key.as_bytes(), &sec1(&pck_signer())[..]);
}

#[test]
fn pem_parse_decodes_the_first_block() {
    let first = pem(b"first block");
    let second = pem(b"second block");
    let document = [b"leading text\n".to_vec(), first, second].concat();
    let block = Pem::parse(&document).expect("a PEM block");
    assert_eq!(block.contents(), b"first block");
}

#[test]
fn pem_parse_reports_what_is_wrong() {
    assert_eq!(
        Pem::parse(b"").map(|_| ()),
        Err(Error::PemParsing("Parsing Error: MissingHeader".to_string()))
    );
    assert_eq!(
        Pem::parse(b"-----BEGIN CERTIFICATE-----\nAAAA\n").map(|_| ()),
        Err(Error::PemParsing("Parsing Error: IncompletePEM".to_string()))
    );
    assert_eq!(
        Pem::parse(b"-----BEGIN CERTIFICATE-----\n!!!!\n-----END CERTIFICATE-----\n")
            .map(|_| ()),
        Err(Error::PemParsing("Parsing Error: Base64DecodeError".to_string()))
    );
}

#[test]
fn extract_key_gives_the_key_of_the_certificate() {
    let document = pem(&certificate_der(&pck_signer()));
    let key = extract_key(&document).expect("a P-256 key");
    assert_eq!(key.as_bytes(), &sec1(&pck_signer())[..]);
    assert_ne!(key.as_bytes(), &sec1(&attestation_signer())[..]);
}

#[test]
fn extract_key_tells_pem_errors_from_key_errors() {
    assert!(matches!(extract_key(b"not PEM"), Err(Error::PemParsing(_))));
    assert!(matches!(
        extract_key(&pem(b"not a certificate")),
        Err(Error::PemParsing(_))
    ));
    // A certificate whose key is no point of the curve.
    let mut der_bytes = certificate_der(&pck_signer());
    let point = sec1(&pck_signer());
    let at = der_bytes
        .windows(point.len())
        .position(|window| window == &point[..])
        .expect("the key is in the certificate");
    der_bytes[at + 64] ^= 0x01;
    assert!(matches!(
        extract_key(&pem(&der_bytes)),
        Err(Error::Signature(_))
    ));
}

#[test]
fn key_from_certificate_verifies_what_its_owner_signed() {
    let key = extract_key(&pem(&certificate_der(&pck_signer()))).unwrap();
    let signature = sign(&pck_signer(), b"message");
    assert_eq!(key.verify(b"message", &signature), Ok(()));
    assert!(matches!(
        key.verify(b"massage", &signature),
        Err(Error::Signature(_))
    ));
    let other = sign(&attestation_signer(), b"message");
    assert!(matches!(key.verify(b"message", &other), Err(Error::Signature(_))));
}

#[test]
fn key_that_does_not_decode_fails_the_verification() {
    let key = VerificationKey::from_sec1_bytes(vec![0x04; 65]);
    let signature = sign(&pck_signer(), b"message");
    assert!(matches!(
        key.verify(b"message", &signature),
        Err(Error::Signature(_))
    ));
}

#[test]
fn bytes_outside_its_fields_do_not_matter_to_the_enclave_report_body() {
    let length = hw_quote().len();
    for index in [432, 435, QUOTING_ENCLAVE_REPORT_START, 1012, CERTIFICATE_START, length - 1] {
        let mut bytes = hw_quote();
        bytes[index] ^= 0xFF;
        let quote = Quote::from_bytes(&bytes);
        assert_eq!(quote.verify_enclave_report_body(), Ok(()), "index {}", index);
    }
}

#[test]
fn bytes_outside_its_fields_do_not_matter_to_the_quoting_enclave_report() {
    for index in [
        0,
        ISV_ENCLAVE_SIGNATURE_START,
        ATTESTATION_KEY_START,
        QUOTING_ENCLAVE_REPORT_START - 1,
        QUOTING_ENCLAVE_AUTHENTICATION_DATA_START,
        CERTIFICATE_START - 6,
        CERTIFICATE_START - 1,
    ] {
        let mut bytes = hw_quote();
        bytes[index] ^= 0xFF;
        let quote = Quote::from_bytes(&bytes);
        assert_eq!(quote.verify_quoting_enclave_report(), Ok(()), "index {}", index);
    }
}

#[test]
fn declared_authentication_data_size_is_read() {
    let bytes = hw_quote();
    assert_eq!(Quote::from_bytes(&bytes).get_qe_authentication_data_size(), Ok(32));
    assert_eq!(
        Quote::from_bytes(&quote_with_authentication_data(0x0102))
            .get_qe_authentication_data_size(),
        Ok(0x0102)
    );
    assert_eq!(
        Quote::from_bytes(&bytes[..1013]).get_qe_authentication_data_size(),
        Err(LengthError { required: 1014, available: 1013 })
    );
}

#[test]
fn certificate_is_taken_without_validation() {
    // The last byte of the certificate is the last byte of its own signature.
    let mut der_bytes = certificate_der(&pck_signer());
    let last = der_bytes.len() - 1;
    der_bytes[last] ^= 0x01;
    let mut bytes = hw_quote()[..CERTIFICATE_START].to_vec();
    bytes.extend_from_slice(&pem(&der_bytes));
    let quote = Quote::from_bytes(&bytes);
    assert_eq!(quote.verify_quoting_enclave_report(), Ok(()));
}

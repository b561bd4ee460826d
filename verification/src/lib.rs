//! Verification of Intel SGX DCAP attestation quotes, with two small helpers
//! for code that works with the SGX SDK.
//!
//! A quote is a fixed-layout binary blob.  It carries an enclave report signed
//! by an ephemeral attestation key, a report of the quoting enclave that binds
//! that key, and a certificate whose key signs the quoting enclave's report.
//! [`Quote`] offers one operation for each of those three links.  It does not
//! validate the certificate itself: that is left to whoever holds the root of
//! trust.
//!
//! - [`layout`]: where each field of a quote lies, and checked access to it.
//! - [`signature`]: ECDSA over P-256 on raw keys and raw signatures.
//! - [`certificate`]: the key of a PEM-encoded certificate.
//! - [`binding`]: the digest that binds the attestation key.
//! - [`quote`]: the quote and its three verification operations.
//! - [`laws`]: what holds of those operations on every quote.
//! - [`primitives`]: what is taken from other crates and believed: SHA-256,
//!   ECDSA, and the decoders of keys, PEM and X.509.
//! - [`seal`]: length validation of sealed data.
//! - [`sgx_build`]: naming of bindings generated from the SGX headers.

pub mod binding;
pub mod certificate;
pub mod error;
pub mod laws;
pub mod layout;
pub mod primitives;
pub mod quote;
pub mod seal;
pub mod sgx_build;
pub mod signature;

pub use crate::error::Error;
pub use crate::layout::LengthError;
pub use crate::quote::Quote;

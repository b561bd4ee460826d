//! The error of the verification operations.

use vstd::prelude::*;

verus! {

/// Error from verifying a quote.
#[derive(Debug, PartialEq, Eq)]
pub enum Error {
    /// Unable to load the signing certificate.
    Certificate,
    /// Failure to parse the PEM document or the certificate in the quote.
    /// Carries the parser's diagnostic text.
    PemParsing(String),
    /// Failure to verify a signature, or a malformed signature or key
    /// encoding.  Carries the verifier's diagnostic text.
    Signature(String),
    /// Failure to decode a raw key as a point of the curve.  Carries the
    /// decoder's diagnostic text.
    Key(String),
    /// The attestation key is not bound to the quoting enclave's report.
    AttestationKey,
}

/// An [`Error`] with its diagnostic text as a sequence of characters.
pub enum ErrorView {
    Certificate,
    PemParsing(Seq<char>),
    Signature(Seq<char>),
    Key(Seq<char>),
    AttestationKey,
}

impl View for Error {
    type V = ErrorView;

    open spec fn view(&self) -> ErrorView {
        match self {
            Error::Certificate => ErrorView::Certificate,
            Error::PemParsing(text) => ErrorView::PemParsing(text@),
            Error::Signature(text) => ErrorView::Signature(text@),
            Error::Key(text) => ErrorView::Key(text@),
            Error::AttestationKey => ErrorView::AttestationKey,
        }
    }
}

/// The outcome of a verification operation.
pub type Verdict = Result<(), ErrorView>;

/// What a verification operation returned, with the error taken by its view.
pub open spec fn verdict_view(r: Result<(), Error>) -> Verdict {
    match r {
        Ok(_) => Ok(()),
        Err(e) => Err(e@),
    }
}

/// Diagnostic text of an error that stands for a key which the quote is too
/// short to hold.
pub const TRUNCATED_KEY: &'static str = "quote ends before the end of the attestation key";

/// Diagnostic text of an error that stands for certification data which the
/// quote is too short to hold.
pub const TRUNCATED_CERTIFICATION_DATA: &'static str =
    "quote ends before the start of the certification data";

/// Diagnostic text of an error that stands for a signature which the quote is
/// too short to hold.
pub const TRUNCATED_SIGNATURE: &'static str = "quote ends before the end of the signature";

impl Error {
    /// A one-line description of the kind of error, without the diagnostic
    /// text that the error carries.
    pub fn description(&self) -> (text: String)
        ensures
            text@ == self@.description(),
    {
        match self {
            Error::Certificate => String::from_str("Unable to load the signing Certificate"),
            Error::PemParsing(_) => String::from_str(
                "Failure to parse the Pem files from the quote data",
            ),
            Error::Signature(_) => String::from_str("Failure to verify a Signature"),
            Error::Key(_) => String::from_str(
                "A failure to convert a binary key into an elliptical_curve version.",
            ),
            Error::AttestationKey => String::from_str("Invalid attestation key in quote"),
        }
    }
}

impl ErrorView {
    /// The description of each kind of error.
    pub open spec fn description(self) -> Seq<char> {
        match self {
            ErrorView::Certificate => "Unable to load the signing Certificate"@,
            ErrorView::PemParsing(_) => "Failure to parse the Pem files from the quote data"@,
            ErrorView::Signature(_) => "Failure to verify a Signature"@,
            ErrorView::Key(_) => "A failure to convert a binary key into an elliptical_curve version."@,
            ErrorView::AttestationKey => "Invalid attestation key in quote"@,
        }
    }
}

} // verus!

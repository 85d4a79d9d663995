//! Errors of the push authorizer.

use vstd::prelude::*;

verus! {

/// Why an authorization step refused the push.
#[derive(Clone, Copy, Debug, PartialEq, Eq, Structural)]
pub enum Reason {
    /// No push certificate key was available in the environment.
    CertificateMissing,
    /// The signer's key fingerprint does not carry the SHA-256 marker.
    FingerprintNotSha256,
    /// The signer's key fingerprint payload is not valid base64.
    FingerprintInvalid,
    /// The signer's key is not in the authorized set.
    KeyNotAuthorized,
    /// The signer's key does not own the remote ref being updated.
    SignerMismatch,
}

/// Errors that fail a pre-receive invocation.
#[derive(Clone, Debug)]
pub enum Error {
    /// The push is not authorized, for the carried reason.
    Unauthorized(Reason),
    /// The push certificate's signature status or nonce status is not good.
    FailedCertificateVerification,
    /// A pushed ref does not lie under the expected namespace form.
    InvalidRefPushed(Vec<u8>),
    /// The repository namespace could not be entered.
    NamespaceNotFound,
    /// A standard-input line is not a well-formed ref update.
    MalformedInput(Vec<u8>),
}

impl Reason {
    /// Human-readable diagnostic for this refusal.
    pub fn message(&self) -> (r: &'static str)
        ensures
            *self == Reason::CertificateMissing ==> r@ == "push certificate is not available"@,
            *self == Reason::FingerprintNotSha256 ==> r@
                == "key fingerprint is not a SHA-256 hash"@,
            *self == Reason::FingerprintInvalid ==> r@ == "key fingerprint is not valid"@,
            *self == Reason::KeyNotAuthorized ==> r@ == "key is not authorized to push"@,
            *self == Reason::SignerMismatch ==> r@ == "signer does not match remote ref"@,
    {
        match self {
            Reason::CertificateMissing => "push certificate is not available",
            Reason::FingerprintNotSha256 => "key fingerprint is not a SHA-256 hash",
            Reason::FingerprintInvalid => "key fingerprint is not valid",
            Reason::KeyNotAuthorized => "key is not authorized to push",
            Reason::SignerMismatch => "signer does not match remote ref",
        }
    }
}

} // verus!

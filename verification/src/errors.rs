use vstd::prelude::*;

verus! {

/// Why an operation was refused. Every error aborts the operation with no
/// state change; the caller sees exactly one of these as the outcome.
#[derive(Clone, Copy, Debug, PartialEq, Eq, Structural)]
pub enum CarbonCreditError {
    /// An amount was zero, or so large that recording it would overflow
    /// a 64-bit token counter.
    InvalidAmount,
    /// The certificate number was empty.
    InvalidCertificate,
    /// The certificate number was longer than the accepted maximum.
    CertificateNumberTooLong,
    /// A privileged operation was attempted by an identity other than
    /// the registry's admin.
    Unauthorized,
    /// A certificate with the same number already occupies its storage
    /// location.
    CertificateExists,
    /// No certificate with the given number exists.
    CertificateNotFound,
    /// Reserved: the certificate is no longer active. No current
    /// operation reports it.
    CertificateNotActive,
    /// The registry singleton was already created.
    AlreadyInitialized,
}

} // verus!

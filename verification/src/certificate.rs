use vstd::prelude::*;

use crate::identity::Identity;

verus! {

/// Tokens minted per ton of offset: a fixed four-decimal-place ratio.
pub const TOKENS_PER_TON: u64 = 10_000;

/// Longest accepted certificate number, in bytes.
pub const MAX_CERTIFICATE_NUMBER_LEN: usize = 50;

/// Largest tonnage whose token amount still fits in a `u64`.
pub const MAX_TONS_AMOUNT: u64 = u64::MAX / 10_000;

/// A stored certificate record. Created on the first successful
/// submission of its certificate number and never removed; the only
/// later mutation is the one-way deactivation of `is_active`.
pub struct CarbonCertificate {
    /// The globally unique lookup key, 1 to 50 bytes.
    pub certificate_number: Vec<u8>,
    /// The identity the tokens were issued to.
    pub owner: Identity,
    /// The attested tonnage, always positive.
    pub tons_amount: u64,
    /// Exactly `tons_amount * TOKENS_PER_TON`, computed once at creation.
    pub tokens_minted: u64,
    /// When the certificate was submitted.
    pub timestamp: i64,
    /// True until an admin deactivates the certificate.
    pub is_active: bool,
}

/// The mathematical model of a certificate record.
pub ghost struct CertificateModel {
    pub certificate_number: Seq<u8>,
    pub owner: Identity,
    pub tons_amount: u64,
    pub tokens_minted: u64,
    pub timestamp: i64,
    pub is_active: bool,
}

impl View for CarbonCertificate {
    type V = CertificateModel;

    open spec fn view(&self) -> CertificateModel {
        CertificateModel {
            certificate_number: self.certificate_number@,
            owner: self.owner,
            tons_amount: self.tons_amount,
            tokens_minted: self.tokens_minted,
            timestamp: self.timestamp,
            is_active: self.is_active,
        }
    }
}

impl CertificateModel {
    /// What every stored record satisfies: a certificate number of
    /// accepted length, a positive tonnage, and a token amount that is
    /// exactly the fixed conversion of that tonnage.
    pub open spec fn wf(self) -> bool {
        &&& 1 <= self.certificate_number.len() <= MAX_CERTIFICATE_NUMBER_LEN
        &&& 1 <= self.tons_amount <= MAX_TONS_AMOUNT
        &&& self.tokens_minted == self.tons_amount * TOKENS_PER_TON
    }
}

/// The record a successful submission creates: active, stamped with the
/// submission time, and carrying the exact token conversion.
pub open spec fn new_certificate_model(
    certificate_number: Seq<u8>,
    owner: Identity,
    tons_amount: u64,
    timestamp: i64,
) -> CertificateModel {
    CertificateModel {
        certificate_number,
        owner,
        tons_amount,
        tokens_minted: (tons_amount * TOKENS_PER_TON) as u64,
        timestamp,
        is_active: true,
    }
}

/// The same record with its active flag cleared.
pub open spec fn deactivated(c: CertificateModel) -> CertificateModel {
    CertificateModel { is_active: false, ..c }
}

} // verus!

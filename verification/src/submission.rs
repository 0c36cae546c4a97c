use vstd::prelude::*;

use crate::certificate::CarbonCertificate;
use crate::certificate::CertificateModel;
use crate::certificate::MAX_CERTIFICATE_NUMBER_LEN;
use crate::certificate::MAX_TONS_AMOUNT;
use crate::certificate::TOKENS_PER_TON;
use crate::certificate::new_certificate_model;
use crate::errors::CarbonCreditError;
use crate::identity::Identity;
use crate::registry::ProgramState;
use crate::registry::consistent_totals;
use crate::store::CertificateStore;
use crate::store::contains_number;
use crate::store::lemma_sum_tokens_push;

verus! {

/// The keyless issuance capability. A value of this type exists only as
/// the outcome of a successful `submit_certificate`, carries exactly the
/// record that submission validated, and is consumed by
/// `commit_submission`; it cannot be built or altered outside this
/// module, so it authorizes nothing but the one issuance it was made
/// for. The token ledger is asked to mint `amount()` units to
/// `destination()` while the capability is held.
pub struct MintAuthorization {
    certificate_number: Vec<u8>,
    owner: Identity,
    tons_amount: u64,
    tokens_minted: u64,
    timestamp: i64,
}

impl View for MintAuthorization {
    type V = CertificateModel;

    closed spec fn view(&self) -> CertificateModel {
        CertificateModel {
            certificate_number: self.certificate_number@,
            owner: self.owner,
            tons_amount: self.tons_amount,
            tokens_minted: self.tokens_minted,
            timestamp: self.timestamp,
            is_active: true,
        }
    }
}

impl MintAuthorization {
    #[verifier::type_invariant]
    spec fn inv(self) -> bool {
        self@.wf()
    }

    /// How many tokens the ledger is to mint.
    pub fn amount(&self) -> (a: u64)
        ensures
            a == self@.tokens_minted,
    {
        self.tokens_minted
    }

    /// The identity the minted tokens go to.
    pub fn destination(&self) -> (d: Identity)
        ensures
            d == self@.owner,
    {
        self.owner
    }
}

/// Why a submission of `number` with `tons_amount` would be refused
/// against the given registry and records, or `None` if it must be
/// accepted. Checks run in this order: a positive tonnage, a non-empty
/// number, the length cap, the conversion fitting in 64 bits, the
/// uniqueness of the number, and headroom in the registry counters.
pub open spec fn submission_error(
    state: ProgramState,
    certs: Seq<CertificateModel>,
    number: Seq<u8>,
    tons_amount: u64,
) -> Option<CarbonCreditError> {
    if tons_amount == 0 {
        Some(CarbonCreditError::InvalidAmount)
    } else if number.len() == 0 {
        Some(CarbonCreditError::InvalidCertificate)
    } else if number.len() > MAX_CERTIFICATE_NUMBER_LEN {
        Some(CarbonCreditError::CertificateNumberTooLong)
    } else if tons_amount > MAX_TONS_AMOUNT {
        Some(CarbonCreditError::InvalidAmount)
    } else if contains_number(certs, number) {
        Some(CarbonCreditError::CertificateExists)
    } else if state.total_tokens_minted + tons_amount * TOKENS_PER_TON > u64::MAX
        || state.total_certificates == u64::MAX {
        Some(CarbonCreditError::InvalidAmount)
    } else {
        None
    }
}

/// Validate a certificate submission and, if it must be accepted, issue
/// the mint authorization for exactly `tons_amount * TOKENS_PER_TON`
/// tokens to `owner`. Nothing is recorded yet: the caller asks the token
/// ledger to perform the authorized issuance and then records the
/// certificate with `commit_submission`, so that a failed issuance
/// leaves no trace.
pub fn submit_certificate(
    state: &ProgramState,
    store: &CertificateStore,
    certificate_number: Vec<u8>,
    tons_amount: u64,
    owner: Identity,
    timestamp: i64,
) -> (r: Result<MintAuthorization, CarbonCreditError>)
    requires
        store.wf(),
    ensures
        match r {
            Ok(auth) => submission_error(*state, store@, certificate_number@, tons_amount)
                is None && auth@ == new_certificate_model(
                certificate_number@,
                owner,
                tons_amount,
                timestamp,
            ),
            Err(e) => submission_error(*state, store@, certificate_number@, tons_amount) == Some(
                e,
            ),
        },
{
    if tons_amount == 0 {
        return Err(CarbonCreditError::InvalidAmount);
    }
    if certificate_number.len() == 0 {
        return Err(CarbonCreditError::InvalidCertificate);
    }
    if certificate_number.len() > MAX_CERTIFICATE_NUMBER_LEN {
        return Err(CarbonCreditError::CertificateNumberTooLong);
    }
    if tons_amount > MAX_TONS_AMOUNT {
        return Err(CarbonCreditError::InvalidAmount);
    }
    if store.has_certificate(&certificate_number) {
        return Err(CarbonCreditError::CertificateExists);
    }
    let tokens_minted = tons_amount * TOKENS_PER_TON;
    if state.total_tokens_minted > u64::MAX - tokens_minted || state.total_certificates
        == u64::MAX {
        return Err(CarbonCreditError::InvalidAmount);
    }
    Ok(MintAuthorization { certificate_number, owner, tons_amount, tokens_minted, timestamp })
}

/// Record the certificate a held `MintAuthorization` stands for and
/// update the registry totals, atomically from the caller's point of
/// view: either the record is appended and both counters move, or an
/// error is returned and neither the registry nor the store changes.
/// Re-checks occupancy and counter headroom, so a submission that lost a
/// race for its storage location fails here with `CertificateExists`.
/// Preserves the agreement between the totals and the records.
pub fn commit_submission(
    state: &mut ProgramState,
    store: &mut CertificateStore,
    auth: MintAuthorization,
) -> (r: Result<(), CarbonCreditError>)
    requires
        old(store).wf(),
    ensures
        final(store).wf(),
        match r {
            Ok(()) => {
                &&& submission_error(
                    *old(state),
                    old(store)@,
                    auth@.certificate_number,
                    auth@.tons_amount,
                ) is None
                &&& final(store)@ == old(store)@.push(auth@)
                &&& *final(state) == (ProgramState {
                    total_certificates: (old(state).total_certificates + 1) as u64,
                    total_tokens_minted: (old(state).total_tokens_minted
                        + auth@.tokens_minted) as u64,
                    ..*old(state)
                })
            },
            Err(e) => {
                &&& submission_error(
                    *old(state),
                    old(store)@,
                    auth@.certificate_number,
                    auth@.tons_amount,
                ) == Some(e)
                &&& final(store)@ == old(store)@
                &&& *final(state) == *old(state)
            },
        },
        r is Ok ==> final(state).total_certificates == old(state).total_certificates + 1
            && final(state).total_tokens_minted > old(state).total_tokens_minted,
        consistent_totals(*old(state), old(store)@) && r is Ok ==> consistent_totals(
            *final(state),
            final(store)@,
        ),
        r is Err ==> consistent_totals(*old(state), old(store)@) == consistent_totals(
            *final(state),
            final(store)@,
        ),
{
    proof {
        use_type_invariant(&auth);
    }
    if store.has_certificate(&auth.certificate_number) {
        return Err(CarbonCreditError::CertificateExists);
    }
    if state.total_tokens_minted > u64::MAX - auth.tokens_minted || state.total_certificates
        == u64::MAX {
        return Err(CarbonCreditError::InvalidAmount);
    }
    let ghost old_store_view = store@;
    let ghost cm = auth@;
    let MintAuthorization { certificate_number, owner, tons_amount, tokens_minted, timestamp } =
        auth;
    let cert = CarbonCertificate {
        certificate_number,
        owner,
        tons_amount,
        tokens_minted,
        timestamp,
        is_active: true,
    };
    proof {
        assert(cert@ == cm);
    }
    store.insert(cert);
    state.total_certificates = state.total_certificates + 1;
    state.total_tokens_minted = state.total_tokens_minted + tokens_minted;
    proof {
        lemma_sum_tokens_push(old_store_view, cm);
    }
    Ok(())
}

/// Every submission the registry must accept mints exactly
/// `tons_amount * TOKENS_PER_TON` tokens: the conversion is an exact
/// integer multiply, fixed at creation.
pub proof fn lemma_accepted_submission_mints_exactly(
    state: ProgramState,
    certs: Seq<CertificateModel>,
    number: Seq<u8>,
    owner: Identity,
    tons_amount: u64,
    timestamp: i64,
)
    requires
        submission_error(state, certs, number, tons_amount) is None,
    ensures
        1 <= tons_amount <= MAX_TONS_AMOUNT,
        new_certificate_model(number, owner, tons_amount, timestamp).tokens_minted == tons_amount
            * TOKENS_PER_TON,
{
}

/// A certificate number that is already recorded is never accepted
/// again: a resubmission fails, and when the resubmission is otherwise
/// valid it fails precisely with the uniqueness collision.
pub proof fn lemma_duplicate_submission_rejected(
    state: ProgramState,
    certs: Seq<CertificateModel>,
    number: Seq<u8>,
    tons_amount: u64,
)
    requires
        contains_number(certs, number),
    ensures
        submission_error(state, certs, number, tons_amount) is Some,
        (1 <= tons_amount <= MAX_TONS_AMOUNT && 1 <= number.len()
            <= MAX_CERTIFICATE_NUMBER_LEN) ==> submission_error(state, certs, number, tons_amount)
            == Some(CarbonCreditError::CertificateExists),
{
}

/// A valid, fresh submission is owed success: positive tonnage within
/// the conversion bound, an accepted number length, a free storage
/// location and counter headroom leave the registry no ground to refuse.
pub proof fn lemma_valid_submission_accepted(
    state: ProgramState,
    certs: Seq<CertificateModel>,
    number: Seq<u8>,
    tons_amount: u64,
)
    requires
        1 <= tons_amount <= MAX_TONS_AMOUNT,
        1 <= number.len() <= MAX_CERTIFICATE_NUMBER_LEN,
        !contains_number(certs, number),
        state.total_tokens_minted + tons_amount * TOKENS_PER_TON <= u64::MAX,
        state.total_certificates < u64::MAX,
    ensures
        submission_error(state, certs, number, tons_amount) is None,
{
}

} // verus!

use vstd::prelude::*;

use crate::certificate::CertificateModel;
use crate::errors::CarbonCreditError;
use crate::identity::Identity;
use crate::store::sum_tokens;

verus! {

/// The registry singleton: the admin identity and the registry-wide
/// running totals. Exactly one instance exists per deployment; it is
/// created blank and then claimed once by `initialize`.
pub struct ProgramState {
    /// The only identity allowed to run privileged operations.
    pub admin: Identity,
    /// How many certificates have ever been accepted. Monotonic.
    pub total_certificates: u64,
    /// Tokens minted over all accepted certificates. Monotonic.
    pub total_tokens_minted: u64,
    /// Tokens burned over all successful burns. Monotonic, saturating.
    pub total_tokens_burned: u64,
    /// Whether `initialize` has claimed this registry.
    pub is_initialized: bool,
}

/// The registry as its storage location holds it before `initialize`:
/// everything zeroed.
pub open spec fn blank_registry() -> ProgramState {
    ProgramState {
        admin: Identity { id: 0 },
        total_certificates: 0,
        total_tokens_minted: 0,
        total_tokens_burned: 0,
        is_initialized: false,
    }
}

/// The registry's counters agree with the certificate records: as many
/// certificates as were ever accepted, and exactly the tokens their
/// conversions minted.
pub open spec fn consistent_totals(state: ProgramState, certs: Seq<CertificateModel>) -> bool {
    &&& state.total_certificates == certs.len()
    &&& state.total_tokens_minted == sum_tokens(certs)
}

/// A freshly initialized registry agrees with an empty record store:
/// no certificates, no tokens minted. Together with the preservation
/// clauses of `commit_submission` and `deactivate_certificate`, after
/// any run of N accepted submissions the registry counts exactly N
/// certificates and exactly the sum of their minted tokens.
pub proof fn lemma_fresh_registry_consistent(state: ProgramState)
    requires
        state.total_certificates == 0,
        state.total_tokens_minted == 0,
    ensures
        consistent_totals(state, Seq::<CertificateModel>::empty()),
{
}

impl ProgramState {
    /// A blank, not yet initialized registry, as the environment
    /// allocates it.
    pub fn new() -> (s: ProgramState)
        ensures
            s == blank_registry(),
    {
        ProgramState {
            admin: Identity { id: 0 },
            total_certificates: 0,
            total_tokens_minted: 0,
            total_tokens_burned: 0,
            is_initialized: false,
        }
    }
}

/// Claim the registry singleton: set its admin, zero every counter and
/// mark it initialized. Fails with `AlreadyInitialized`, changing
/// nothing, if the singleton was claimed before.
pub fn initialize(state: &mut ProgramState, admin: Identity) -> (r: Result<(), CarbonCreditError>)
    ensures
        old(state).is_initialized ==> r == Err::<(), CarbonCreditError>(
            CarbonCreditError::AlreadyInitialized,
        ) && *final(state) == *old(state),
        !old(state).is_initialized ==> r == Ok::<(), CarbonCreditError>(()) && *final(state) == (
        ProgramState {
            admin,
            total_certificates: 0,
            total_tokens_minted: 0,
            total_tokens_burned: 0,
            is_initialized: true,
        }),
{
    if state.is_initialized {
        return Err(CarbonCreditError::AlreadyInitialized);
    }
    state.admin = admin;
    state.total_certificates = 0;
    state.total_tokens_minted = 0;
    state.total_tokens_burned = 0;
    state.is_initialized = true;
    Ok(())
}

} // verus!

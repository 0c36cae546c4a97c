use carbon_credit::{
    burn_tokens, commit_submission, deactivate_certificate, get_certificate_info, initialize,
    record_burn, submit_certificate, transfer_tokens, BurnOrder, CarbonCreditError,
    CertificateStore, Identity, MintAuthorization, ProgramState, TransferOrder,
};

const MAX_TONS: u64 = u64::MAX / 10_000;

fn admin() -> Identity {
    Identity { id: 1 }
}

fn alice() -> Identity {
    Identity { id: 2 }
}

fn bob() -> Identity {
    Identity { id: 3 }
}

/// A fresh, initialized registry with an empty store.
fn setup() -> (ProgramState, CertificateStore) {
    let mut state = ProgramState::new();
    initialize(&mut state, admin()).unwrap();
    (state, CertificateStore::new())
}

/// Drives the full submission protocol against an in-memory stand-in
/// for the token ledger: validate, mint to the owner's balance, commit.
fn submit_and_mint(
    state: &mut ProgramState,
    store: &mut CertificateStore,
    number: &[u8],
    tons: u64,
    owner: Identity,
    timestamp: i64,
    balance: &mut u64,
) -> Result<u64, CarbonCreditError> {
    let auth: MintAuthorization =
        submit_certificate(state, store, number.to_vec(), tons, owner, timestamp)?;
    let minted = auth.amount();
    assert_eq!(auth.destination(), owner);
    *balance = balance.checked_add(minted).expect("ledger supply overflow");
    commit_submission(state, store, auth)?;
    Ok(minted)
}

#[test]
fn initialize_sets_admin_and_zero_counters() {
    let mut state = ProgramState::new();
    assert!(!state.is_initialized);
    initialize(&mut state, admin()).unwrap();
    assert!(state.is_initialized);
    assert_eq!(state.admin, admin());
    assert_eq!(state.total_certificates, 0);
    assert_eq!(state.total_tokens_minted, 0);
    assert_eq!(state.total_tokens_burned, 0);
}

#[test]
fn initialize_twice_fails() {
    let (mut state, _) = setup();
    let r = initialize(&mut state, bob());
    assert_eq!(r, Err(CarbonCreditError::AlreadyInitialized));
    assert_eq!(state.admin, admin());
    assert!(state.is_initialized);
}

#[test]
fn submit_mints_exact_conversion() {
    let (mut state, mut store) = setup();
    let mut balance: u64 = 0;
    let minted =
        submit_and_mint(&mut state, &mut store, b"CERT-001", 5, alice(), 1000, &mut balance)
            .unwrap();
    assert_eq!(minted, 50_000);
    assert_eq!(balance, 50_000);
    assert_eq!(state.total_certificates, 1);
    assert_eq!(state.total_tokens_minted, 50_000);
    let cert = get_certificate_info(&store, &b"CERT-001".to_vec()).unwrap();
    assert_eq!(cert.certificate_number, b"CERT-001".to_vec());
    assert_eq!(cert.owner, alice());
    assert_eq!(cert.tons_amount, 5);
    assert_eq!(cert.tokens_minted, 50_000);
    assert_eq!(cert.timestamp, 1000);
    assert!(cert.is_active);
}

#[test]
fn submit_zero_tons_rejected() {
    let (state, store) = setup();
    let r = submit_certificate(&state, &store, b"CERT-001".to_vec(), 0, alice(), 0);
    assert_eq!(r.err(), Some(CarbonCreditError::InvalidAmount));
}

#[test]
fn submit_empty_number_rejected() {
    let (state, store) = setup();
    let r = submit_certificate(&state, &store, Vec::new(), 5, alice(), 0);
    assert_eq!(r.err(), Some(CarbonCreditError::InvalidCertificate));
}

#[test]
fn submit_number_length_bounds() {
    let (mut state, mut store) = setup();
    let long = vec![b'X'; 51];
    let r = submit_certificate(&state, &store, long, 5, alice(), 0);
    assert_eq!(r.err(), Some(CarbonCreditError::CertificateNumberTooLong));

    let mut balance: u64 = 0;
    let at_cap = vec![b'Y'; 50];
    submit_and_mint(&mut state, &mut store, &at_cap, 1, alice(), 0, &mut balance).unwrap();
    let single = vec![b'Z'];
    submit_and_mint(&mut state, &mut store, &single, 1, alice(), 0, &mut balance).unwrap();
    assert_eq!(state.total_certificates, 2);
}

#[test]
fn submit_tonnage_conversion_bound() {
    let (state, store) = setup();
    let r = submit_certificate(&state, &store, b"BIG".to_vec(), MAX_TONS + 1, alice(), 0);
    assert_eq!(r.err(), Some(CarbonCreditError::InvalidAmount));

    let auth = submit_certificate(&state, &store, b"BIG".to_vec(), MAX_TONS, alice(), 0).unwrap();
    assert_eq!(auth.amount(), MAX_TONS * 10_000);
}

#[test]
fn duplicate_submission_rejected_and_state_unchanged() {
    let (mut state, mut store) = setup();
    let mut balance: u64 = 0;
    submit_and_mint(&mut state, &mut store, b"CERT-001", 5, alice(), 7, &mut balance).unwrap();

    let r = submit_and_mint(&mut state, &mut store, b"CERT-001", 3, bob(), 9, &mut balance);
    assert_eq!(r.err(), Some(CarbonCreditError::CertificateExists));
    assert_eq!(state.total_certificates, 1);
    assert_eq!(state.total_tokens_minted, 50_000);
    assert_eq!(balance, 50_000);
    let cert = get_certificate_info(&store, &b"CERT-001".to_vec()).unwrap();
    assert_eq!(cert.owner, alice());
    assert_eq!(cert.tons_amount, 5);
}

#[test]
fn commit_is_compare_and_insert() {
    let (mut state, mut store) = setup();
    let first =
        submit_certificate(&state, &store, b"CERT-001".to_vec(), 5, alice(), 0).unwrap();
    let racer =
        submit_certificate(&state, &store, b"CERT-001".to_vec(), 2, bob(), 0).unwrap();
    commit_submission(&mut state, &mut store, first).unwrap();
    let r = commit_submission(&mut state, &mut store, racer);
    assert_eq!(r, Err(CarbonCreditError::CertificateExists));
    assert_eq!(state.total_certificates, 1);
    assert_eq!(state.total_tokens_minted, 50_000);
}

#[test]
fn totals_track_all_submissions() {
    let (mut state, mut store) = setup();
    let mut balance: u64 = 0;
    submit_and_mint(&mut state, &mut store, b"CERT-001", 5, alice(), 1, &mut balance).unwrap();
    submit_and_mint(&mut state, &mut store, b"CERT-002", 3, bob(), 2, &mut balance).unwrap();
    submit_and_mint(&mut state, &mut store, b"CERT-003", 12, alice(), 3, &mut balance).unwrap();
    assert_eq!(state.total_certificates, 3);
    assert_eq!(state.total_tokens_minted, (5 + 3 + 12) * 10_000);
    assert_eq!(store.len(), 3);
    assert_eq!(balance, (5 + 3 + 12) * 10_000);
}

#[test]
fn deactivate_requires_admin() {
    let (mut state, mut store) = setup();
    let mut balance: u64 = 0;
    submit_and_mint(&mut state, &mut store, b"CERT-001", 5, alice(), 0, &mut balance).unwrap();

    let r = deactivate_certificate(&state, &mut store, &b"CERT-001".to_vec(), alice());
    assert_eq!(r, Err(CarbonCreditError::Unauthorized));
    let cert = get_certificate_info(&store, &b"CERT-001".to_vec()).unwrap();
    assert!(cert.is_active);
}

#[test]
fn deactivate_by_admin_is_permanent_and_repeatable() {
    let (mut state, mut store) = setup();
    let mut balance: u64 = 0;
    submit_and_mint(&mut state, &mut store, b"CERT-001", 5, alice(), 0, &mut balance).unwrap();

    deactivate_certificate(&state, &mut store, &b"CERT-001".to_vec(), admin()).unwrap();
    let cert = get_certificate_info(&store, &b"CERT-001".to_vec()).unwrap();
    assert!(!cert.is_active);

    deactivate_certificate(&state, &mut store, &b"CERT-001".to_vec(), admin()).unwrap();
    let cert = get_certificate_info(&store, &b"CERT-001".to_vec()).unwrap();
    assert!(!cert.is_active);
    assert_eq!(cert.tokens_minted, 50_000);
    assert_eq!(state.total_certificates, 1);
}

#[test]
fn deactivate_missing_certificate() {
    let (state, mut store) = setup();
    let r = deactivate_certificate(&state, &mut store, &b"NONE".to_vec(), admin());
    assert_eq!(r, Err(CarbonCreditError::CertificateNotFound));
}

#[test]
fn read_missing_certificate() {
    let (_, store) = setup();
    let r = get_certificate_info(&store, &b"NONE".to_vec());
    assert_eq!(r.err(), Some(CarbonCreditError::CertificateNotFound));
    assert!(!store.has_certificate(&b"NONE".to_vec()));
}

#[test]
fn transfer_zero_rejected_without_ledger_call() {
    let r = transfer_tokens(0, alice(), bob());
    assert_eq!(r, Err(CarbonCreditError::InvalidAmount));
}

#[test]
fn transfer_order_carries_request() {
    let order = transfer_tokens(250, alice(), bob()).unwrap();
    assert_eq!(
        order,
        TransferOrder { amount: 250, from: alice(), to: bob() }
    );
}

#[test]
fn burn_zero_rejected() {
    let r = burn_tokens(0, alice());
    assert_eq!(r, Err(CarbonCreditError::InvalidAmount));
}

#[test]
fn burn_after_mint_updates_total() {
    let (mut state, mut store) = setup();
    let mut balance: u64 = 0;
    submit_and_mint(&mut state, &mut store, b"CERT-001", 5, alice(), 0, &mut balance).unwrap();
    assert_eq!(balance, 50_000);

    let order = burn_tokens(20_000, alice()).unwrap();
    assert_eq!(order, BurnOrder { amount: 20_000, owner: alice() });
    // The ledger accepts: the balance covers the burn.
    assert!(balance >= order.amount);
    balance -= order.amount;
    record_burn(&mut state, order);

    assert_eq!(state.total_tokens_burned, 20_000);
    assert_eq!(balance, 30_000);
    assert_eq!(state.total_tokens_minted, 50_000);
}

#[test]
fn failed_ledger_burn_is_not_recorded() {
    let (mut state, mut store) = setup();
    let mut balance: u64 = 0;
    submit_and_mint(&mut state, &mut store, b"CERT-001", 5, alice(), 0, &mut balance).unwrap();

    let order = burn_tokens(60_000, alice()).unwrap();
    // The ledger refuses: the balance is short, so the burn never
    // happened and must not be recorded.
    assert!(balance < order.amount);
    assert_eq!(state.total_tokens_burned, 0);
    assert_eq!(balance, 50_000);
}

#[test]
fn burned_total_saturates() {
    let (mut state, _) = setup();
    record_burn(&mut state, burn_tokens(u64::MAX - 5, alice()).unwrap());
    assert_eq!(state.total_tokens_burned, u64::MAX - 5);
    record_burn(&mut state, burn_tokens(10, alice()).unwrap());
    assert_eq!(state.total_tokens_burned, u64::MAX);
}

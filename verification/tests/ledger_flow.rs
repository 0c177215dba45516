use token_gate::gatekeeper::{
    complete_generation, start_generation, validate_generation_request, GenerationStep,
};
use token_gate::ledger::{begin_generation, decide_generation, settle_generation, GenDecision,
    LedgerError};
use token_gate::store::{AccountStore, StoreError};

const IDENT_44: &str = "abcdefghijkmnopqrstuvwxyzABCDEFGHJKLMNPQRSTU";

fn ident() -> String {
    IDENT_44.to_string()
}

#[test]
fn store_create_then_read() {
    let mut store = AccountStore::new();
    let id = ident();
    assert_eq!(store.get_balance(&id), None);
    assert_eq!(store.create(&id, 0), Ok(0));
    assert_eq!(store.get_balance(&id), Some(0));
}

#[test]
fn store_create_twice_conflicts() {
    let mut store = AccountStore::new();
    let id = ident();
    assert_eq!(store.create(&id, 0), Ok(0));
    assert_eq!(store.create(&id, 5), Err(StoreError::Conflict));
    assert_eq!(store.get_balance(&id), Some(0));
}

#[test]
fn store_set_balance_of_missing_account_fails() {
    let mut store = AccountStore::new();
    assert_eq!(store.set_balance(&ident(), 5), Err(StoreError::NotFound));
}

#[test]
fn store_set_balance_overwrites() {
    let mut store = AccountStore::new();
    let id = ident();
    store.create(&id, 0).unwrap();
    store.set_balance(&id, 7).unwrap();
    assert_eq!(store.get_balance(&id), Some(7));
}

#[test]
fn decision_rule_matches_lookup() {
    assert_eq!(decide_generation(None), GenDecision::Bootstrap);
    assert_eq!(decide_generation(Some(0)), GenDecision::Denied);
    assert_eq!(decide_generation(Some(3)), GenDecision::Authorized { balance: 3 });
}

#[test]
fn unseen_identity_is_bootstrapped_without_job() {
    let mut store = AccountStore::new();
    let id = ident();
    let decision = begin_generation(&mut store, &id);
    assert_eq!(decision, GenDecision::Bootstrap);
    assert_eq!(store.get_balance(&id), Some(0));
}

#[test]
fn zero_balance_is_denied_without_job() {
    let mut store = AccountStore::new();
    let id = ident();
    store.create(&id, 0).unwrap();
    assert_eq!(begin_generation(&mut store, &id), GenDecision::Denied);
    assert_eq!(store.get_balance(&id), Some(0));
}

#[test]
fn successful_job_debits_exactly_one_token() {
    let mut store = AccountStore::new();
    let id = ident();
    store.create(&id, 0).unwrap();
    store.set_balance(&id, 4).unwrap();
    assert_eq!(begin_generation(&mut store, &id), GenDecision::Authorized { balance: 4 });
    assert_eq!(settle_generation(&mut store, &id, true), Ok(3));
    assert_eq!(store.get_balance(&id), Some(3));
}

#[test]
fn failed_job_leaves_balance_untouched() {
    let mut store = AccountStore::new();
    let id = ident();
    store.create(&id, 0).unwrap();
    store.set_balance(&id, 4).unwrap();
    assert_eq!(begin_generation(&mut store, &id), GenDecision::Authorized { balance: 4 });
    assert_eq!(settle_generation(&mut store, &id, false), Err(LedgerError::Job));
    assert_eq!(store.get_balance(&id), Some(4));
}

#[test]
fn request_without_connection_is_rejected() {
    let rejected = validate_generation_request(false, &Some(ident()));
    let resp = rejected.expect("disconnected client must be rejected");
    assert!(!resp.success);
    assert_eq!(resp.message, "User is not connected or public key is missing");
}

#[test]
fn request_with_valid_identity_passes_validation() {
    assert!(validate_generation_request(true, &Some(ident())).is_none());
    assert!(validate_generation_request(true, &None).is_some());
}

#[test]
fn placeholder_artifact_is_base64_encoded() {
    let mut store = AccountStore::new();
    let id = ident();
    match start_generation(&mut store, &id, &b"abc".to_vec()) {
        GenerationStep::Done(resp) => {
            assert_eq!(resp.image.as_deref(), Some("YWJj"));
        }
        GenerationStep::RunJob { .. } => panic!("new identity must not run the job"),
    }
}

#[test]
fn empty_placeholder_encodes_to_empty_text() {
    let mut store = AccountStore::new();
    let id = ident();
    match start_generation(&mut store, &id, &Vec::new()) {
        GenerationStep::Done(resp) => assert_eq!(resp.image.as_deref(), Some("")),
        GenerationStep::RunJob { .. } => panic!("new identity must not run the job"),
    }
}

#[test]
fn five_successful_generations_debit_five_tokens() {
    let mut store = AccountStore::new();
    let id = ident();
    store.create(&id, 0).unwrap();
    store.set_balance(&id, 8).unwrap();
    for expected_after in [7, 6, 5, 4, 3] {
        match start_generation(&mut store, &id, &b"ph".to_vec()) {
            GenerationStep::RunJob { balance } => {
                assert_eq!(balance, expected_after + 1);
                let artifact = b"artifact".to_vec();
                let resp = complete_generation(&mut store, &id, Some(&artifact))
                    .expect("authorized job must settle");
                assert_eq!(resp.token_amount, Some(expected_after));
            }
            GenerationStep::Done(_) => panic!("positive balance must authorize the job"),
        }
    }
    assert_eq!(store.get_balance(&id), Some(3));
}

#[test]
fn full_request_cycle_for_new_identity() {
    let mut store = AccountStore::new();
    let id = ident();
    let placeholder = b"chimp".to_vec();

    // First request: account is provisioned, no job runs.
    match start_generation(&mut store, &id, &placeholder) {
        GenerationStep::Done(resp) => {
            assert!(resp.success);
            assert_eq!(
                resp.message,
                "You currently have no generation tokens. Add tokens to your balance to generate"
            );
            assert_eq!(resp.token_amount, Some(0));
        }
        GenerationStep::RunJob { .. } => panic!("new identity must not run the job"),
    }
    assert_eq!(store.get_balance(&id), Some(0));

    // Retried request: still balance 0, still no job.
    match start_generation(&mut store, &id, &placeholder) {
        GenerationStep::Done(resp) => {
            assert!(resp.success);
            assert_eq!(resp.message, "Insufficient token balance");
            assert_eq!(resp.token_amount, Some(0));
        }
        GenerationStep::RunJob { .. } => panic!("empty balance must not run the job"),
    }
    assert_eq!(store.get_balance(&id), Some(0));

    // Out-of-band top-up of 3.
    store.set_balance(&id, 3).unwrap();

    // Next request runs the job once and debits one token.
    match start_generation(&mut store, &id, &placeholder) {
        GenerationStep::RunJob { balance } => {
            assert_eq!(balance, 3);
            let artifact = b"art".to_vec();
            let resp = complete_generation(&mut store, &id, Some(&artifact))
                .expect("authorized job must settle");
            assert!(resp.success);
            assert_eq!(resp.message, "Image generated");
            assert_eq!(resp.image.as_deref(), Some("YXJ0"));
            assert_eq!(resp.token_amount, Some(2));
        }
        GenerationStep::Done(_) => panic!("positive balance must authorize the job"),
    }
    assert_eq!(store.get_balance(&id), Some(2));
}

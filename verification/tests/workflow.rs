use faucet::block_hash::BlockHash;
use faucet::create_account::{
    build_signed_attempt, classify_response, plan_actions, validate_request, LedgerResponse,
    PlannedAction, ProvisionError, SubmissionOutcome,
};
use faucet::nonce::NonceAllocator;
use faucet::workflow::{
    continue_after_response, provision_scripted, start_provisioning, ProvisionResult,
    WorkflowStart, WorkflowStep,
};
use near_crypto::{InMemorySigner, KeyType};
use near_primitives::action::Action;
use near_primitives::hash::CryptoHash;

fn signer() -> InMemorySigner {
    InMemorySigner::from_seed("faucet.near".parse().unwrap(), KeyType::ED25519, "test-seed")
}

fn valid_key_bytes() -> Vec<u8> {
    signer().public_key.to_string().into_bytes()
}

#[test]
fn validate_accepts_well_formed_request() {
    let r = validate_request(&b"alice.near".to_vec(), &valid_key_bytes());
    let v = r.unwrap();
    assert_eq!(v.account_id(), &b"alice.near".to_vec());
    assert_eq!(v.public_key(), &valid_key_bytes());
}

#[test]
fn validate_rejects_malformed_account_id() {
    for bad in [
        &b"Hello World!"[..],
        b"a",
        b"-alice.near",
        b"alice..near",
        b"alice.near.",
        b"UPPER.near",
    ] {
        let r = validate_request(&bad.to_vec(), &valid_key_bytes());
        assert!(matches!(r, Err(ProvisionError::InvalidAccountId)));
    }
}

#[test]
fn validate_accepts_what_the_ledger_accepts() {
    for good in [&b"alice.near"[..], b"aa", b"a-b_c.d-e", b"0x123"] {
        assert!(validate_request(&good.to_vec(), &valid_key_bytes()).is_ok());
    }
}

#[test]
fn validate_rejects_malformed_public_key() {
    for bad in [&b"nope"[..], b"ed25519:!!!", b"ed25519:abc", b""] {
        let r = validate_request(&b"alice.near".to_vec(), &bad.to_vec());
        assert!(matches!(r, Err(ProvisionError::InvalidPublicKey)));
    }
}

#[test]
fn classify_normalizes_both_nonce_conflict_shapes() {
    let a = classify_response(LedgerResponse::ExecutionInvalidNonce { tx_nonce: 6, ak_nonce: 9 });
    let b = classify_response(LedgerResponse::RequestInvalidNonce { tx_nonce: 6, ak_nonce: 9 });
    for outcome in [a, b] {
        match outcome {
            SubmissionOutcome::NonceConflict { reported_tx_nonce, ledger_expected_nonce } => {
                assert_eq!(reported_tx_nonce, 6);
                assert_eq!(ledger_expected_nonce, 9);
            }
            _ => panic!("expected a nonce conflict"),
        }
    }
}

#[test]
fn classify_reports_success_and_keeps_failure_reasons() {
    assert!(matches!(
        classify_response(LedgerResponse::ExecutionSucceeded),
        SubmissionOutcome::Accepted
    ));
    match classify_response(LedgerResponse::ExecutionFailed { reason: "ran out".to_string() }) {
        SubmissionOutcome::Fatal { error: ProvisionError::ExecutionFailed { reason } } => {
            assert_eq!(reason, "ran out");
        }
        _ => panic!("expected a fatal execution failure"),
    }
    match classify_response(LedgerResponse::RequestFailed { reason: "no route".to_string() }) {
        SubmissionOutcome::Fatal { error: ProvisionError::RequestFailed { reason } } => {
            assert_eq!(reason, "no route");
        }
        _ => panic!("expected a fatal request failure"),
    }
}

#[test]
fn plan_lists_the_three_actions_in_order() {
    let key = valid_key_bytes();
    let plan = plan_actions(&key, 777);
    assert_eq!(plan.len(), 3);
    assert!(matches!(plan[0], PlannedAction::CreateAccount));
    match &plan[1] {
        PlannedAction::AddFullAccessKey { public_key } => assert_eq!(public_key, &key),
        _ => panic!("expected the key addition second"),
    }
    assert!(matches!(plan[2], PlannedAction::Transfer { deposit: 777 }));
}

#[test]
fn built_attempt_carries_nonce_block_hash_and_actions() {
    let signer = signer();
    let key = valid_key_bytes();
    let request = validate_request(&b"bob.faucet.near".to_vec(), &key).unwrap();
    let block_hash = BlockHash::from_bytes(vec![7u8; 32]).unwrap();
    let signed = build_signed_attempt(&signer, &request, 500, 42, &block_hash);
    let tx = &signed.transaction;
    assert_eq!(tx.nonce, 42);
    assert_eq!(tx.signer_id.as_str(), "faucet.near");
    assert_eq!(tx.receiver_id.as_str(), "bob.faucet.near");
    assert_eq!(tx.block_hash, CryptoHash([7u8; 32]));
    assert_eq!(tx.public_key, signer.public_key);
    assert_eq!(tx.actions.len(), 3);
    assert!(matches!(tx.actions[0], Action::CreateAccount(_)));
    match &tx.actions[1] {
        Action::AddKey(add) => {
            assert_eq!(add.public_key.to_string().into_bytes(), key);
            assert_eq!(add.access_key.permission, near_primitives::account::AccessKeyPermission::FullAccess);
        }
        _ => panic!("expected the key addition second"),
    }
    assert!(matches!(tx.actions[2], Action::Transfer(ref t) if t.deposit == 500));
    // the signature really covers this transaction
    let (hash, _) = tx.get_hash_and_size();
    assert!(signed.signature.verify(hash.as_ref(), &signer.public_key));
}

#[test]
fn start_fails_without_allocation_on_bad_input() {
    let mut allocator = NonceAllocator::new(5);
    let s = start_provisioning(&mut allocator, &b"Bad Id".to_vec(), &valid_key_bytes());
    assert!(matches!(
        s,
        WorkflowStart::Failed { error: ProvisionError::InvalidAccountId }
    ));
    // nothing was allocated
    assert_eq!(allocator.allocate(), 6);
}

#[test]
fn start_allocates_first_nonce_on_valid_input() {
    let mut allocator = NonceAllocator::new(5);
    match start_provisioning(&mut allocator, &b"alice.near".to_vec(), &valid_key_bytes()) {
        WorkflowStart::Submit { request, nonce } => {
            assert_eq!(nonce, 6);
            assert_eq!(request.account_id(), &b"alice.near".to_vec());
        }
        WorkflowStart::Failed { .. } => panic!("expected a submission"),
    }
}

#[test]
fn continue_finishes_on_success() {
    let mut allocator = NonceAllocator::new(6);
    let s = continue_after_response(&mut allocator, 6, LedgerResponse::ExecutionSucceeded);
    assert!(matches!(s, WorkflowStep::Done));
    assert_eq!(allocator.allocate(), 7);
}

#[test]
fn continue_retries_with_reconciled_nonce_on_conflict() {
    let mut allocator = NonceAllocator::new(6);
    let s = continue_after_response(
        &mut allocator,
        6,
        LedgerResponse::RequestInvalidNonce { tx_nonce: 6, ak_nonce: 9 },
    );
    assert!(matches!(s, WorkflowStep::Retry { nonce: 10 }));
}

#[test]
fn continue_fails_without_retry_on_fatal_answer() {
    let mut allocator = NonceAllocator::new(6);
    let s = continue_after_response(
        &mut allocator,
        6,
        LedgerResponse::ExecutionFailed { reason: "boom".to_string() },
    );
    match s {
        WorkflowStep::Failed { error: ProvisionError::ExecutionFailed { reason } } => {
            assert_eq!(reason, "boom");
        }
        _ => panic!("expected a terminal failure"),
    }
    assert_eq!(allocator.allocate(), 7);
}

#[test]
fn scripted_run_converges_after_conflicts() {
    // the ledger rejects the first two attempts with rising expected
    // nonces and accepts the third: exactly three submissions, each
    // above the previously rejected nonce
    let mut allocator = NonceAllocator::new(5);
    let responses = vec![
        LedgerResponse::ExecutionInvalidNonce { tx_nonce: 6, ak_nonce: 9 },
        LedgerResponse::RequestInvalidNonce { tx_nonce: 10, ak_nonce: 12 },
        LedgerResponse::ExecutionSucceeded,
    ];
    let run = provision_scripted(
        &mut allocator,
        &b"alice.near".to_vec(),
        &valid_key_bytes(),
        &responses,
    );
    assert!(matches!(run.result, ProvisionResult::Created));
    assert_eq!(run.submissions, vec![6, 10, 13]);
}

#[test]
fn scripted_run_stops_after_one_fatal_answer() {
    let mut allocator = NonceAllocator::new(5);
    let responses = vec![LedgerResponse::ExecutionFailed { reason: "lack of funds".to_string() }];
    let run = provision_scripted(
        &mut allocator,
        &b"alice.near".to_vec(),
        &valid_key_bytes(),
        &responses,
    );
    match run.result {
        ProvisionResult::Failed { error: ProvisionError::ExecutionFailed { reason } } => {
            assert_eq!(reason, "lack of funds");
        }
        _ => panic!("expected a fatal failure"),
    }
    assert_eq!(run.submissions, vec![6]);
}

#[test]
fn scripted_run_makes_no_submission_on_bad_key() {
    let mut allocator = NonceAllocator::new(5);
    let responses = vec![LedgerResponse::ExecutionSucceeded];
    let run = provision_scripted(
        &mut allocator,
        &b"alice.near".to_vec(),
        &b"not a key".to_vec(),
        &responses,
    );
    assert!(matches!(
        run.result,
        ProvisionResult::Failed { error: ProvisionError::InvalidPublicKey }
    ));
    assert!(run.submissions.is_empty());
    // the allocator was never touched
    assert_eq!(allocator.allocate(), 6);
}

#[test]
fn scripted_run_reports_exhaustion_when_conflicts_keep_coming() {
    let mut allocator = NonceAllocator::new(5);
    let responses = vec![
        LedgerResponse::ExecutionInvalidNonce { tx_nonce: 6, ak_nonce: 9 },
        LedgerResponse::ExecutionInvalidNonce { tx_nonce: 10, ak_nonce: 20 },
    ];
    let run = provision_scripted(
        &mut allocator,
        &b"alice.near".to_vec(),
        &valid_key_bytes(),
        &responses,
    );
    assert!(matches!(run.result, ProvisionResult::Exhausted));
    assert_eq!(run.submissions, vec![6, 10]);
    assert_eq!(allocator.allocate(), 22);
}

#[test]
fn full_seed_scenario_reaches_success_and_next_allocation() {
    // seed nonce = 5; allocate returns 6; the ledger rejects expecting 9;
    // reconciliation yields 10; resubmission with 10 is accepted; an
    // unrelated later allocation returns 11
    let mut allocator = NonceAllocator::new(5);
    let responses = vec![
        LedgerResponse::ExecutionInvalidNonce { tx_nonce: 6, ak_nonce: 9 },
        LedgerResponse::ExecutionSucceeded,
    ];
    let run = provision_scripted(
        &mut allocator,
        &b"alice.near".to_vec(),
        &valid_key_bytes(),
        &responses,
    );
    assert!(matches!(run.result, ProvisionResult::Created));
    assert_eq!(run.submissions, vec![6, 10]);
    assert_eq!(allocator.allocate(), 11);
}

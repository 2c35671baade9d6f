//! The provisioning workflow: allocate a nonce, submit, and on a nonce
//! conflict reconcile and retry; success and every other failure are
//! terminal.
//!
//! The caller drives the network: it builds and broadcasts one attempt
//! per round and hands the classified answer back as a `LedgerResponse`.
//! `start_provisioning` and `continue_after_response` are the two
//! decisions of that live loop. `provision_scripted` runs the whole loop
//! against a pre-scripted sequence of responses, one response per
//! submission, and is the workflow's reference form: the script's length
//! bounds the number of attempts, where the live loop would keep retrying
//! while conflicts keep coming.

use vstd::prelude::*;

use crate::create_account::{
    account_id_valid, public_key_valid, spec_classify, LedgerResponse, ProvisionError,
    SubmissionOutcome, ValidatedRequest, validate_request,
};
use crate::nonce::{spec_new_nonce, NonceAllocator};

verus! {

/// The nonce data of a rejection, if the response is a nonce conflict in
/// either of its two shapes: the nonce the ledger saw, and the one it
/// expects.
pub open spec fn conflict_nonces(r: LedgerResponse) -> Option<(u64, u64)> {
    match r {
        LedgerResponse::ExecutionInvalidNonce { tx_nonce, ak_nonce } => Some((tx_nonce, ak_nonce)),
        LedgerResponse::RequestInvalidNonce { tx_nonce, ak_nonce } => Some((tx_nonce, ak_nonce)),
        _ => None,
    }
}

/// How one provisioning run ends.
pub enum ProvisionResult {
    /// The ledger accepted an attempt: the account exists.
    Created,
    /// Validation failed or the ledger failed fatally; never retried.
    Failed { error: ProvisionError },
    /// The response script ran out while a conflict retry was still
    /// pending.
    Exhausted,
}

/// What one whole run does, as a value: how it ends, the nonce of every
/// submission made, in order, and the counter value left behind.
pub struct RunModel {
    pub result: ProvisionResult,
    pub submissions: Seq<u64>,
    pub final_nonce: u64,
}

/// The retry loop on a response script, starting from attempt nonce
/// `nonce`: one submission per response; success and fatal answers are
/// terminal, a conflict corrects the nonce and goes on.
pub open spec fn run_model(nonce: u64, responses: Seq<LedgerResponse>) -> RunModel
    decreases responses.len(),
{
    if responses.len() == 0 {
        RunModel {
            result: ProvisionResult::Exhausted,
            submissions: Seq::empty(),
            final_nonce: nonce,
        }
    } else {
        match spec_classify(responses[0]) {
            SubmissionOutcome::Accepted => RunModel {
                result: ProvisionResult::Created,
                submissions: seq![nonce],
                final_nonce: nonce,
            },
            SubmissionOutcome::NonceConflict { reported_tx_nonce, ledger_expected_nonce } => {
                let rest = run_model(
                    spec_new_nonce(nonce, ledger_expected_nonce),
                    responses.drop_first(),
                );
                RunModel {
                    result: rest.result,
                    submissions: seq![nonce] + rest.submissions,
                    final_nonce: rest.final_nonce,
                }
            },
            SubmissionOutcome::Fatal { error } => RunModel {
                result: ProvisionResult::Failed { error },
                submissions: seq![nonce],
                final_nonce: nonce,
            },
        }
    }
}

/// No nonce along the run can overflow: the first attempt nonce and
/// every ledger-expected nonce stay far enough below the counter's
/// maximum for one correction per scripted response.
pub open spec fn run_in_range(nonce: u64, responses: Seq<LedgerResponse>) -> bool {
    &&& nonce + responses.len() <= u64::MAX
    &&& forall|j: int|
        0 <= j < responses.len() ==> (#[trigger] conflict_nonces(responses[j]) matches Some(p)
            ==> p.1 + responses.len() <= u64::MAX)
}

/// How starting a workflow comes out: an attempt to submit, or an
/// immediate failure with no network call made.
pub enum WorkflowStart {
    /// The request validated; submit with this first attempt nonce.
    Submit { request: ValidatedRequest, nonce: u64 },
    /// The request failed validation; nothing was allocated.
    Failed { error: ProvisionError },
}

/// What the workflow does next after one ledger response.
pub enum WorkflowStep {
    /// Terminal success.
    Done,
    /// Resubmit with this corrected nonce.
    Retry { nonce: u64 },
    /// Terminal failure; no retry.
    Failed { error: ProvisionError },
}

/// Starts one provisioning workflow: validates the request and, exactly
/// when both fields parse, allocates the first attempt nonce. On a
/// validation failure nothing is allocated and no network call is owed.
pub fn start_provisioning(
    allocator: &mut NonceAllocator,
    account_id: &Vec<u8>,
    public_key: &Vec<u8>,
) -> (s: WorkflowStart)
    requires
        old(allocator).current() < u64::MAX,
    ensures
        !(account_id_valid(account_id@) && public_key_valid(public_key@)) ==> *final(allocator)
            == *old(allocator),
        !account_id_valid(account_id@) ==> (s matches WorkflowStart::Failed { error }
            && error is InvalidAccountId),
        account_id_valid(account_id@) && !public_key_valid(public_key@) ==> (s matches
            WorkflowStart::Failed { error } && error is InvalidPublicKey),
        account_id_valid(account_id@) && public_key_valid(public_key@) ==> (s matches
            WorkflowStart::Submit { request, nonce } && request.wf() && request.account_id_view()
            == account_id@ && request.public_key_view() == public_key@ && nonce == old(
            allocator,
        ).current() + 1 && final(allocator).current() == nonce),
{
    match validate_request(account_id, public_key) {
        Err(error) => WorkflowStart::Failed { error },
        Ok(request) => {
            let nonce = allocator.allocate();
            WorkflowStart::Submit { request, nonce }
        },
    }
}

/// Acts on the ledger's answer to the attempt that used `attempted`:
/// success finishes; a nonce conflict, in either shape, reconciles the
/// shared counter against the ledger-expected nonce and schedules a
/// retry with the corrected value; anything else fails without retry.
pub fn continue_after_response(
    allocator: &mut NonceAllocator,
    attempted: u64,
    response: LedgerResponse,
) -> (s: WorkflowStep)
    requires
        old(allocator).current() < u64::MAX,
        conflict_nonces(response) matches Some(p) ==> p.1 < u64::MAX,
    ensures
        spec_classify(response) is Accepted ==> s == WorkflowStep::Done && *final(allocator)
            == *old(allocator),
        spec_classify(response) matches SubmissionOutcome::NonceConflict {
            ledger_expected_nonce,
            ..
        } ==> (s matches WorkflowStep::Retry { nonce } && nonce == spec_new_nonce(
            old(allocator).current(),
            ledger_expected_nonce,
        ) && final(allocator).current() == nonce),
        spec_classify(response) matches SubmissionOutcome::Fatal { error } ==> (s matches
            WorkflowStep::Failed { error: e } && e == error && *final(allocator) == *old(allocator)),
{
    let _ = attempted;
    match crate::create_account::classify_response(response) {
        SubmissionOutcome::Accepted => WorkflowStep::Done,
        SubmissionOutcome::NonceConflict { reported_tx_nonce, ledger_expected_nonce } => {
            let nonce = allocator.reconcile(reported_tx_nonce, ledger_expected_nonce);
            WorkflowStep::Retry { nonce }
        },
        SubmissionOutcome::Fatal { error } => WorkflowStep::Failed { error },
    }
}

/// One whole run and the submissions it made.
pub struct ProvisionRun {
    pub result: ProvisionResult,
    pub submissions: Vec<u64>,
}

/// Runs the whole workflow against a scripted sequence of ledger
/// responses, one response per submission: validate, allocate once,
/// then submit and retry on conflicts until a terminal answer or the
/// end of the script. Malformed requests fail before anything is
/// allocated or submitted.
pub fn provision_scripted(
    allocator: &mut NonceAllocator,
    account_id: &Vec<u8>,
    public_key: &Vec<u8>,
    responses: &Vec<LedgerResponse>,
) -> (r: ProvisionRun)
    requires
        old(allocator).current() + responses@.len() < u64::MAX,
        forall|j: int|
            0 <= j < responses@.len() ==> (#[trigger] conflict_nonces(responses@[j]) matches Some(
                p,
            ) ==> p.1 + responses@.len() <= u64::MAX),
    ensures
        !account_id_valid(account_id@) ==> (r.result matches ProvisionResult::Failed { error }
            && error is InvalidAccountId && r.submissions@.len() == 0 && *final(allocator)
            == *old(allocator)),
        account_id_valid(account_id@) && !public_key_valid(public_key@) ==> (r.result matches
            ProvisionResult::Failed { error } && error is InvalidPublicKey && r.submissions@.len()
            == 0 && *final(allocator) == *old(allocator)),
        account_id_valid(account_id@) && public_key_valid(public_key@) ==> (r.result == run_model(
            (old(allocator).current() + 1) as u64,
            responses@,
        ).result && r.submissions@ == run_model(
            (old(allocator).current() + 1) as u64,
            responses@,
        ).submissions && final(allocator).current() == run_model(
            (old(allocator).current() + 1) as u64,
            responses@,
        ).final_nonce),
{
    match validate_request(account_id, public_key) {
        Err(error) => {
            return ProvisionRun {
                result: ProvisionResult::Failed { error },
                submissions: Vec::new(),
            };
        },
        Ok(_) => {},
    }
    let mut nonce = allocator.allocate();
    let ghost full = run_model(nonce, responses@);
    proof {
        assert(responses@.skip(0) =~= responses@);
    }
    let mut submissions: Vec<u64> = Vec::new();
    let mut i: usize = 0;
    while i < responses.len()
        invariant
            account_id_valid(account_id@),
            public_key_valid(public_key@),
            full == run_model((old(allocator).current() + 1) as u64, responses@),
            i <= responses@.len(),
            allocator.current() == nonce,
            nonce + (responses@.len() - i) <= u64::MAX,
            forall|j: int|
                0 <= j < responses@.len() ==> (#[trigger] conflict_nonces(
                    responses@[j],
                ) matches Some(p) ==> p.1 + responses@.len() <= u64::MAX),
            run_model(nonce, responses@.skip(i as int)).result == full.result,
            submissions@ + run_model(nonce, responses@.skip(i as int)).submissions
                == full.submissions,
            run_model(nonce, responses@.skip(i as int)).final_nonce == full.final_nonce,
        decreases responses@.len() - i,
    {
        proof {
            assert(responses@.skip(i as int)[0] == responses@[i as int]);
            assert(responses@.skip(i as int).drop_first() =~= responses@.skip(i as int + 1));
        }
        let ghost subs0 = submissions@;
        let ghost nonce0 = nonce;
        submissions.push(nonce);
        proof {
            assert(submissions@ =~= subs0 + seq![nonce0]);
        }
        match &responses[i] {
            LedgerResponse::ExecutionSucceeded => {
                return ProvisionRun { result: ProvisionResult::Created, submissions };
            },
            LedgerResponse::ExecutionInvalidNonce { tx_nonce, ak_nonce } => {
                proof {
                    assert(conflict_nonces(responses@[i as int]) == Some((*tx_nonce, *ak_nonce)));
                }
                nonce = allocator.reconcile(*tx_nonce, *ak_nonce);
            },
            LedgerResponse::RequestInvalidNonce { tx_nonce, ak_nonce } => {
                proof {
                    assert(conflict_nonces(responses@[i as int]) == Some((*tx_nonce, *ak_nonce)));
                }
                nonce = allocator.reconcile(*tx_nonce, *ak_nonce);
            },
            LedgerResponse::ExecutionFailed { reason } => {
                let error = ProvisionError::ExecutionFailed { reason: reason.clone() };
                return ProvisionRun { result: ProvisionResult::Failed { error }, submissions };
            },
            LedgerResponse::RequestFailed { reason } => {
                let error = ProvisionError::RequestFailed { reason: reason.clone() };
                return ProvisionRun { result: ProvisionResult::Failed { error }, submissions };
            },
        }
        proof {
            assert(subs0 + (seq![nonce0] + run_model(
                nonce,
                responses@.skip(i as int + 1),
            ).submissions) =~= submissions@ + run_model(
                nonce,
                responses@.skip(i as int + 1),
            ).submissions);
        }
        i = i + 1;
    }
    proof {
        assert(responses@.skip(responses@.len() as int) =~= Seq::<LedgerResponse>::empty());
        assert(submissions@ + Seq::<u64>::empty() =~= submissions@);
    }
    ProvisionRun { result: ProvisionResult::Exhausted, submissions }
}

/// Fatal short-circuit: when the first answer is neither success nor a
/// nonce conflict, the run fails with exactly that error after exactly
/// one submission; no retry happens and the counter stays where the one
/// attempt left it.
pub proof fn lemma_fatal_short_circuit(nonce: u64, responses: Seq<LedgerResponse>)
    requires
        responses.len() >= 1,
        spec_classify(responses[0]) is Fatal,
    ensures
        run_model(nonce, responses).result matches ProvisionResult::Failed { error } && error
            == spec_classify(responses[0])->error,
        run_model(nonce, responses).submissions == seq![nonce],
        run_model(nonce, responses).final_nonce == nonce,
{
}

/// Retry convergence: when the ledger rejects the first attempts with
/// nonce conflicts and accepts the next one, the run ends created after
/// exactly one submission per response, the first with the given nonce,
/// every retry with a nonce strictly above both the attempt the ledger
/// rejected and the nonce it said it expected.
pub proof fn lemma_retry_convergence(nonce: u64, responses: Seq<LedgerResponse>)
    requires
        responses.len() >= 1,
        run_in_range(nonce, responses),
        forall|j: int| 0 <= j < responses.len() - 1 ==> conflict_nonces(
            #[trigger] responses[j],
        ) is Some,
        spec_classify(responses.last()) is Accepted,
    ensures
        run_model(nonce, responses).result is Created,
        run_model(nonce, responses).submissions.len() == responses.len(),
        run_model(nonce, responses).submissions[0] == nonce,
        forall|j: int|
            #![trigger run_model(nonce, responses).submissions[j]]
            0 <= j < responses.len() - 1 ==> run_model(nonce, responses).submissions[j + 1]
                > run_model(nonce, responses).submissions[j],
        forall|j: int|
            #![trigger conflict_nonces(responses[j])]
            0 <= j < responses.len() - 1 ==> (conflict_nonces(responses[j]) matches Some(q)
                ==> run_model(nonce, responses).submissions[j + 1] > q.1),
    decreases responses.len(),
{
    if responses.len() == 1 {
        assert(responses[0] == responses.last());
    } else {
        assert(conflict_nonces(responses[0]) is Some);
        let p = conflict_nonces(responses[0])->0;
        let next = spec_new_nonce(nonce, p.1);
        assert(spec_classify(responses[0]) matches SubmissionOutcome::NonceConflict {
            ledger_expected_nonce,
            ..
        } && ledger_expected_nonce == p.1);
        assert(p.1 + responses.len() <= u64::MAX);
        assert(next > nonce && next > p.1);
        let rest = responses.drop_first();
        assert(run_in_range(next, rest)) by {
            assert forall|j: int|
                0 <= j < rest.len() implies (#[trigger] conflict_nonces(rest[j]) matches Some(q)
                ==> q.1 + rest.len() <= u64::MAX) by {
                assert(rest[j] == responses[j + 1]);
                assert(conflict_nonces(responses[j + 1]) matches Some(q) ==> q.1
                    + responses.len() <= u64::MAX);
            }
        };
        assert(rest.last() == responses.last());
        assert forall|j: int| 0 <= j < rest.len() - 1 implies conflict_nonces(
            #[trigger] rest[j],
        ) is Some by {
            assert(rest[j] == responses[j + 1]);
            assert(conflict_nonces(responses[j + 1]) is Some);
        }
        lemma_retry_convergence(next, rest);
        let m = run_model(nonce, responses);
        let mrest = run_model(next, rest);
        assert(m.submissions == seq![nonce] + mrest.submissions);
        assert(m.submissions[0] == nonce);
        assert forall|j: int|
            0 <= j < responses.len() - 1 implies m.submissions[j + 1] > m.submissions[j] && (
        #[trigger] conflict_nonces(responses[j]) matches Some(q) ==> m.submissions[j + 1]
            > q.1) by {
            if j == 0 {
                assert(m.submissions[1] == mrest.submissions[0]);
            } else {
                assert(m.submissions[j] == mrest.submissions[j - 1]);
                assert(m.submissions[j + 1] == mrest.submissions[j]);
                assert(responses[j] == rest[j - 1]);
                assert(mrest.submissions[j - 1 + 1] > mrest.submissions[j - 1]);
                assert(conflict_nonces(rest[j - 1]) matches Some(q) ==> mrest.submissions[j - 1
                    + 1] > q.1);
            }
        }
        assert forall|j: int|
            0 <= j < responses.len() - 1 implies #[trigger] m.submissions[j + 1]
            > m.submissions[j] by {
            assert(conflict_nonces(responses[j]) is Some);
        }
    }
}

} // verus!

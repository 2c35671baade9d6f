//! Building, signing and classifying one account-creation attempt.
//!
//! A single attempt turns a validated request into a transaction whose
//! action list is exactly, in order: create the account, add the new
//! key with full access, transfer the funding amount. The transaction is
//! signed by the base signer over its canonical hash and sent by the
//! caller; the ledger's answer is classified into one of three outcomes.
//! Parsing, transaction assembly and signing are done by the ledger
//! client libraries behind the trusted items below; everything around
//! them is verified.

use vstd::prelude::*;

use core::str::FromStr;
use near_crypto::{InMemorySigner, PublicKey};
use near_primitives::account::AccessKey;
use near_primitives::action::{Action, AddKeyAction, CreateAccountAction, TransferAction};
use near_primitives::hash::CryptoHash;
use near_primitives::transaction::{SignedTransaction, Transaction};
use near_primitives::types::AccountId;

use crate::block_hash::BlockHash;
use crate::text::append_bytes;

verus! {

#[verifier::external_type_specification]
#[verifier::external_body]
pub struct ExInMemorySigner(InMemorySigner);

#[verifier::external_type_specification]
#[verifier::external_body]
pub struct ExAction(Action);

#[verifier::external_type_specification]
#[verifier::external_body]
pub struct ExSignedTransaction(SignedTransaction);

/// A lowercase letter or digit: the ordinary characters of an account
/// identifier.
pub open spec fn account_char(b: u8) -> bool {
    (97 <= b <= 122) || (48 <= b <= 57)
}

/// A separator within an account identifier: `-`, `_` or `.`.
pub open spec fn account_separator(b: u8) -> bool {
    b == 45 || b == 95 || b == 46
}

/// A syntactically valid account identifier: 2 to 64 bytes, lowercase
/// letters, digits and separators only, neither starting nor ending with
/// a separator, and no two separators adjacent.
pub open spec fn account_id_valid(s: Seq<u8>) -> bool {
    &&& 2 <= s.len() <= 64
    &&& forall|i: int| 0 <= i < s.len() ==> account_char(#[trigger] s[i]) || account_separator(s[i])
    &&& forall|i: int| 0 < i < s.len() ==> !(account_separator(#[trigger] s[i]) && account_separator(s[i - 1]))
    &&& !account_separator(s[0])
    &&& !account_separator(s[s.len() - 1])
}

/// A syntactically valid public key: an optional key-type prefix and
/// base-58 key data of the right length, as the signing library defines
/// it.
pub uninterp spec fn public_key_valid(s: Seq<u8>) -> bool;

/// Relies on `AccountId::from_str` of near-primitives: it accepts exactly
/// the identifiers of 2 to 64 characters from `a`-`z`, `0`-`9`, `-`, `_`
/// and `.`, neither starting nor ending with a separator and with no two
/// separators adjacent; anything else, including bytes that are not
/// valid text, is rejected.
#[verifier::external_body]
pub(crate) fn account_id_parses(raw: &Vec<u8>) -> (r: bool)
    ensures
        r == account_id_valid(raw@),
{
    match core::str::from_utf8(raw.as_slice()) {
        Ok(s) => AccountId::from_str(s).is_ok(),
        Err(_) => false,
    }
}

/// Relies on `PublicKey::from_str` of near-crypto: whether a key parses
/// depends on its bytes alone.
#[verifier::external_body]
pub(crate) fn public_key_parses(raw: &Vec<u8>) -> (r: bool)
    ensures
        r == public_key_valid(raw@),
{
    match core::str::from_utf8(raw.as_slice()) {
        Ok(s) => PublicKey::from_str(s).is_ok(),
        Err(_) => false,
    }
}

/// One planned action of the account-creation transaction, as plain
/// values.
pub enum PlannedAction {
    CreateAccount,
    AddFullAccessKey { public_key: Vec<u8> },
    Transfer { deposit: u128 },
}

/// Relies on the action constructors of near-primitives and
/// `PublicKey::from_str` of near-crypto: turns one planned action into
/// the ledger client's action, field for field; the added key carries
/// full access.
#[verifier::external_body]
pub(crate) fn to_ledger_action(a: &PlannedAction) -> (r: Action)
    requires
        a matches PlannedAction::AddFullAccessKey { public_key } ==> public_key_valid(
            public_key@,
        ),
{
    match a {
        PlannedAction::CreateAccount => Action::CreateAccount(CreateAccountAction {}),
        PlannedAction::AddFullAccessKey { public_key } => Action::AddKey(Box::new(AddKeyAction {
            public_key: PublicKey::from_str(core::str::from_utf8(public_key).unwrap()).unwrap(),
            access_key: AccessKey::full_access(),
        })),
        PlannedAction::Transfer { deposit } => Action::Transfer(TransferAction {
            deposit: *deposit,
        }),
    }
}

/// Relies on `Transaction::get_hash_and_size`, the base signer's `sign`
/// and `SignedTransaction::new` of near-primitives and near-crypto:
/// assembles the transaction from the given fields, signs its canonical
/// hash with the base signer's key, and pairs the two.
#[verifier::external_body]
pub(crate) fn sign_transaction(
    signer: &InMemorySigner,
    receiver: &Vec<u8>,
    actions: Vec<Action>,
    nonce: u64,
    block_hash: &Vec<u8>,
) -> (r: SignedTransaction)
    requires
        account_id_valid(receiver@),
        block_hash@.len() == 32,
{
    let mut hash_bytes = [0u8; 32];
    hash_bytes.copy_from_slice(block_hash.as_slice());
    let tx = Transaction {
        signer_id: signer.account_id.clone(),
        public_key: signer.public_key.clone(),
        nonce,
        receiver_id: AccountId::from_str(core::str::from_utf8(receiver).unwrap()).unwrap(),
        block_hash: CryptoHash(hash_bytes),
        actions,
    };
    let (hash, _size) = tx.get_hash_and_size();
    let signature = near_crypto::Signer::sign(signer, hash.as_ref());
    SignedTransaction::new(signature, tx)
}

/// Why a provisioning request failed.
#[derive(Debug)]
pub enum ProvisionError {
    /// The requested account identifier does not parse; found before any
    /// network call.
    InvalidAccountId,
    /// The requested public key does not parse; found before any network
    /// call.
    InvalidPublicKey,
    /// The ledger ran the transaction and it failed for a reason other
    /// than a nonce conflict.
    ExecutionFailed { reason: String },
    /// The request itself failed: transport error or a ledger-side
    /// rejection other than a nonce conflict.
    RequestFailed { reason: String },
}

/// A request whose account identifier and public key both parsed.
pub struct ValidatedRequest {
    account_id: Vec<u8>,
    public_key: Vec<u8>,
}

impl ValidatedRequest {
    /// The validated account identifier.
    pub closed spec fn account_id_view(&self) -> Seq<u8> {
        self.account_id@
    }

    /// The validated public key.
    pub closed spec fn public_key_view(&self) -> Seq<u8> {
        self.public_key@
    }

    /// Both fields passed validation.
    pub closed spec fn wf(&self) -> bool {
        account_id_valid(self.account_id@) && public_key_valid(self.public_key@)
    }

    /// The account identifier, for echoing back to the caller.
    pub fn account_id(&self) -> (r: &Vec<u8>)
        ensures
            r@ == self.account_id_view(),
    {
        &self.account_id
    }

    /// The public key, for echoing back to the caller.
    pub fn public_key(&self) -> (r: &Vec<u8>)
        ensures
            r@ == self.public_key_view(),
    {
        &self.public_key
    }
}

/// Checks the request syntactically, before any network call: the
/// account identifier first, then the public key. Returns the validated
/// request exactly when both parse.
pub fn validate_request(account_id: &Vec<u8>, public_key: &Vec<u8>) -> (r: Result<
    ValidatedRequest,
    ProvisionError,
>)
    ensures
        r is Ok <==> account_id_valid(account_id@) && public_key_valid(public_key@),
        r matches Ok(v) ==> v.wf() && v.account_id_view() == account_id@ && v.public_key_view()
            == public_key@,
        !account_id_valid(account_id@) ==> (r matches Err(e) && e is InvalidAccountId),
        account_id_valid(account_id@) && !public_key_valid(public_key@) ==> (r matches Err(e)
            && e is InvalidPublicKey),
{
    if !account_id_parses(account_id) {
        return Err(ProvisionError::InvalidAccountId);
    }
    if !public_key_parses(public_key) {
        return Err(ProvisionError::InvalidPublicKey);
    }
    let mut account_copy: Vec<u8> = Vec::new();
    append_bytes(&mut account_copy, account_id);
    let mut key_copy: Vec<u8> = Vec::new();
    append_bytes(&mut key_copy, public_key);
    proof {
        assert(account_copy@ =~= account_id@);
        assert(key_copy@ =~= public_key@);
    }
    Ok(ValidatedRequest { account_id: account_copy, public_key: key_copy })
}

/// The three actions of an account-creation transaction, in the only
/// order ever submitted: create the account, add the requested key with
/// full access, fund it.
pub fn plan_actions(public_key: &Vec<u8>, funding_amount: u128) -> (r: Vec<PlannedAction>)
    ensures
        r@.len() == 3,
        r@[0] is CreateAccount,
        r@[1] matches PlannedAction::AddFullAccessKey { public_key: k } && k@ == public_key@,
        r@[2] matches PlannedAction::Transfer { deposit } && deposit == funding_amount,
{
    let mut key_copy: Vec<u8> = Vec::new();
    append_bytes(&mut key_copy, public_key);
    proof {
        assert(key_copy@ =~= public_key@);
    }
    let mut r: Vec<PlannedAction> = Vec::new();
    r.push(PlannedAction::CreateAccount);
    r.push(PlannedAction::AddFullAccessKey { public_key: key_copy });
    r.push(PlannedAction::Transfer { deposit: funding_amount });
    r
}

/// Builds and signs one transaction attempt: the planned action list,
/// the given nonce and block reference, signed by the base signer. A
/// fresh attempt is built on every retry; attempts are never reused.
pub fn build_signed_attempt(
    signer: &InMemorySigner,
    request: &ValidatedRequest,
    funding_amount: u128,
    nonce: u64,
    block_hash: &BlockHash,
) -> (r: SignedTransaction)
    requires
        request.wf(),
        block_hash.wf(),
{
    let plan = plan_actions(&request.public_key, funding_amount);
    let mut actions: Vec<Action> = Vec::new();
    let mut i: usize = 0;
    while i < plan.len()
        invariant
            request.wf(),
            plan@.len() == 3,
            plan@[0] is CreateAccount,
            plan@[1] matches PlannedAction::AddFullAccessKey { public_key: k } && k@
                == request.public_key_view(),
            plan@[2] is Transfer,
            i <= plan@.len(),
        decreases plan@.len() - i,
    {
        assert(plan@[i as int] matches PlannedAction::AddFullAccessKey { public_key } ==>
            public_key_valid(public_key@));
        actions.push(to_ledger_action(&plan[i]));
        i = i + 1;
    }
    sign_transaction(signer, &request.account_id, actions, nonce, block_hash.bytes())
}

/// The ledger's answer to one broadcast attempt, as plain values. A
/// nonce rejection arrives in either of two shapes: as a terminal
/// execution status, or as a request-level error.
pub enum LedgerResponse {
    /// The ledger reports final success.
    ExecutionSucceeded,
    /// Terminal execution status carrying an invalid-nonce error:
    /// the transaction used `tx_nonce`, the access key expects `ak_nonce`.
    ExecutionInvalidNonce { tx_nonce: u64, ak_nonce: u64 },
    /// Any other failed execution status.
    ExecutionFailed { reason: String },
    /// Request-level error carrying an invalid-nonce error.
    RequestInvalidNonce { tx_nonce: u64, ak_nonce: u64 },
    /// Any other request-level error, including transport failures.
    RequestFailed { reason: String },
}

/// What one attempt came to: accepted, rejected over the nonce, or
/// fatally failed.
pub enum SubmissionOutcome {
    /// The ledger reports final success.
    Accepted,
    /// The ledger rejected exactly the nonce: `reported_tx_nonce` is the
    /// nonce it says the attempt used, `ledger_expected_nonce` the one
    /// its access key currently expects. Recoverable by reconciliation.
    NonceConflict { reported_tx_nonce: u64, ledger_expected_nonce: u64 },
    /// Any other rejection; never retried.
    Fatal { error: ProvisionError },
}

/// The outcome a response classifies into: both invalid-nonce shapes
/// normalize to the one conflict outcome; everything else that is not
/// success is fatal.
pub open spec fn spec_classify(r: LedgerResponse) -> SubmissionOutcome {
    match r {
        LedgerResponse::ExecutionSucceeded => SubmissionOutcome::Accepted,
        LedgerResponse::ExecutionInvalidNonce { tx_nonce, ak_nonce } =>
            SubmissionOutcome::NonceConflict {
                reported_tx_nonce: tx_nonce,
                ledger_expected_nonce: ak_nonce,
            },
        LedgerResponse::ExecutionFailed { reason } => SubmissionOutcome::Fatal {
            error: ProvisionError::ExecutionFailed { reason },
        },
        LedgerResponse::RequestInvalidNonce { tx_nonce, ak_nonce } =>
            SubmissionOutcome::NonceConflict {
                reported_tx_nonce: tx_nonce,
                ledger_expected_nonce: ak_nonce,
            },
        LedgerResponse::RequestFailed { reason } => SubmissionOutcome::Fatal {
            error: ProvisionError::RequestFailed { reason },
        },
    }
}

/// Classifies the ledger's answer to one attempt.
pub fn classify_response(r: LedgerResponse) -> (o: SubmissionOutcome)
    ensures
        o == spec_classify(r),
{
    match r {
        LedgerResponse::ExecutionSucceeded => SubmissionOutcome::Accepted,
        LedgerResponse::ExecutionInvalidNonce { tx_nonce, ak_nonce } =>
            SubmissionOutcome::NonceConflict {
                reported_tx_nonce: tx_nonce,
                ledger_expected_nonce: ak_nonce,
            },
        LedgerResponse::ExecutionFailed { reason } => SubmissionOutcome::Fatal {
            error: ProvisionError::ExecutionFailed { reason },
        },
        LedgerResponse::RequestInvalidNonce { tx_nonce, ak_nonce } =>
            SubmissionOutcome::NonceConflict {
                reported_tx_nonce: tx_nonce,
                ledger_expected_nonce: ak_nonce,
            },
        LedgerResponse::RequestFailed { reason } => SubmissionOutcome::Fatal {
            error: ProvisionError::RequestFailed { reason },
        },
    }
}

} // verus!

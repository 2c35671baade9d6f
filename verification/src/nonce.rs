//! Nonce allocation and conflict-driven reconciliation.
//!
//! The signing identity owns one process-wide counter: the next nonce to
//! try. `allocate` hands out the next value; `reconcile` corrects the
//! counter after the ledger rejected an attempt and reported the nonce it
//! actually expects. Both strictly increase the counter, so no two issued
//! nonces are ever equal.

use vstd::prelude::*;

verus! {

/// The next nonce to try once `nonce1` and `nonce2` are both known to be
/// spent or stale: one past the larger of the two. The result is exact
/// whenever it fits in 64 bits.
pub open spec fn spec_new_nonce(nonce1: u64, nonce2: u64) -> u64 {
    (if nonce1 >= nonce2 {
        nonce1 + 1
    } else {
        nonce2 + 1
    }) as u64
}

/// Returns a nonce greater than both the nonces we know are too small.
pub fn new_nonce(nonce1: u64, nonce2: u64) -> (r: u64)
    requires
        nonce1 < u64::MAX,
        nonce2 < u64::MAX,
    ensures
        r == spec_new_nonce(nonce1, nonce2),
        r > nonce1,
        r > nonce2,
{
    if nonce1 >= nonce2 {
        nonce1 + 1
    } else {
        nonce2 + 1
    }
}

/// The signer's shared nonce counter. The raw cell stays private: callers
/// go through `allocate` and `reconcile` only.
pub struct NonceAllocator {
    counter: u64,
}

impl NonceAllocator {
    /// The counter's current value: the nonce most recently issued, or the
    /// seed if none was issued yet.
    pub closed spec fn current(&self) -> u64 {
        self.counter
    }

    /// Seeds the counter, once at startup, from the ledger's current view
    /// of the identity's access-key nonce.
    pub fn new(seed: u64) -> (a: NonceAllocator)
        ensures
            a.current() == seed,
    {
        NonceAllocator { counter: seed }
    }

    /// Increments the counter and returns the new value. Every call
    /// returns a value strictly greater than all previously issued ones.
    pub fn allocate(&mut self) -> (r: u64)
        requires
            old(self).current() < u64::MAX,
        ensures
            final(self).current() == old(self).current() + 1,
            r == final(self).current(),
            r > old(self).current(),
            final(self).current() as nat == nonce_after(
                old(self).current() as nat,
                NonceOp::Allocate,
            ),
    {
        self.counter = self.counter + 1;
        self.counter
    }

    /// Advances the counter past the nonce the ledger reported as expected
    /// and returns the new value, so that no concurrent caller holding a
    /// now-stale nonce collides again. `attempted` is the nonce the ledger
    /// says it saw; the correction uses `ledger_expected` alone.
    pub fn reconcile(&mut self, attempted: u64, ledger_expected: u64) -> (r: u64)
        requires
            old(self).current() < u64::MAX,
            ledger_expected < u64::MAX,
        ensures
            final(self).current() == spec_new_nonce(old(self).current(), ledger_expected),
            r == final(self).current(),
            final(self).current() > old(self).current(),
            final(self).current() >= ledger_expected + 1,
            final(self).current() as nat == nonce_after(
                old(self).current() as nat,
                NonceOp::Reconcile {
                    attempted: attempted as nat,
                    ledger_expected: ledger_expected as nat,
                },
            ),
    {
        let _ = attempted;
        let next = new_nonce(self.counter, ledger_expected);
        self.counter = next;
        next
    }
}

/// One operation on the shared counter, for reasoning about whole
/// histories of interleaved calls.
pub enum NonceOp {
    Allocate,
    Reconcile { attempted: nat, ledger_expected: nat },
}

/// The counter after applying `op` to a counter holding `c`.
pub open spec fn nonce_after(c: nat, op: NonceOp) -> nat {
    match op {
        NonceOp::Allocate => c + 1,
        NonceOp::Reconcile { ledger_expected, .. } => if c >= ledger_expected {
            c + 1
        } else {
            ledger_expected + 1
        },
    }
}

/// The counter after a whole sequence of operations, starting from `seed`.
pub open spec fn counter_after(seed: nat, ops: Seq<NonceOp>) -> nat
    decreases ops.len(),
{
    if ops.len() == 0 {
        seed
    } else {
        nonce_after(counter_after(seed, ops.drop_last()), ops.last())
    }
}

/// The nonces issued by a sequence of operations: both `allocate` and
/// `reconcile` return the counter value they leave behind.
pub open spec fn issued_nonces(seed: nat, ops: Seq<NonceOp>) -> Seq<nat> {
    Seq::new(ops.len(), |i: int| counter_after(seed, ops.take(i + 1)))
}

/// Every operation strictly increases the counter.
pub proof fn lemma_op_strictly_increases(c: nat, op: NonceOp)
    ensures
        nonce_after(c, op) > c,
{
}

/// The counter never decreases across a history of operations, and grows
/// strictly with every operation performed.
pub proof fn lemma_counter_monotonic(seed: nat, ops: Seq<NonceOp>, i: int, j: int)
    requires
        0 <= i <= j <= ops.len(),
    ensures
        counter_after(seed, ops.take(i)) <= counter_after(seed, ops.take(j)),
        i < j ==> counter_after(seed, ops.take(i)) < counter_after(seed, ops.take(j)),
    decreases j - i,
{
    if i < j {
        lemma_counter_monotonic(seed, ops, i, j - 1);
        assert(ops.take(j).drop_last() =~= ops.take(j - 1));
        assert(counter_after(seed, ops.take(j)) == nonce_after(
            counter_after(seed, ops.take(j - 1)),
            ops[j - 1],
        ));
    }
}

/// Uniqueness: however calls interleave, no two issued nonces are equal;
/// a later call always returns a strictly larger value.
pub proof fn lemma_issued_nonces_distinct(seed: nat, ops: Seq<NonceOp>, i: int, j: int)
    requires
        0 <= i < j < ops.len(),
    ensures
        issued_nonces(seed, ops)[i] < issued_nonces(seed, ops)[j],
{
    lemma_counter_monotonic(seed, ops, i + 1, j + 1);
}

/// Reconciliation monotonicity: once some operation reconciled against a
/// ledger-expected nonce, the counter stays at least one past it for the
/// rest of the history, whatever else interleaves.
pub proof fn lemma_reconcile_monotonic(seed: nat, ops: Seq<NonceOp>, i: int, j: int)
    requires
        0 <= i < ops.len(),
        ops[i] is Reconcile,
        i < j <= ops.len(),
    ensures
        counter_after(seed, ops.take(j)) >= ops[i]->ledger_expected + 1,
{
    assert(ops.take(i + 1).drop_last() =~= ops.take(i));
    assert(ops.take(i + 1).last() == ops[i]);
    lemma_counter_monotonic(seed, ops, i + 1, j);
}

} // verus!

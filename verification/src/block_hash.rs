//! Block-reference freshness cache.
//!
//! Every submission attempt must carry a recent block hash. One background
//! task periodically fetches the ledger's latest block hash and hands the
//! outcome to the cache; readers never wait on the network. A failed fetch
//! keeps the previous value: stale-but-valid is preferred over failing
//! reads, so `read` is total and never errors.

use vstd::prelude::*;

verus! {

/// Number of bytes in a block hash.
pub const BLOCK_HASH_LEN: usize = 32;

/// An opaque block reference: the hash of a recent ledger block. The
/// workflow never looks inside it; it only carries it into transactions.
pub struct BlockHash {
    bytes: Vec<u8>,
}

impl View for BlockHash {
    type V = Seq<u8>;

    closed spec fn view(&self) -> Seq<u8> {
        self.bytes@
    }
}

impl BlockHash {
    /// A block hash is exactly `BLOCK_HASH_LEN` bytes.
    pub open spec fn wf(&self) -> bool {
        self@.len() == BLOCK_HASH_LEN
    }

    /// Wraps raw hash bytes; any length other than `BLOCK_HASH_LEN` is
    /// rejected.
    pub fn from_bytes(bytes: Vec<u8>) -> (r: Option<BlockHash>)
        ensures
            r is Some <==> bytes@.len() == BLOCK_HASH_LEN,
            r matches Some(h) ==> h@ == bytes@ && h.wf(),
    {
        if bytes.len() == BLOCK_HASH_LEN {
            Some(BlockHash { bytes })
        } else {
            None
        }
    }

    /// The raw hash bytes.
    pub fn bytes(&self) -> (r: &Vec<u8>)
        ensures
            r@ == self@,
    {
        &self.bytes
    }
}

/// The cached value after a history of refresh outcomes: the value of the
/// last successful fetch, or the initial value if none succeeded yet.
/// `None` entries are failed fetches and leave the value unchanged.
pub open spec fn cached_after(initial: Seq<u8>, outcomes: Seq<Option<Seq<u8>>>) -> Seq<u8>
    decreases outcomes.len(),
{
    if outcomes.len() == 0 {
        initial
    } else {
        match outcomes.last() {
            Some(v) => v,
            None => cached_after(initial, outcomes.drop_last()),
        }
    }
}

/// The shared cell holding the most recently observed block hash,
/// together with the ghost history of refresh outcomes it was fed.
pub struct BlockHashCache {
    current: BlockHash,
    initial: Ghost<Seq<u8>>,
    outcomes: Ghost<Seq<Option<Seq<u8>>>>,
}

impl View for BlockHashCache {
    type V = Seq<u8>;

    closed spec fn view(&self) -> Seq<u8> {
        self.current@
    }
}

impl BlockHashCache {
    /// The value the cache was primed with at startup.
    pub closed spec fn initial_value(&self) -> Seq<u8> {
        self.initial@
    }

    /// The outcome of every refresh attempt so far, in order.
    pub closed spec fn refresh_outcomes(&self) -> Seq<Option<Seq<u8>>> {
        self.outcomes@
    }

    /// The cache always holds a well-formed hash: the last successfully
    /// fetched value, or the initial one while none succeeded.
    pub closed spec fn wf(&self) -> bool {
        &&& self.current.wf()
        &&& self.current@ == cached_after(self.initial@, self.outcomes@)
    }

    /// Primes the cache, once at startup, with a synchronously fetched
    /// block hash.
    pub fn new(initial: BlockHash) -> (c: BlockHashCache)
        requires
            initial.wf(),
        ensures
            c.wf(),
            c@ == initial@,
            c.initial_value() == initial@,
            c.refresh_outcomes() == Seq::<Option<Seq<u8>>>::empty(),
    {
        let ghost view0 = initial@;
        BlockHashCache { current: initial, initial: Ghost(view0), outcomes: Ghost(Seq::empty()) }
    }

    /// Returns the last known-good block hash. Never blocks and never
    /// errors, whatever the refresh history looks like; the value may be
    /// up to one refresh interval old.
    pub fn read(&self) -> (r: &BlockHash)
        requires
            self.wf(),
        ensures
            r@ == self@,
            r.wf(),
    {
        &self.current
    }

    /// Records the outcome of one background refresh attempt: a fetched
    /// hash replaces the cached value; a failed fetch (`None`) keeps the
    /// previous value.
    pub fn apply_refresh(&mut self, fetched: Option<BlockHash>)
        requires
            old(self).wf(),
            fetched matches Some(h) ==> h.wf(),
        ensures
            final(self).wf(),
            final(self)@ == match fetched {
                Some(h) => h@,
                None => old(self)@,
            },
            final(self).initial_value() == old(self).initial_value(),
            final(self).refresh_outcomes() == old(self).refresh_outcomes().push(
                match fetched {
                    Some(h) => Some(h@),
                    None => None,
                },
            ),
    {
        let ghost entry: Option<Seq<u8>> = match fetched {
            Some(ref h) => Some(h@),
            None => None,
        };
        proof {
            self.outcomes@ = self.outcomes@.push(entry);
            assert(self.outcomes@.drop_last() =~= old(self).outcomes@);
        }
        match fetched {
            Some(h) => {
                self.current = h;
            },
            None => {},
        }
    }
}

/// A failed refresh never changes what `read` returns.
pub proof fn lemma_failed_refresh_keeps_value(initial: Seq<u8>, outcomes: Seq<Option<Seq<u8>>>)
    ensures
        cached_after(initial, outcomes.push(None)) == cached_after(initial, outcomes),
{
    assert(outcomes.push(None).drop_last() =~= outcomes);
}

/// However many refreshes fail in a row, `read` keeps returning the last
/// successful value indefinitely.
pub proof fn lemma_repeated_failures_keep_value(
    initial: Seq<u8>,
    outcomes: Seq<Option<Seq<u8>>>,
    k: int,
)
    requires
        0 <= k <= outcomes.len(),
        forall|j: int| k <= j < outcomes.len() ==> outcomes[j] is None,
    ensures
        cached_after(initial, outcomes) == cached_after(initial, outcomes.take(k)),
    decreases outcomes.len() - k,
{
    if k < outcomes.len() {
        assert(outcomes.last() is None);
        lemma_repeated_failures_keep_value(initial, outcomes.drop_last(), k);
        assert(outcomes.drop_last().take(k) =~= outcomes.take(k));
    } else {
        assert(outcomes.take(k) =~= outcomes);
    }
}

/// Staleness bound: the cache never serves anything older than the last
/// successful fetch. If the fetch at position `k` succeeded and none after
/// it did, `read` returns exactly that fetched value.
pub proof fn lemma_read_is_last_success(
    initial: Seq<u8>,
    outcomes: Seq<Option<Seq<u8>>>,
    k: int,
)
    requires
        0 <= k < outcomes.len(),
        outcomes[k] is Some,
        forall|j: int| k < j < outcomes.len() ==> outcomes[j] is None,
    ensures
        cached_after(initial, outcomes) == outcomes[k]->0,
{
    lemma_repeated_failures_keep_value(initial, outcomes, k + 1);
    assert(outcomes.take(k + 1).last() == outcomes[k]);
}

} // verus!

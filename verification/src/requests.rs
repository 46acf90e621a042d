//! Requests sent to the hub that still wait for their answer.
use vstd::prelude::*;
use dashmap::DashMap;

verus! {

/// The concurrent map of `dashmap`.
#[verifier::external_type_specification]
#[verifier::external_body]
#[verifier::reject_recursive_types(K)]
#[verifier::reject_recursive_types(V)]
#[verifier::reject_recursive_types(S)]
pub struct ExDashMap<K, V, S>(DashMap<K, V, S>);

/// What a map of pending requests holds: the time each request was sent
/// (milliseconds of a monotonic clock), by request id.
pub uninterp spec fn pending_of(m: DashMap<u32, u64>) -> Map<u32, u64>;

/// `DashMap::new`: a map that holds nothing.
#[verifier::external_body]
fn pending_new() -> (fresh: DashMap<u32, u64>)
    ensures
        pending_of(fresh).dom() == Set::<u32>::empty(),
{
    DashMap::new()
}

/// `DashMap::insert`: the map afterwards holds `at` for `id`, and what it
/// held for every other id.
#[verifier::external_body]
fn pending_insert(m: &mut DashMap<u32, u64>, id: u32, at: u64)
    ensures
        pending_of(*final(m)) == pending_of(*old(m)).insert(id, at),
{
    m.insert(id, at);
}

/// `DashMap::remove`: the map afterwards holds nothing for `id`, the rest
/// unchanged; returned is what it held for `id`, if anything.
#[verifier::external_body]
fn pending_remove(m: &mut DashMap<u32, u64>, id: u32) -> (r: Option<u64>)
    ensures
        pending_of(*final(m)) == pending_of(*old(m)).remove(id),
        r == (if pending_of(*old(m)).dom().contains(id) {
            Some(pending_of(*old(m))[id])
        } else {
            None
        }),
{
    m.remove(&id).map(|entry| entry.1)
}

/// The entries of the map, each once, in the map's own order (that of a
/// clone of it, walked by `DashMap`'s owning iterator). Which order that
/// is depends on the map's hasher and is left unsaid.
#[verifier::external_body]
fn pending_entries(m: &DashMap<u32, u64>) -> (r: Vec<(u32, u64)>)
    ensures
        forall|k: int| 0 <= k < r@.len() ==> pending_of(*m).contains_pair(#[trigger] r@[k].0, r@[k].1),
        forall|id: u32| #[trigger] pending_of(*m).dom().contains(id) ==> exists|k: int| 0 <= k < r@.len() && r@[k].0 == id,
        forall|a: int, b: int| 0 <= a < b < r@.len() ==> r@[a].0 != r@[b].0,
{
    m.clone().into_iter().collect()
}

/// Whole seconds from `at` to `now` (none when `now` is earlier).
pub open spec fn elapsed_secs(at: u64, now: u64) -> int {
    if now >= at { (now - at) / 1000 } else { 0 }
}

/// Whether a request sent at `at` has waited more than `timeout` whole
/// seconds at `now`.
pub open spec fn timed_out(at: u64, now: u64, timeout: u64) -> bool {
    elapsed_secs(at, now) > timeout
}

/// The pending requests that have not timed out at `now`.
pub open spec fn fresh_requests(p: Map<u32, u64>, now: u64, timeout: u64) -> Map<u32, u64> {
    Map::new(|id: u32| p.dom().contains(id) && !timed_out(p[id], now, timeout), |id: u32| p[id])
}

/// Seconds a request may wait for its answer.
pub const REQUEST_TIMEOUT_SECS: u64 = 10;

/// The requests sent to the hub that wait for their answer, and whether the
/// client that sends them runs.
pub struct RequestManager {
    pending: DashMap<u32, u64>,
    timeout: u64,
    running: bool,
}

impl RequestManager {
    /// The pending requests: when each was sent, by id.
    pub closed spec fn pending(&self) -> Map<u32, u64> {
        pending_of(self.pending)
    }

    /// Seconds a request may wait.
    pub closed spec fn timeout_secs(&self) -> u64 {
        self.timeout
    }

    /// Whether the client runs.
    pub closed spec fn runs(&self) -> bool {
        self.running
    }

    /// No request pending, a ten-second timeout, not running.
    pub fn new() -> (m: RequestManager)
        ensures
            m.pending() == Map::<u32, u64>::empty(),
            m.timeout_secs() == REQUEST_TIMEOUT_SECS,
            !m.runs(),
    {
        let m = RequestManager { pending: pending_new(), timeout: REQUEST_TIMEOUT_SECS, running: false };
        assert(m.pending() =~= Map::<u32, u64>::empty());
        m
    }

    /// Marks the client as running.
    pub fn start(&mut self)
        ensures
            final(self).runs(),
            final(self).pending() == old(self).pending(),
            final(self).timeout_secs() == old(self).timeout_secs(),
    {
        self.running = true;
    }

    /// Marks the client as stopped.
    pub fn stop(&mut self)
        ensures
            !final(self).runs(),
            final(self).pending() == old(self).pending(),
            final(self).timeout_secs() == old(self).timeout_secs(),
    {
        self.running = false;
    }

    /// Whether the client runs.
    pub fn is_running(&self) -> (b: bool)
        ensures
            b == self.runs(),
    {
        self.running
    }

    /// Records request `id` as sent at `now_ms`; a request pending under the
    /// same id is replaced.
    pub fn add_request(&mut self, id: u32, now_ms: u64)
        ensures
            final(self).pending() == old(self).pending().insert(id, now_ms),
            final(self).timeout_secs() == old(self).timeout_secs(),
            final(self).runs() == old(self).runs(),
    {
        pending_insert(&mut self.pending, id, now_ms);
    }

    /// Drops the requests that have waited longer than the timeout at
    /// `now_ms`; returned are their ids, each once.
    pub fn remove_pending_requests(&mut self, now_ms: u64) -> (removed: Vec<u32>)
        ensures
            final(self).pending() == fresh_requests(old(self).pending(), now_ms, old(self).timeout_secs()),
            final(self).timeout_secs() == old(self).timeout_secs(),
            final(self).runs() == old(self).runs(),
            removed@.no_duplicates(),
            forall|id: u32| removed@.contains(id) <==> (old(self).pending().dom().contains(id)
                && timed_out(old(self).pending()[id], now_ms, old(self).timeout_secs())),
    {
        let ghost p0 = self.pending();
        let timeout = self.timeout;
        let entries = pending_entries(&self.pending);
        let mut removed: Vec<u32> = Vec::new();
        let mut i: usize = 0;
        while i < entries.len()
            invariant
                i <= entries@.len(),
                timeout == self.timeout,
                timeout == old(self).timeout_secs(),
                self.runs() == old(self).runs(),
                p0 == old(self).pending(),
                forall|k: int| 0 <= k < entries@.len() ==> p0.contains_pair(#[trigger] entries@[k].0, entries@[k].1),
                forall|id: u32| #[trigger] p0.dom().contains(id) ==> seen(entries@, entries@.len() as int, id),
                forall|a: int, b: int| 0 <= a < b < entries@.len() ==> entries@[a].0 != entries@[b].0,
                forall|id: u32| #[trigger] self.pending().dom().contains(id) <==> (p0.dom().contains(id)
                    && !(timed_out(p0[id], now_ms, timeout) && seen(entries@, i as int, id))),
                forall|id: u32| #[trigger] self.pending().dom().contains(id) ==> self.pending()[id] == p0[id],
                removed@.no_duplicates(),
                forall|id: u32| #[trigger] removed@.contains(id) <==> (p0.dom().contains(id)
                    && timed_out(p0[id], now_ms, timeout) && seen(entries@, i as int, id)),
            decreases entries@.len() - i,
        {
            let (id, at) = entries[i];
            proof {
                assert(p0.contains_pair(entries@[i as int].0, entries@[i as int].1));
                lemma_seen_step(entries@, i as int);
                assert(!seen(entries@, i as int, id)) by {
                    if seen(entries@, i as int, id) {
                        let k = choose|k: int| 0 <= k < i && entries@[k].0 == id;
                        assert(entries@[k].0 != entries@[i as int].0);
                    }
                }
            }
            let ghost before = removed@;
            let ghost pending_before = self.pending();
            if elapsed_secs_of(at, now_ms) > timeout {
                pending_remove(&mut self.pending, id);
                removed.push(id);
                proof {
                    assert forall|x: u32| #[trigger] removed@.contains(x) <==> (before.contains(x) || x == id) by {
                        if removed@.contains(x) {
                            let j = choose|j: int| 0 <= j < removed@.len() && removed@[j] == x;
                            if j < before.len() {
                                assert(before[j] == x);
                            }
                        }
                        if before.contains(x) {
                            let j = choose|j: int| 0 <= j < before.len() && before[j] == x;
                            assert(removed@[j] == x);
                        }
                        if x == id {
                            assert(removed@[removed@.len() - 1] == x);
                        }
                    }
                    assert(removed@.no_duplicates()) by {
                        assert forall|a: int, b: int| 0 <= a < b < removed@.len() implies removed@[a] != removed@[b] by {
                            if b == removed@.len() - 1 {
                                assert(before.contains(removed@[a]));
                            } else {
                                assert(before[a] == removed@[a] && before[b] == removed@[b]);
                            }
                        }
                    }
                }
            }
            i = i + 1;
        }
        proof {
            assert(self.pending() =~= fresh_requests(p0, now_ms, timeout));
        }
        removed
    }

    /// Completes the request an answer is for. When the answer carries the
    /// id of a pending request, that request is dropped and the answer is
    /// handed to whoever waits for it; `delivered` is whether that hand-over
    /// succeeded (the waiter may have given up), and is what is returned.
    /// Otherwise nothing changes and `false` is returned.
    pub fn complete_request(&mut self, seq_id: Option<u32>, delivered: bool) -> (completed: bool)
        ensures
            completed == (seq_id matches Some(id) && old(self).pending().dom().contains(id) && delivered),
            final(self).pending() == match seq_id {
                Some(id) => old(self).pending().remove(id),
                None => old(self).pending(),
            },
            final(self).timeout_secs() == old(self).timeout_secs(),
            final(self).runs() == old(self).runs(),
    {
        match seq_id {
            Some(id) => {
                let r = pending_remove(&mut self.pending, id);
                r.is_some() && delivered
            },
            None => false,
        }
    }
}

/// Whether request `id` is among the first `n` entries.
pub open spec fn seen(entries: Seq<(u32, u64)>, n: int, id: u32) -> bool {
    exists|k: int| 0 <= k < n && entries[k].0 == id
}

/// Taking one more entry adds exactly its id to those seen.
proof fn lemma_seen_step(entries: Seq<(u32, u64)>, i: int)
    requires
        0 <= i < entries.len(),
    ensures
        forall|x: u32| #[trigger] seen(entries, i + 1, x) == (seen(entries, i, x) || x == entries[i].0),
{
    assert forall|x: u32| #[trigger] seen(entries, i + 1, x) == (seen(entries, i, x) || x == entries[i].0) by {
        if seen(entries, i + 1, x) {
            let k = choose|k: int| 0 <= k < i + 1 && entries[k].0 == x;
            if k < i {
                assert(seen(entries, i, x));
            }
        }
        if seen(entries, i, x) {
            let k = choose|k: int| 0 <= k < i && entries[k].0 == x;
            assert(entries[k].0 == x);
        }
        if x == entries[i].0 {
            assert(entries[i].0 == x);
        }
    }
}

/// Whole seconds from `at` to `now` (none when `now` is earlier).
fn elapsed_secs_of(at: u64, now: u64) -> (s: u64)
    ensures
        s == elapsed_secs(at, now),
{
    if now >= at { (now - at) / 1000 } else { 0 }
}

/// An answer to a request that was just recorded completes it, and leaves
/// the other pending requests as they were.
pub proof fn lemma_added_request_completes(pending: Map<u32, u64>, id: u32, at: u64)
    ensures
        pending.insert(id, at).dom().contains(id),
        pending.insert(id, at).remove(id) == pending.remove(id),
{
    assert(pending.insert(id, at).remove(id) =~= pending.remove(id));
}

/// A request is dropped for its age only once it has waited longer than the
/// timeout: one sent no earlier than `timeout` whole seconds before stays.
pub proof fn lemma_recent_requests_stay(pending: Map<u32, u64>, id: u32, now: u64, timeout: u64)
    requires
        pending.dom().contains(id),
        elapsed_secs(pending[id], now) <= timeout,
    ensures
        fresh_requests(pending, now, timeout).dom().contains(id),
        fresh_requests(pending, now, timeout)[id] == pending[id],
{
}

} // verus!

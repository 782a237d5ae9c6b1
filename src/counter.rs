use vstd::prelude::*;
use std::sync::atomic::{AtomicUsize, Ordering};

verus! {

/// The value that follows `v` on the counter: one more, wrapping to zero at
/// the width of `usize`.
pub open spec fn next_count(v: usize) -> usize {
    if v == usize::MAX {
        0
    } else {
        (v + 1) as usize
    }
}

/// The counter's value after `k` increments from `c`, one after another.
pub open spec fn count_after(c: usize, k: nat) -> usize
    decreases k,
{
    if k == 0 {
        c
    } else {
        next_count(count_after(c, (k - 1) as nat))
    }
}

/// The value that an increment of `v` produces.
pub fn successor(v: usize) -> (r: usize)
    ensures
        r == next_count(v),
{
    if v == usize::MAX {
        0
    } else {
        v + 1
    }
}

/// Increments applied one after another, each storing the successor of the
/// value it replaced (`RequestCounter::increment`), as the atomic counter
/// linearizes them: from `initial`, with no wrap, the `k`-th produces
/// `initial + k`, so `n` increments leave `initial + n` and hand out the
/// values `initial + 1 ..= initial + n`, each once.
pub proof fn lemma_increments_issue_each_value_once(initial: usize, n: nat)
    requires
        initial + n <= usize::MAX,
    ensures
        count_after(initial, n) == initial + n,
        forall|k: nat| 1 <= k <= n ==> #[trigger] count_after(initial, k) == initial + k,
        forall|i: nat, j: nat|
            1 <= i < j <= n ==> #[trigger] count_after(initial, i) != #[trigger] count_after(
                initial,
                j,
            ),
    decreases n,
{
    if n > 0 {
        lemma_increments_issue_each_value_once(initial, (n - 1) as nat);
        assert forall|k: nat| 1 <= k <= n implies #[trigger] count_after(initial, k) == initial
            + k by {
            if k < n {
            }
        }
    }
}

/// The process-wide request counter, shared by every request in flight.
///
/// Every increment is one atomic read-modify-write (`fetch_add`); that no
/// increment is lost rests on std's atomics and is not stated below. Which
/// value one call sees depends on the calls in flight on other threads, so
/// each method states only what holds whatever that is.
pub struct RequestCounter {
    hits: AtomicUsize,
}

impl RequestCounter {
    /// A counter that starts at zero.
    pub fn new() -> (c: RequestCounter) {
        RequestCounter { hits: AtomicUsize::new(0) }
    }

    /// Adds one atomically and returns the step it made: the value it
    /// replaced and the value it stored, the successor of the first.
    pub fn increment(&self) -> (r: (usize, usize))
        ensures
            r.1 == next_count(r.0),
    {
        let previous = self.hits.fetch_add(1, Ordering::SeqCst);
        (previous, successor(previous))
    }

    /// The current value. Increments that other threads have in flight may
    /// not be visible yet.
    pub fn read(&self) -> (r: usize) {
        self.hits.load(Ordering::SeqCst)
    }
}

} // verus!

//! The count of failures that have entered the handler.

use std::sync::atomic::{AtomicU32, Ordering};
use vstd::prelude::*;

verus! {

/// The count once one more failure has entered: one more than before,
/// except that the largest count stays as it is. A count that went on to
/// zero would let a later failure pass for the first.
pub open spec fn next_count_spec(count: u32) -> u32 {
    if count < u32::MAX {
        (count + 1) as u32
    } else {
        count
    }
}

/// The count that follows `count`.
#[verifier::when_used_as_spec(next_count_spec)]
pub fn next_count(count: u32) -> (next: u32)
    ensures
        next == next_count_spec(count),
{
    if count < u32::MAX {
        count + 1
    } else {
        count
    }
}

/// The count after `entries` failures have entered a new counter, which is
/// the count that the next failure finds.
pub open spec fn count_after(entries: nat) -> u32
    decreases entries,
{
    if entries == 0 {
        0
    } else {
        next_count_spec(count_after((entries - 1) as nat))
    }
}

/// The count is the number of failures that have entered, as long as that
/// number fits the count, and stays at its largest value from then on. It is
/// zero before the first failure and never again.
pub proof fn lemma_count_after(entries: nat)
    ensures
        entries <= u32::MAX ==> count_after(entries) == entries,
        entries > u32::MAX ==> count_after(entries) == u32::MAX,
        count_after(entries) == 0 <==> entries == 0,
    decreases entries,
{
    if entries > 0 {
        lemma_count_after((entries - 1) as nat);
    }
}

/// Calls `AtomicU32::fetch_update`, which puts into the atomic, in one
/// step that no other thread's step can fall into, what the callback makes
/// of the value held, and returns the value that was held. The callback is
/// `next_count`. Which value was held depends on the other threads, so
/// nothing is claimed of the outcome.
#[verifier::external_body]
fn count_in(entered: &AtomicU32) -> (prior: u32) {
    match entered.fetch_update(Ordering::SeqCst, Ordering::SeqCst, |count| Some(next_count(count))) {
        Ok(prior) => prior,
        Err(prior) => prior,
    }
}

/// Counts the failures that enter the handler, from any thread. Each entry
/// learns how many came before it. The count never returns to zero: at its
/// largest value it stays.
pub struct PanicCounter {
    entered: AtomicU32,
}

impl PanicCounter {
    /// A counter that nothing has entered yet.
    pub fn new() -> (counter: PanicCounter) {
        PanicCounter { entered: AtomicU32::new(0) }
    }

    /// Counts one more failure and returns the count that it found. The
    /// step from that count to the next is a single atomic one,
    /// sequentially consistent with every other entry. What it returns
    /// depends on the other threads, so nothing is claimed of it.
    pub fn enter(&self) -> (prior: u32) {
        count_in(&self.entered)
    }
}

} // verus!

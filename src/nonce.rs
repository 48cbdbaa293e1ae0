//! The sequence numbers handed to the submissions of one signer.
//!
//! A submission reads the counter's current value as its sequence number and holds the
//! counter exclusively until its outcome is known: on success the counter moves on by one,
//! on failure it stays, so the next submission reuses the number.
use vstd::prelude::*;

verus! {

/// The next sequence number to assign for one signer.
#[derive(Debug)]
pub struct NonceCounter {
    next: u64,
}

/// The counter after a submission whose outcome is `succeeded`.
pub open spec fn next_after(n: nat, succeeded: bool) -> nat {
    if succeeded {
        n + 1
    } else {
        n
    }
}

/// The counter after sequential submissions with the given outcomes, from `start`.
pub open spec fn counter_after(start: nat, outcomes: Seq<bool>) -> nat
    decreases outcomes.len(),
{
    if outcomes.len() == 0 {
        start
    } else {
        next_after(counter_after(start, outcomes.drop_last()), outcomes.last())
    }
}

/// The sequence number that each of sequential submissions with the given outcomes used.
pub open spec fn assigned_numbers(start: nat, outcomes: Seq<bool>) -> Seq<nat> {
    Seq::new(outcomes.len(), |i: int| counter_after(start, outcomes.take(i)))
}

impl NonceCounter {
    pub closed spec fn spec_next(&self) -> nat {
        self.next as nat
    }

    /// A counter that starts at the configured value.
    pub fn new(start: u64) -> (r: NonceCounter)
        ensures
            r.spec_next() == start,
    {
        NonceCounter { next: start }
    }

    /// The sequence number of the submission that holds the counter.
    pub fn current(&self) -> (r: u64)
        ensures
            r == self.spec_next(),
    {
        self.next
    }

    /// Records the outcome of the submission that holds the counter.
    pub fn settle(&mut self, succeeded: bool)
        requires
            succeeded ==> old(self).spec_next() < u64::MAX,
        ensures
            final(self).spec_next() == next_after(old(self).spec_next(), succeeded),
    {
        if succeeded {
            self.next = self.next + 1;
        }
    }
}

/// After `n` successful sequential submissions from `start`, the numbers used are
/// `start, start + 1, ..., start + n - 1` and the counter stands at `start + n`.
pub proof fn lemma_successes_are_gap_free(start: nat, outcomes: Seq<bool>)
    requires
        forall|i: int| 0 <= i < outcomes.len() ==> outcomes[i],
    ensures
        counter_after(start, outcomes) == start + outcomes.len(),
        forall|i: int|
            0 <= i < outcomes.len() ==> #[trigger] assigned_numbers(start, outcomes)[i] == start
                + i,
    decreases outcomes.len(),
{
    if outcomes.len() > 0 {
        lemma_successes_are_gap_free(start, outcomes.drop_last());
    }
    assert forall|i: int| 0 <= i < outcomes.len() implies #[trigger] assigned_numbers(
        start,
        outcomes,
    )[i] == start + i by {
        let pre = outcomes.take(i);
        assert forall|j: int| 0 <= j < pre.len() implies pre[j] by {
            assert(pre[j] == outcomes[j]);
        }
        lemma_successes_are_gap_free(start, pre);
    }
}

/// A failed submission leaves the counter where it was, so the next one reuses its number.
pub proof fn lemma_failure_keeps_number(start: nat, outcomes: Seq<bool>)
    ensures
        counter_after(start, outcomes.push(false)) == counter_after(start, outcomes),
        assigned_numbers(start, outcomes.push(false).push(true))[outcomes.len() as int + 1]
            == assigned_numbers(start, outcomes.push(false))[outcomes.len() as int],
{
    let o1 = outcomes.push(false);
    let o2 = o1.push(true);
    assert(o1.drop_last() =~= outcomes);
    assert(o2.take(outcomes.len() as int + 1) =~= o1);
    assert(o1.take(outcomes.len() as int) =~= outcomes);
}

} // verus!

//! Allocation of process identifiers.

use vstd::prelude::*;

verus! {

/// The allocator of process identifiers. It holds the next identifier to hand out,
/// and travels inside the registry so that it is saved and merged with it.
#[derive(Debug, PartialEq, Eq)]
pub struct Id {
    pub counter: usize,
}

impl View for Id {
    type V = nat;

    open spec fn view(&self) -> nat {
        self.counter as nat
    }
}

/// The identifier handed out by call number `k` (the first call is number 0) in a run
/// of calls to [`Id::next`] on an allocator whose counter stands at `start`.
pub open spec fn issued(start: nat, k: nat) -> nat
    decreases k,
{
    if k == 0 {
        start
    } else {
        issued(start + 1, (k - 1) as nat)
    }
}

/// The larger of two counters.
pub open spec fn highest(a: nat, b: nat) -> nat {
    if a >= b {
        a
    } else {
        b
    }
}

impl Id {
    /// An allocator whose first identifier is `start`.
    pub fn new(start: usize) -> (id: Id)
        ensures
            id@ == start,
    {
        Id { counter: start }
    }

    /// Hands out the identifier the counter stands at and moves the counter past it.
    pub fn next(&mut self) -> (id: usize)
        requires
            old(self)@ < usize::MAX,
        ensures
            id == old(self)@,
            final(self)@ == old(self)@ + 1,
    {
        let id: usize = self.counter;
        self.counter = id + 1;
        id
    }

    /// Raises the counter to that of `other` if that one is ahead; never lowers it.
    pub fn merge(&mut self, other: &Id)
        ensures
            final(self)@ == highest(old(self)@, other@),
    {
        if other.counter > self.counter {
            self.counter = other.counter;
        }
    }
}

impl Clone for Id {
    fn clone(&self) -> (copy: Id)
        ensures
            copy == *self,
    {
        Id { counter: self.counter }
    }
}

/// Call number `k` hands out the starting counter plus `k`.
pub proof fn lemma_issued_is_offset(start: nat, k: nat)
    ensures
        issued(start, k) == start + k,
    decreases k,
{
    if k > 0 {
        lemma_issued_is_offset(start + 1, (k - 1) as nat);
    }
}

/// Identifiers are handed out in strictly increasing order: a later call on the same
/// allocator returns a larger identifier than every earlier one.
pub proof fn lemma_issued_increases(start: nat, earlier: nat, later: nat)
    requires
        earlier < later,
    ensures
        issued(start, earlier) < issued(start, later),
{
    lemma_issued_is_offset(start, earlier);
    lemma_issued_is_offset(start, later);
}

/// After call number `k` the next call is the first call on an allocator that stands
/// one past the identifier just handed out.
pub proof fn lemma_issued_step(start: nat, k: nat)
    ensures
        issued(start, k + 1) == issued(issued(start, k) + 1, 0),
{
    lemma_issued_is_offset(start, k);
    lemma_issued_is_offset(start, k + 1);
}

/// Merging never lowers a counter, so no identifier handed out before the merge by
/// either allocator is handed out again after it.
pub proof fn lemma_merge_never_regresses(mine: nat, theirs: nat, k: nat)
    ensures
        highest(mine, theirs) >= mine,
        highest(mine, theirs) >= theirs,
        issued(highest(mine, theirs), k) >= mine,
        issued(highest(mine, theirs), k) >= theirs,
{
    lemma_issued_is_offset(highest(mine, theirs), k);
}

} // verus!

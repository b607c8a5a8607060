//! The static resource arena.
//!
//! The device has no dynamic allocator; a value that must outlive the
//! function constructing it comes from a fixed table of cells, each
//! claimable exactly once for the life of the program. The first claim of a
//! cell wins; any later claim of the same cell is a programming error,
//! answered with an error the caller treats as fatal rather than as a
//! recoverable condition.

use vstd::prelude::*;

verus! {

/// Why a claim was refused.
#[derive(Clone, Copy, PartialEq, Eq, Structural, Debug)]
pub enum ArenaError {
    AlreadyClaimed,
}

/// Whether cell `id` of an arena in state `s` is still free to claim.
pub open spec fn claim_free(s: Seq<bool>, id: int) -> bool {
    !s[id]
}

/// The arena's state after a successful claim of cell `id`.
pub open spec fn after_claim(s: Seq<bool>, id: int) -> Seq<bool> {
    s.update(id, true)
}

/// A fixed table of claim-once cells. Its view is the claim table: true at
/// the cells already claimed.
pub struct Arena {
    claimed: Vec<bool>,
}

impl Arena {
    /// Which cells have been claimed.
    pub closed spec fn view(&self) -> Seq<bool> {
        self.claimed@
    }

    /// A fresh arena of `cells` cells, none claimed.
    pub fn new(cells: usize) -> (a: Arena)
        ensures
            a@.len() == cells,
            forall|i: int| 0 <= i < cells ==> claim_free(a@, i),
    {
        let mut claimed: Vec<bool> = Vec::new();
        let mut i: usize = 0;
        while i < cells
            invariant
                i <= cells,
                claimed@.len() == i,
                forall|j: int| 0 <= j < i ==> !claimed@[j],
            decreases cells - i,
        {
            claimed.push(false);
            i = i + 1;
        }
        Arena { claimed }
    }

    /// Number of cells.
    pub fn cells(&self) -> (n: usize)
        ensures
            n == self@.len(),
    {
        self.claimed.len()
    }

    /// Claims cell `id`: the first claim of a cell succeeds and marks it;
    /// every later claim of the same cell fails and changes nothing.
    pub fn claim(&mut self, id: usize) -> (r: Result<(), ArenaError>)
        requires
            id < old(self)@.len(),
        ensures
            r is Ok <==> claim_free(old(self)@, id as int),
            r is Ok ==> final(self)@ == after_claim(old(self)@, id as int),
            r is Err ==> *final(self) == *old(self),
            !claim_free(final(self)@, id as int),
            final(self)@.len() == old(self)@.len(),
    {
        if self.claimed[id] {
            Err(ArenaError::AlreadyClaimed)
        } else {
            self.claimed[id] = true;
            Ok(())
        }
    }
}

/// Claim-once law, directly: a claim leaves its own cell unclaimable.
pub proof fn lemma_claim_exclusive(s: Seq<bool>, id: int)
    requires
        0 <= id < s.len(),
    ensures
        !claim_free(after_claim(s, id), id),
{
}

/// Claim-once law, across later claims: a claimed cell stays claimed
/// whatever other cells are claimed after it, so no interleaving of claims
/// can hand the same cell out twice.
pub proof fn lemma_claim_monotonic(s: Seq<bool>, id: int, other: int)
    requires
        0 <= id < s.len(),
        0 <= other < s.len(),
        !claim_free(s, id),
    ensures
        !claim_free(after_claim(s, other), id),
{
}

} // verus!

//! The shared toggle state.
//!
//! One boolean, the device's sole channel between the network-exposed
//! control surface and the device-local output logic. Outside this crate
//! the value sits behind a mutual-exclusion lock; each verified operation
//! here is the whole body of one critical section, so every other task
//! observes only fully-formed values and operations never nest.

use vstd::prelude::*;

verus! {

/// The mutable state shared between the sampling/output side and the web
/// control handlers: a single output toggle. Created once at startup, alive
/// for the rest of the run.
#[derive(Clone, Copy, PartialEq, Eq, Structural, Debug)]
pub struct SharedState {
    pub power: bool,
}

/// The value after n toggles from v.
pub open spec fn toggled(v: bool, n: nat) -> bool
    decreases n,
{
    if n == 0 {
        v
    } else {
        !toggled(v, (n - 1) as nat)
    }
}

impl SharedState {
    /// The state the device starts with: the output on.
    pub fn new() -> (s: SharedState)
        ensures
            s.power,
    {
        SharedState { power: true }
    }

    /// Reads the toggle value.
    pub fn get(&self) -> (v: bool)
        ensures
            v == self.power,
    {
        self.power
    }

    /// Overwrites the toggle value.
    pub fn set(&mut self, v: bool)
        ensures
            final(self).power == v,
    {
        self.power = v;
    }

    /// Inverts the toggle and returns the new value.
    pub fn toggle(&mut self) -> (v: bool)
        ensures
            final(self).power == !old(self).power,
            v == final(self).power,
            final(self).power == toggled(old(self).power, 1),
    {
        proof {
            assert(toggled(self.power, 1) == !toggled(self.power, 0));
        }
        self.power = !self.power;
        self.power
    }
}

/// Shared-state toggle law: n toggles from v yield v when n is even and !v
/// when n is odd. Under the lock each toggle is indivisible, so any
/// interleaving of n toggles composes like this sequential chain.
pub proof fn lemma_toggle_parity(v: bool, n: nat)
    ensures
        toggled(v, n) == if n % 2 == 0 {
            v
        } else {
            !v
        },
    decreases n,
{
    if n > 0 {
        lemma_toggle_parity(v, (n - 1) as nat);
    }
}

/// Toggle runs compose: n toggles followed by m more land where n + m
/// toggles land. The lock makes any interleaving of two tasks' toggles
/// sequential, so with the parity law the final value depends only on the
/// total count, never on the interleaving.
pub proof fn lemma_toggle_compose(v: bool, n: nat, m: nat)
    ensures
        toggled(v, n + m) == toggled(toggled(v, n), m),
    decreases m,
{
    if m > 0 {
        lemma_toggle_compose(v, n, (m - 1) as nat);
    }
}

} // verus!

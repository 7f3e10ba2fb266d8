//! The import guard: a single-permit, non-blocking mutual-exclusion
//! primitive. At most one import job holds the permit at a time; an
//! acquisition attempt either succeeds immediately or reports busy, it never
//! waits.

use vstd::prelude::*;

verus! {

/// A single binary permit. `try_acquire` succeeds exactly when the permit is
/// free, and a successful holder gives it back with `release`. The guard is
/// owned by the application context and shared by the dispatcher and the
/// import job; it is never a hidden global.
pub struct ImportGuard {
    held: bool,
}

impl ImportGuard {
    /// Whether the permit is currently held by a job.
    pub closed spec fn is_held(&self) -> bool {
        self.held
    }

    /// A fresh guard starts with the permit free.
    pub fn new() -> (g: ImportGuard)
        ensures
            !g.is_held(),
    {
        ImportGuard { held: false }
    }

    /// Non-blocking acquisition: succeeds if and only if the permit was free,
    /// and in every case leaves the permit held afterwards (a failed attempt
    /// changes nothing, since the permit was already held).
    pub fn try_acquire(&mut self) -> (acquired: bool)
        ensures
            acquired == !old(self).is_held(),
            final(self).is_held(),
            !acquired ==> *final(self) == *old(self),
    {
        let was_free = !self.held;
        self.held = true;
        was_free
    }

    /// Give the permit back; the guard is free afterwards.
    pub fn release(&mut self)
        ensures
            !final(self).is_held(),
    {
        self.held = false;
    }
}

/// How many of `n` back-to-back acquisition attempts succeed, starting from a
/// guard whose permit is held exactly when `held` says so. Each attempt
/// follows the contract of `try_acquire`: it succeeds exactly when the permit
/// is free at that moment, and leaves the permit held.
pub open spec fn successes_among_attempts(held: bool, n: nat) -> nat
    decreases n,
{
    if n == 0 {
        0
    } else {
        (if held {
            0nat
        } else {
            1nat
        }) + successes_among_attempts(true, (n - 1) as nat)
    }
}

proof fn lemma_no_success_when_held(n: nat)
    ensures
        successes_among_attempts(true, n) == 0,
    decreases n,
{
    if n > 0 {
        lemma_no_success_when_held((n - 1) as nat);
    }
}

/// Law: among any positive number of acquisition attempts on a free guard,
/// exactly one succeeds and the others observe busy; on a held guard, none
/// succeeds.
pub proof fn lemma_guard_admits_one(n: nat)
    requires
        n >= 1,
    ensures
        successes_among_attempts(false, n) == 1,
        successes_among_attempts(true, n) == 0,
{
    lemma_no_success_when_held((n - 1) as nat);
    lemma_no_success_when_held(n);
}

/// Law: on a guard whose permit is free — as it is after a finished job's
/// unconditional release — the next acquisition attempt succeeds, so a
/// subsequent import request is admitted.
pub proof fn lemma_free_guard_admits(g: ImportGuard)
    requires
        !g.is_held(),
    ensures
        successes_among_attempts(g.is_held(), 1) == 1,
{
    lemma_guard_admits_one(1);
}

} // verus!

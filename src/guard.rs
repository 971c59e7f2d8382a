//! The process-wide guard that makes the transport's global initialisation
//! run once, before the first connection is created.

use vstd::prelude::*;

verus! {

/// Whether the transport's global initialisation has been run. It goes from
/// `false` to `true` once and never back.
#[derive(Debug)]
pub struct InitGuard {
    initialized: bool,
}

/// One call of [`InitGuard::ensure_initialized`] on a guard in state
/// `initialized`: whether it asks for the global initialisation, and the state
/// after it.
pub open spec fn guard_step(initialized: bool) -> (bool, bool) {
    (!initialized, true)
}

/// How many global initialisations `n` successive calls ask for, starting
/// from state `initialized`.
pub open spec fn init_calls(initialized: bool, n: nat) -> nat
    decreases n,
{
    if n == 0 {
        0
    } else {
        let (run, next) = guard_step(initialized);
        (if run { 1nat } else { 0nat }) + init_calls(next, (n - 1) as nat)
    }
}

impl InitGuard {
    /// A guard for a process in which nothing has been initialised yet.
    pub fn new() -> (r: InitGuard)
        ensures
            !r.initialized_spec(),
    {
        InitGuard { initialized: false }
    }

    pub closed spec fn initialized_spec(&self) -> bool {
        self.initialized
    }

    /// Whether the global initialisation has been asked for.
    #[verifier::when_used_as_spec(initialized_spec)]
    pub fn is_initialized(&self) -> (r: bool)
        ensures
            r == self.initialized_spec(),
    {
        self.initialized
    }

    /// Records a caller's need for the transport; returns whether this caller
    /// must run the global initialisation, which is so for the first caller only.
    pub fn ensure_initialized(&mut self) -> (run: bool)
        ensures
            (run, final(self).initialized_spec()) == guard_step(old(self).initialized_spec()),
    {
        let run = !self.initialized;
        self.initialized = true;
        run
    }
}

/// Once the guard is set, further calls ask for no initialisation.
pub proof fn lemma_no_init_after_first(n: nat)
    ensures
        init_calls(true, n) == 0,
    decreases n,
{
    if n > 0 {
        lemma_no_init_after_first((n - 1) as nat);
    }
}

/// Any number `n >= 1` of calls on a fresh guard ask for exactly one global
/// initialisation.
pub proof fn lemma_init_exactly_once(n: nat)
    requires
        n >= 1,
    ensures
        init_calls(false, n) == 1,
{
    lemma_no_init_after_first((n - 1) as nat);
}

} // verus!

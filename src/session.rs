use vstd::prelude::*;
use crate::error::ExploreError;

verus! {

/// An initialization status that leaves the thread in a single-threaded
/// apartment: success, or the benign "already initialized" status.
pub open spec fn init_accepted(status: i32) -> bool {
    status >= 0
}

/// Whether a thread is initialized after an attempt that reported `status`,
/// given whether it was before.
pub open spec fn after_attempt(initialized: bool, status: i32) -> bool {
    initialized || init_accepted(status)
}

/// Whether the thread is initialized after the first `n` attempts reported
/// `statuses`.
pub open spec fn initialized_after(statuses: Seq<i32>, n: nat) -> bool
    decreases n,
{
    if n == 0 {
        false
    } else {
        after_attempt(initialized_after(statuses, (n - 1) as nat), statuses[n - 1])
    }
}

/// The COM session of one thread: initialized once, never torn down.
#[derive(Clone, Copy, Debug, PartialEq, Eq, Structural)]
pub struct ComSession {
    pub initialized: bool,
}

impl ComSession {
    /// A thread that has not set up COM yet.
    pub fn new() -> (r: ComSession)
        ensures
            !r.initialized,
    {
        ComSession { initialized: false }
    }

    /// Whether the host still has to call the platform's initializer.
    pub fn needs_initialize(&self) -> (r: bool)
        ensures
            r == !self.initialized,
    {
        !self.initialized
    }

    /// Records the status of an initialization attempt. A thread that is
    /// already initialized stays so whatever the status; otherwise an
    /// accepted status initializes it, and any other is fatal.
    pub fn record_initialize(&mut self, status: i32) -> (r: Result<(), ExploreError>)
        ensures
            final(self).initialized == after_attempt(old(self).initialized, status),
            r is Ok <==> final(self).initialized,
            r is Err ==> r == Err::<(), ExploreError>(ExploreError::Initialize(status)),
    {
        if self.initialized || status >= 0 {
            self.initialized = true;
            Ok(())
        } else {
            Err(ExploreError::Initialize(status))
        }
    }
}

/// Once an attempt has initialized the thread, every later attempt succeeds,
/// whatever status the platform reports for it.
pub proof fn lemma_initialized_stays(statuses: Seq<i32>, i: nat, j: nat)
    requires
        i <= j,
        initialized_after(statuses, i),
    ensures
        initialized_after(statuses, j),
        forall|status: i32| after_attempt(initialized_after(statuses, j), status),
    decreases j - i,
{
    if i < j {
        lemma_initialized_stays(statuses, i, (j - 1) as nat);
    }
}

} // verus!

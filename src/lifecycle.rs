use vstd::prelude::*;

use crate::error::StreamError;

verus! {

/// The outcome of the create-context call, from its status code.
pub fn creation_outcome(code: i32) -> (r: Result<(), StreamError>)
    ensures
        code == 0 ==> r == Ok::<(), StreamError>(()),
        code != 0 ==> r == Err::<(), StreamError>(StreamError::ContextCreation),
{
    if code == 0 {
        Ok(())
    } else {
        Err(StreamError::ContextCreation)
    }
}

/// Whether the teardown entry point may be called after the attach made for it.
pub open spec fn teardown_allowed(attach_code: i32) -> bool {
    attach_code == 0
}

/// Decides, from the status of the attach made during teardown, whether the
/// teardown entry point is called. A failed attach skips teardown silently:
/// destruction has no way to report it.
pub fn should_tear_down(attach_code: i32) -> (r: bool)
    ensures
        r == teardown_allowed(attach_code),
{
    attach_code == 0
}

/// Records whether a runtime context has been torn down.
#[derive(Debug, Clone, Copy, PartialEq, Eq)]
pub struct TeardownGuard {
    pub done: bool,
}

/// The guard after a teardown request, and whether that request goes ahead.
pub open spec fn request_teardown(g: TeardownGuard) -> (TeardownGuard, bool) {
    (TeardownGuard { done: true }, !g.done)
}

impl TeardownGuard {
    /// A guard for a context that is live.
    pub fn new() -> (r: TeardownGuard)
        ensures
            !r.done,
    {
        TeardownGuard { done: false }
    }

    /// Asks to tear the context down: `true` the first time only, after which
    /// the guard stays marked as done.
    pub fn begin(&mut self) -> (r: bool)
        ensures
            (*final(self), r) == request_teardown(*old(self)),
    {
        let first = !self.done;
        self.done = true;
        first
    }
}

/// However often a context is asked to tear down, teardown goes ahead at most
/// once: a request that follows any earlier one is refused.
pub proof fn teardown_at_most_once(g: TeardownGuard)
    ensures
        !request_teardown(request_teardown(g).0).1,
        request_teardown(request_teardown(g).0).0 == request_teardown(g).0,
{
}

} // verus!

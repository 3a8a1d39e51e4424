//! The shutdown signal: a latched flag, clear at start, raised at most once.
use vstd::prelude::*;

verus! {

/// A cancellation flag that stays raised once raised.
#[derive(Clone, Copy, Debug, PartialEq, Eq, Structural)]
pub struct ShutdownSignal {
    raised: bool,
}

impl ShutdownSignal {
    /// Whether the signal has been raised.
    pub closed spec fn is_raised_spec(&self) -> bool {
        self.raised
    }

    /// A clear signal.
    pub fn new() -> (r: ShutdownSignal)
        ensures
            !r.is_raised_spec(),
    {
        ShutdownSignal { raised: false }
    }

    /// Raises the signal; a no-op where it is raised already.
    pub fn raise(&mut self)
        ensures
            final(self).is_raised_spec(),
    {
        self.raised = true;
    }

    /// Non-blocking poll of the signal.
    pub fn is_raised(&self) -> (r: bool)
        ensures
            r == self.is_raised_spec(),
    {
        self.raised
    }
}

} // verus!

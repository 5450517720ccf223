use vstd::prelude::*;

verus! {

/// The cancellation signal of one scope of work. The engine never stops a
/// computation by itself: a body reads the signal and gives up on its own.
#[derive(Debug, Clone, Copy, PartialEq, Eq, Structural)]
pub struct CancellationContext {
    cancelled: bool,
}

impl CancellationContext {
    pub closed spec fn cancelled(&self) -> bool {
        self.cancelled
    }

    /// A fresh scope, on which no cancellation was requested.
    pub fn new() -> (c: Self)
        ensures
            !c.cancelled(),
    {
        CancellationContext { cancelled: false }
    }

    /// Requests cancellation of the work in this scope.
    pub fn cancel(&mut self)
        ensures
            final(self).cancelled(),
    {
        self.cancelled = true;
    }

    pub fn is_cancelled(&self) -> (b: bool)
        ensures
            b == self.cancelled(),
    {
        self.cancelled
    }
}

} // verus!

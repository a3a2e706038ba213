//! Where calls into Python run.

use vstd::prelude::*;

verus! {

/// What a call into Python runs in: the event loop that its coroutines are handed to.
#[derive(Debug)]
pub struct PythonExecutionContext<L> {
    pub event_loop: L,
}

impl<L> PythonExecutionContext<L> {
    /// A context that runs in the given event loop.
    pub fn new(event_loop: L) -> (context: Self)
        ensures
            context.event_loop == event_loop,
    {
        PythonExecutionContext { event_loop }
    }
}

} // verus!

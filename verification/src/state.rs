//! The tracer's global state: the allocator binding and the trace.
//!
//! The state is made once, before any hook is installed, and replaced by an
//! empty one with no hooks once the trace was written out. Where it is kept
//! and how it is locked is up to the program that embeds the tracer; every
//! commit is to happen under its writer lock.

use crate::allocator::{Allocator, Noop};
use crate::engine::ListenerGuard;
use crate::trace::{Trace, TraceView};
use vstd::prelude::*;

verus! {

/// Global state.
pub struct State {
    pub allocator: Allocator,
    pub trace: Trace,
}

impl State {
    /// The state of a tracer that has recorded nothing yet.
    pub fn create(allocator: Allocator) -> (state: State)
        ensures
            state.allocator == allocator,
            state.trace@ == TraceView::empty(),
    {
        State { allocator, trace: Trace::new() }
    }

    /// Replaces the state with one that has no hooks and an empty trace, so
    /// that nothing which still reaches it finds the old buffer. Guards that
    /// the binding still held are given up.
    pub fn reset(&mut self) -> (released: Vec<ListenerGuard>)
        ensures
            final(self).allocator == Allocator::Noop(Noop),
            final(self).trace@ == TraceView::empty(),
            released@ == old(self).allocator.held(),
    {
        let progress = self.allocator.fini();
        self.allocator = Allocator::Noop(Noop);
        self.trace = Trace::new();
        progress.released
    }
}

} // verus!

//! Listeners for calls that allocate and calls that free.
//!
//! A listener is attached to one function. The engine calls it when the
//! function is entered and again before it returns; each time the listener is
//! handed what it reads of the call, and the handle to the calling thread's
//! pending store, which is `None` when the thread is already inside a handler
//! or has lost its thread-local storage. Without the handle a listener leaves
//! everything as it is.

use crate::engine::ListenerGuard;
use crate::thread::{
    complete_pending_alloc, complete_pending_free, completed_view, lemma_alloc_pair,
    lemma_free_pair, queue_pending_alloc, queue_pending_free, PendingView, ThreadState,
};
use crate::trace::{xor_fold, AllocEvent, Callstack, Event, FreeEvent, TraceView};
use vstd::prelude::*;

verus! {

/// A listener's call count after a return: one more for a completed event,
/// up to the largest count there is.
pub open spec fn counted(count: u64, completed: bool) -> u64 {
    if completed && count < u64::MAX {
        (count + 1) as u64
    } else {
        count
    }
}

/// Counts a return that completed an event.
pub fn count_completed(count: &mut u64, completed: &Option<(Event, Callstack)>)
    ensures
        *final(count) == counted(*old(count), completed is Some),
{
    if completed.is_some() {
        *count = count.saturating_add(1);
    }
}

/// A traced allocating call from entry to commit, whatever else is pending on
/// the thread and whatever the trace holds: the log grows by exactly one alloc
/// with the size taken at entry, the address taken at return, the clock
/// reading of the commit and the id of the callstack captured at entry; that
/// callstack is in the map; the store is as it was before the entry; and the
/// listener has counted one more call, unless its count was at the largest
/// value already.
pub proof fn lemma_alloc_call_is_recorded(
    store: PendingView,
    trace: TraceView,
    size: u64,
    callstack: Seq<u64>,
    address: u64,
    timestamp: u64,
    count: u64,
)
    ensures
        store.queue_alloc(size, callstack).completed_alloc(address) matches Some(completed) && {
            let after = trace.add_event(completed.0, Some(completed.1), timestamp);
            &&& after.events == trace.events.push(
                Event::Alloc(
                    AllocEvent { timestamp, address, size, callstack: xor_fold(callstack) },
                ),
            )
            &&& after.callstacks.contains_key(xor_fold(callstack))
        },
        store.queue_alloc(size, callstack).without_alloc() == store,
        count < u64::MAX ==> counted(count, true) == count + 1,
        counted(u64::MAX, true) == u64::MAX,
{
    lemma_alloc_pair(store, size, callstack, address);
}

/// A traced freeing call from entry to commit: the log grows by exactly one
/// free with the address taken at entry, the clock reading of the commit and
/// the id of the callstack captured at return; the store is as it was before
/// the entry.
pub proof fn lemma_free_call_is_recorded(
    store: PendingView,
    trace: TraceView,
    address: u64,
    callstack: Seq<u64>,
    timestamp: u64,
)
    ensures
        store.queue_free(address).completed_free(callstack) matches Some(completed) && {
            let after = trace.add_event(completed.0, Some(completed.1), timestamp);
            &&& after.events == trace.events.push(
                Event::Free(FreeEvent { timestamp, address, callstack: xor_fold(callstack) }),
            )
            &&& after.callstacks.contains_key(xor_fold(callstack))
        },
        store.queue_free(address).without_free() == store,
{
    lemma_free_pair(store, address, callstack);
}

/// Alloc listener: for a function whose first argument is the size asked for
/// and whose result is the address of the block.
pub struct AllocListener {
    pub guard: Option<ListenerGuard>,
    pub count: u64,
}

impl AllocListener {
    /// A listener that is not attached and has seen no call.
    pub fn new() -> (listener: Self)
        ensures
            listener.guard is None,
            listener.count == 0,
    {
        AllocListener { guard: None, count: 0 }
    }

    /// The function is entered with `arg0` as its first argument: queues a
    /// pending alloc of that size, with the callstack captured at entry.
    pub fn on_enter(&self, thread: Option<&mut ThreadState>, arg0: u64, callstack: Callstack)
        ensures
            match thread {
                Some(thread) => final(thread)@ == thread@.queue_alloc(arg0, callstack@),
                None => true,
            },
    {
        queue_pending_alloc(thread, arg0, callstack);
    }

    /// The function returns `return_value`: completes the youngest pending
    /// alloc with that address and hands it on for commit.
    pub fn on_leave(&mut self, thread: Option<&mut ThreadState>, return_value: u64) -> (completed:
        Option<(Event, Callstack)>)
        ensures
            final(self).guard == old(self).guard,
            final(self).count == counted(old(self).count, completed is Some),
            match thread {
                Some(thread) => {
                    &&& completed_view(completed) == thread@.completed_alloc(return_value)
                    &&& final(thread)@ == thread@.without_alloc()
                },
                None => completed is None,
            },
    {
        let completed = complete_pending_alloc(thread, return_value);
        count_completed(&mut self.count, &completed);
        completed
    }
}

/// Free listener: for a function whose first argument is the address of the
/// block to free.
pub struct FreeListener {
    pub guard: Option<ListenerGuard>,
    pub count: u64,
}

impl FreeListener {
    /// A listener that is not attached and has seen no call.
    pub fn new() -> (listener: Self)
        ensures
            listener.guard is None,
            listener.count == 0,
    {
        FreeListener { guard: None, count: 0 }
    }

    /// The function is entered with `arg0` as its first argument: queues a
    /// pending free of the block at that address. No callstack is taken here.
    pub fn on_enter(&self, thread: Option<&mut ThreadState>, arg0: u64)
        ensures
            match thread {
                Some(thread) => final(thread)@ == thread@.queue_free(arg0),
                None => true,
            },
    {
        queue_pending_free(thread, arg0);
    }

    /// The function returns: hands the youngest pending free on for commit,
    /// with the callstack captured at the return.
    pub fn on_leave(&mut self, thread: Option<&mut ThreadState>, callstack: Callstack) -> (completed:
        Option<(Event, Callstack)>)
        ensures
            final(self).guard == old(self).guard,
            final(self).count == counted(old(self).count, completed is Some),
            match thread {
                Some(thread) => {
                    &&& completed_view(completed) == thread@.completed_free(callstack@)
                    &&& final(thread)@ == thread@.without_free()
                },
                None => completed is None,
            },
    {
        let completed = complete_pending_free(thread, callstack);
        count_completed(&mut self.count, &completed);
        completed
    }
}

} // verus!

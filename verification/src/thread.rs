//! The per-thread store of pending calls.
//!
//! A traced call is recorded in two halves: its entry pushes a partial event
//! onto one of three stacks of the calling thread, and its return pops that
//! event and completes it. Stacks are needed because a traced function may call
//! another traced function on the same thread.
//!
//! An entry that records nothing, as that of a `calloc` whose size overflows,
//! must not let its return complete a call that encloses it. So every `calloc`
//! entry leaves a mark of its own that says whether it queued an alloc, and
//! its return goes by that mark.
//!
//! A handler reaches the store of its thread through a handle that it may fail
//! to get: when the thread is already inside a handler, or when thread-local
//! storage is gone. Every function here takes that handle as an `Option` and
//! does nothing when it is `None`.

use crate::trace::{AllocEvent, Callstack, Event, FreeEvent, ReallocEvent};
use vstd::prelude::*;

verus! {

/// Thread-local state.
pub struct ThreadState {
    pub pending_allocs: Vec<(AllocEvent, Callstack)>,
    pub pending_reallocs: Vec<(ReallocEvent, Callstack)>,
    pub pending_frees: Vec<FreeEvent>,
    /// For each `calloc` in progress, whether its entry queued a pending alloc.
    pub pending_callocs: Vec<bool>,
}

/// What a thread's store holds: the pending calls of each category, oldest first.
pub struct PendingView {
    pub allocs: Seq<(AllocEvent, Seq<u64>)>,
    pub reallocs: Seq<(ReallocEvent, Seq<u64>)>,
    pub frees: Seq<FreeEvent>,
    pub callocs: Seq<bool>,
}

/// A completed event with the callstack it is to be committed with.
pub type Completed = (Event, Seq<u64>);

impl PendingView {
    /// The store of a thread with no call in progress.
    pub open spec fn empty() -> PendingView {
        PendingView {
            allocs: Seq::empty(),
            reallocs: Seq::empty(),
            frees: Seq::empty(),
            callocs: Seq::empty(),
        }
    }

    /// The store after the entry of an allocating call for `size` bytes.
    pub open spec fn queue_alloc(self, size: u64, callstack: Seq<u64>) -> PendingView {
        PendingView {
            allocs: self.allocs.push(
                (AllocEvent { timestamp: 0, address: 0, size, callstack: 0 }, callstack),
            ),
            ..self
        }
    }

    /// The event that the return of an allocating call completes, with
    /// `address` as the call's result: the youngest pending one, if any.
    pub open spec fn completed_alloc(self, address: u64) -> Option<Completed> {
        if self.allocs.len() == 0 {
            None
        } else {
            Some(
                (
                    Event::Alloc(AllocEvent { address, ..self.allocs.last().0 }),
                    self.allocs.last().1,
                ),
            )
        }
    }

    /// The store after the return of an allocating call.
    pub open spec fn without_alloc(self) -> PendingView {
        if self.allocs.len() == 0 {
            self
        } else {
            PendingView { allocs: self.allocs.drop_last(), ..self }
        }
    }

    /// The store after the entry of a `calloc` for `nmemb` members of `size`
    /// bytes: a pending alloc of their product and the mark that it was
    /// queued, or, where the product does not fit the machine word, only the
    /// mark that nothing was.
    pub open spec fn queue_calloc(self, nmemb: u64, size: u64, callstack: Seq<u64>) -> PendingView {
        if nmemb * size <= u64::MAX {
            PendingView {
                callocs: self.callocs.push(true),
                ..self.queue_alloc((nmemb * size) as u64, callstack)
            }
        } else {
            PendingView { callocs: self.callocs.push(false), ..self }
        }
    }

    /// The event that the return of a `calloc` completes, with `address` as
    /// the call's result: the youngest pending alloc, provided that the entry
    /// of this `calloc` left a mark and queued one.
    pub open spec fn completed_calloc(self, address: u64) -> Option<Completed> {
        if self.callocs.len() > 0 && self.callocs.last() {
            self.completed_alloc(address)
        } else {
            None
        }
    }

    /// The store after the return of a `calloc`: the mark of its entry is
    /// gone, and with it the pending alloc if the entry queued one.
    pub open spec fn without_calloc(self) -> PendingView {
        if self.callocs.len() == 0 {
            self
        } else if self.callocs.last() {
            PendingView { callocs: self.callocs.drop_last(), ..self.without_alloc() }
        } else {
            PendingView { callocs: self.callocs.drop_last(), ..self }
        }
    }

    /// The store after the entry of a reallocating call.
    pub open spec fn queue_realloc(
        self,
        old_address: u64,
        size: u64,
        callstack: Seq<u64>,
    ) -> PendingView {
        PendingView {
            reallocs: self.reallocs.push(
                (
                    ReallocEvent {
                        timestamp: 0,
                        old_address,
                        new_address: 0,
                        size,
                        callstack: 0,
                    },
                    callstack,
                ),
            ),
            ..self
        }
    }

    /// The event that the return of a reallocating call completes, with
    /// `new_address` as the call's result: the youngest pending one, if any.
    pub open spec fn completed_realloc(self, new_address: u64) -> Option<Completed> {
        if self.reallocs.len() == 0 {
            None
        } else {
            Some(
                (
                    Event::Realloc(ReallocEvent { new_address, ..self.reallocs.last().0 }),
                    self.reallocs.last().1,
                ),
            )
        }
    }

    /// The store after the return of a reallocating call.
    pub open spec fn without_realloc(self) -> PendingView {
        if self.reallocs.len() == 0 {
            self
        } else {
            PendingView { reallocs: self.reallocs.drop_last(), ..self }
        }
    }

    /// The store after the entry of a freeing call.
    pub open spec fn queue_free(self, address: u64) -> PendingView {
        PendingView {
            frees: self.frees.push(FreeEvent { timestamp: 0, address, callstack: 0 }),
            ..self
        }
    }

    /// The event that the return of a freeing call completes, with the
    /// callstack captured at that return: the youngest pending one, if any.
    pub open spec fn completed_free(self, callstack: Seq<u64>) -> Option<Completed> {
        if self.frees.len() == 0 {
            None
        } else {
            Some((Event::Free(self.frees.last()), callstack))
        }
    }

    /// The store after the return of a freeing call.
    pub open spec fn without_free(self) -> PendingView {
        if self.frees.len() == 0 {
            self
        } else {
            PendingView { frees: self.frees.drop_last(), ..self }
        }
    }
}

/// An allocating call is recorded as one pair: the return that follows an entry
/// completes exactly the event which that entry pushed, with the size taken at
/// entry and the address taken at return, and leaves the store as it was before
/// the entry. As `store` is any store, this holds at every depth of nesting:
/// pending calls are completed youngest first.
pub proof fn lemma_alloc_pair(store: PendingView, size: u64, callstack: Seq<u64>, address: u64)
    ensures
        store.queue_alloc(size, callstack).completed_alloc(address) == Some(
            (Event::Alloc(AllocEvent { timestamp: 0, address, size, callstack: 0 }), callstack),
        ),
        store.queue_alloc(size, callstack).without_alloc() == store,
{
    assert(store.queue_alloc(size, callstack).allocs.drop_last() =~= store.allocs);
}

/// A `calloc` whose size fits is recorded as one pair: its return completes
/// exactly the alloc which its entry queued, with the total size, and leaves
/// the store as it was before the entry.
pub proof fn lemma_calloc_pair(
    store: PendingView,
    nmemb: u64,
    size: u64,
    callstack: Seq<u64>,
    address: u64,
)
    requires
        nmemb * size <= u64::MAX,
    ensures
        store.queue_calloc(nmemb, size, callstack).completed_calloc(address) == Some(
            (
                Event::Alloc(
                    AllocEvent { timestamp: 0, address, size: (nmemb * size) as u64, callstack: 0 },
                ),
                callstack,
            ),
        ),
        store.queue_calloc(nmemb, size, callstack).without_calloc() == store,
{
    let queued = store.queue_calloc(nmemb, size, callstack);
    assert(queued.allocs.drop_last() =~= store.allocs);
    assert(queued.callocs.drop_last() =~= store.callocs);
}

/// A `calloc` whose size overflows leaves no trace, whatever else is in
/// progress on the thread: its entry queues no pending call, its return
/// completes no event, and after the return the store is as it was before the
/// entry. A call that encloses it keeps its pending entry.
pub proof fn lemma_calloc_overflow_is_dropped(
    store: PendingView,
    nmemb: u64,
    size: u64,
    callstack: Seq<u64>,
    address: u64,
)
    requires
        nmemb * size > u64::MAX,
    ensures
        store.queue_calloc(nmemb, size, callstack).allocs == store.allocs,
        store.queue_calloc(nmemb, size, callstack).reallocs == store.reallocs,
        store.queue_calloc(nmemb, size, callstack).frees == store.frees,
        store.queue_calloc(nmemb, size, callstack).completed_calloc(address) is None,
        store.queue_calloc(nmemb, size, callstack).without_calloc() == store,
{
    assert(store.queue_calloc(nmemb, size, callstack).callocs.drop_last() =~= store.callocs);
}

/// A reallocating call is recorded as one pair: the return that follows an entry
/// completes exactly the event which that entry pushed, with the old address
/// and the size taken at entry and the new address taken at return, and leaves
/// the store as it was before the entry.
pub proof fn lemma_realloc_pair(
    store: PendingView,
    old_address: u64,
    size: u64,
    callstack: Seq<u64>,
    new_address: u64,
)
    ensures
        store.queue_realloc(old_address, size, callstack).completed_realloc(new_address) == Some(
            (
                Event::Realloc(
                    ReallocEvent { timestamp: 0, old_address, new_address, size, callstack: 0 },
                ),
                callstack,
            ),
        ),
        store.queue_realloc(old_address, size, callstack).without_realloc() == store,
{
    assert(store.queue_realloc(old_address, size, callstack).reallocs.drop_last()
        =~= store.reallocs);
}

/// A freeing call is recorded as one pair: the return that follows an entry
/// completes exactly the event which that entry pushed, with the address taken
/// at entry and the callstack taken at return, and leaves the store as it was
/// before the entry.
pub proof fn lemma_free_pair(store: PendingView, address: u64, callstack: Seq<u64>)
    ensures
        store.queue_free(address).completed_free(callstack) == Some(
            (Event::Free(FreeEvent { timestamp: 0, address, callstack: 0 }), callstack),
        ),
        store.queue_free(address).without_free() == store,
{
    assert(store.queue_free(address).frees.drop_last() =~= store.frees);
}

/// The three categories do not disturb each other: what a return of one
/// category completes does not depend on entries of the two others.
pub proof fn lemma_categories_are_apart(
    store: PendingView,
    address: u64,
    size: u64,
    callstack: Seq<u64>,
)
    ensures
        store.queue_free(address).completed_alloc(address) == store.completed_alloc(address),
        store.queue_realloc(address, size, callstack).completed_alloc(address)
            == store.completed_alloc(address),
        store.queue_alloc(size, callstack).completed_free(callstack) == store.completed_free(
            callstack,
        ),
        store.queue_realloc(address, size, callstack).completed_free(callstack)
            == store.completed_free(callstack),
        store.queue_alloc(size, callstack).completed_realloc(address) == store.completed_realloc(
            address,
        ),
        store.queue_free(address).completed_realloc(address) == store.completed_realloc(address),
{
}

impl View for ThreadState {
    type V = PendingView;

    open spec fn view(&self) -> PendingView {
        PendingView {
            allocs: self.pending_allocs@.map_values(
                |pending: (AllocEvent, Callstack)| (pending.0, pending.1@),
            ),
            reallocs: self.pending_reallocs@.map_values(
                |pending: (ReallocEvent, Callstack)| (pending.0, pending.1@),
            ),
            frees: self.pending_frees@,
            callocs: self.pending_callocs@,
        }
    }
}

/// What a handler hands on for commit, as plain values.
pub open spec fn completed_view(completed: Option<(Event, Callstack)>) -> Option<Completed> {
    match completed {
        Some((event, callstack)) => Some((event, callstack@)),
        None => None,
    }
}

impl ThreadState {
    /// The state of a thread that has no call in progress.
    pub fn new() -> (thread: Self)
        ensures
            thread@ == PendingView::empty(),
    {
        let thread = ThreadState {
            pending_allocs: Vec::new(),
            pending_reallocs: Vec::new(),
            pending_frees: Vec::new(),
            pending_callocs: Vec::new(),
        };
        assert(thread@.allocs =~= Seq::empty());
        assert(thread@.reallocs =~= Seq::empty());
        thread
    }
}

/// Entry of an allocating call: pushes a pending alloc of `size` bytes with the
/// callstack captured at entry. Without a handle nothing is pushed.
pub fn queue_pending_alloc(thread: Option<&mut ThreadState>, size: u64, callstack: Callstack)
    ensures
        match thread {
            Some(thread) => final(thread)@ == thread@.queue_alloc(size, callstack@),
            None => true,
        },
{
    match thread {
        Some(thread) => {
            let ghost before = thread@;
            thread.pending_allocs.push(
                (AllocEvent { timestamp: 0, address: 0, size, callstack: 0 }, callstack),
            );
            assert(thread@.allocs =~= before.queue_alloc(size, callstack@).allocs);
        },
        None => {},
    }
}

/// Return of an allocating call: pops the youngest pending alloc and completes
/// it with the call's result. Without a handle, or with no pending alloc, there
/// is nothing to commit and the store is left alone.
pub fn complete_pending_alloc(thread: Option<&mut ThreadState>, address: u64) -> (completed:
    Option<(Event, Callstack)>)
    ensures
        match thread {
            Some(thread) => {
                &&& completed_view(completed) == thread@.completed_alloc(address)
                &&& final(thread)@ == thread@.without_alloc()
            },
            None => completed is None,
        },
{
    match thread {
        Some(thread) => {
            let ghost before = thread@;
            match thread.pending_allocs.pop() {
                Some((alloc, callstack)) => {
                    assert(thread@.allocs =~= before.allocs.drop_last());
                    assert(before.allocs.last() == (alloc, callstack@));
                    Some(
                        (
                            Event::Alloc(
                                AllocEvent {
                                    timestamp: alloc.timestamp,
                                    address,
                                    size: alloc.size,
                                    callstack: alloc.callstack,
                                },
                            ),
                            callstack,
                        ),
                    )
                },
                None => {
                    assert(thread@.allocs =~= before.allocs);
                    None
                },
            }
        },
        None => None,
    }
}

/// Entry of a `calloc` for `nmemb` members of `size` bytes: pushes a pending
/// alloc of the total size, unless the total overflows, and marks either way
/// whether it did. Without a handle nothing is pushed and nothing is marked.
pub fn queue_pending_calloc(
    thread: Option<&mut ThreadState>,
    nmemb: u64,
    size: u64,
    callstack: Callstack,
)
    ensures
        match thread {
            Some(thread) => final(thread)@ == thread@.queue_calloc(nmemb, size, callstack@),
            None => true,
        },
{
    match thread {
        Some(thread) => {
            let ghost before = thread@;
            match nmemb.checked_mul(size) {
                Some(total) => {
                    thread.pending_allocs.push(
                        (
                            AllocEvent { timestamp: 0, address: 0, size: total, callstack: 0 },
                            callstack,
                        ),
                    );
                    thread.pending_callocs.push(true);
                    assert(thread@.allocs =~= before.queue_calloc(
                        nmemb,
                        size,
                        callstack@,
                    ).allocs);
                },
                None => {
                    thread.pending_callocs.push(false);
                },
            }
        },
        None => {},
    }
}

/// Return of a `calloc`: takes the mark of its entry away, and if the entry
/// queued a pending alloc, pops that alloc and completes it with the call's
/// result. Without a handle, without a mark, or after an entry that queued
/// nothing, there is nothing to commit and no pending call is popped.
pub fn complete_pending_calloc(thread: Option<&mut ThreadState>, address: u64) -> (completed:
    Option<(Event, Callstack)>)
    ensures
        match thread {
            Some(thread) => {
                &&& completed_view(completed) == thread@.completed_calloc(address)
                &&& final(thread)@ == thread@.without_calloc()
            },
            None => completed is None,
        },
{
    match thread {
        Some(thread) => {
            let ghost before = thread@;
            match thread.pending_callocs.pop() {
                Some(true) => {
                    match thread.pending_allocs.pop() {
                        Some((alloc, callstack)) => {
                            assert(thread@.allocs =~= before.allocs.drop_last());
                            assert(before.allocs.last() == (alloc, callstack@));
                            Some(
                                (
                                    Event::Alloc(
                                        AllocEvent {
                                            timestamp: alloc.timestamp,
                                            address,
                                            size: alloc.size,
                                            callstack: alloc.callstack,
                                        },
                                    ),
                                    callstack,
                                ),
                            )
                        },
                        None => {
                            assert(thread@.allocs =~= before.allocs);
                            None
                        },
                    }
                },
                Some(false) => None,
                None => None,
            }
        },
        None => None,
    }
}

/// Entry of a reallocating call: pushes a pending realloc of the block at
/// `old_address` to `size` bytes. Without a handle nothing is pushed.
pub fn queue_pending_realloc(
    thread: Option<&mut ThreadState>,
    old_address: u64,
    size: u64,
    callstack: Callstack,
)
    ensures
        match thread {
            Some(thread) => final(thread)@ == thread@.queue_realloc(
                old_address,
                size,
                callstack@,
            ),
            None => true,
        },
{
    match thread {
        Some(thread) => {
            let ghost before = thread@;
            thread.pending_reallocs.push(
                (
                    ReallocEvent {
                        timestamp: 0,
                        old_address,
                        new_address: 0,
                        size,
                        callstack: 0,
                    },
                    callstack,
                ),
            );
            assert(thread@.reallocs =~= before.queue_realloc(
                old_address,
                size,
                callstack@,
            ).reallocs);
        },
        None => {},
    }
}

/// Return of a reallocating call: pops the youngest pending realloc and
/// completes it with the call's result. Without a handle, or with no pending
/// realloc, there is nothing to commit and the store is left alone.
pub fn complete_pending_realloc(thread: Option<&mut ThreadState>, new_address: u64) -> (completed:
    Option<(Event, Callstack)>)
    ensures
        match thread {
            Some(thread) => {
                &&& completed_view(completed) == thread@.completed_realloc(new_address)
                &&& final(thread)@ == thread@.without_realloc()
            },
            None => completed is None,
        },
{
    match thread {
        Some(thread) => {
            let ghost before = thread@;
            match thread.pending_reallocs.pop() {
                Some((realloc, callstack)) => {
                    assert(thread@.reallocs =~= before.reallocs.drop_last());
                    assert(before.reallocs.last() == (realloc, callstack@));
                    Some(
                        (
                            Event::Realloc(
                                ReallocEvent {
                                    timestamp: realloc.timestamp,
                                    old_address: realloc.old_address,
                                    new_address,
                                    size: realloc.size,
                                    callstack: realloc.callstack,
                                },
                            ),
                            callstack,
                        ),
                    )
                },
                None => {
                    assert(thread@.reallocs =~= before.reallocs);
                    None
                },
            }
        },
        None => None,
    }
}

/// Entry of a freeing call: pushes a pending free of the block at `address`.
/// Without a handle nothing is pushed.
pub fn queue_pending_free(thread: Option<&mut ThreadState>, address: u64)
    ensures
        match thread {
            Some(thread) => final(thread)@ == thread@.queue_free(address),
            None => true,
        },
{
    match thread {
        Some(thread) => {
            thread.pending_frees.push(FreeEvent { timestamp: 0, address, callstack: 0 });
        },
        None => {},
    }
}

/// Return of a freeing call: pops the youngest pending free, to be committed
/// with the callstack captured at the return. Without a handle, or with no
/// pending free, there is nothing to commit and the store is left alone.
pub fn complete_pending_free(thread: Option<&mut ThreadState>, callstack: Callstack) -> (completed:
    Option<(Event, Callstack)>)
    ensures
        match thread {
            Some(thread) => {
                &&& completed_view(completed) == thread@.completed_free(callstack@)
                &&& final(thread)@ == thread@.without_free()
            },
            None => completed is None,
        },
{
    match thread {
        Some(thread) => {
            match thread.pending_frees.pop() {
                Some(free) => Some((Event::Free(free), callstack)),
                None => None,
            }
        },
        None => None,
    }
}

} // verus!

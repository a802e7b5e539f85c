//! The trace buffer: an append-only event log with callstack interning.

use crate::json::{json_error_text, json_pretty, json_text};
use crate::output::{trace_json, trace_value};
use std::collections::HashMap;
use vstd::prelude::*;
use vstd::string::*;

verus! {

broadcast use vstd::std_specs::hash::group_hash_axioms;

/// The id of a frame sequence: its frames folded with XOR, starting at 0.
///
/// Two different sequences may share an id.
pub open spec fn xor_fold(frames: Seq<u64>) -> u64
    decreases frames.len(),
{
    if frames.len() == 0 {
        0
    } else {
        xor_fold(frames.drop_last()) ^ frames.last()
    }
}

/// A callstack as a vector of return addresses, youngest frame first.
#[derive(Debug, PartialEq, Eq)]
pub struct Callstack(Vec<u64>);

impl View for Callstack {
    type V = Seq<u64>;

    closed spec fn view(&self) -> Seq<u64> {
        self.0@
    }
}

impl Clone for Callstack {
    fn clone(&self) -> (callstack: Self)
        ensures
            callstack@ == self@,
    {
        Callstack(self.0.clone())
    }
}

impl Callstack {
    /// The callstack whose return addresses are `frames`, as the engine's
    /// backtracer walked them from an intercepted call.
    pub fn capture(frames: Vec<u64>) -> (callstack: Self)
        ensures
            callstack@ == frames@,
    {
        Callstack(frames)
    }

    /// The return addresses, youngest frame first.
    pub fn frames(&self) -> (frames: &Vec<u64>)
        ensures
            frames@ == self@,
    {
        &self.0
    }

    /// The interning key of this callstack.
    pub fn id(&self) -> (id: u64)
        ensures
            id == xor_fold(self@),
    {
        let mut id: u64 = 0;
        let mut i: usize = 0;
        while i < self.0.len()
            invariant
                i <= self.0.len(),
                id == xor_fold(self.0@.subrange(0, i as int)),
            decreases self.0.len() - i,
        {
            assert(self.0@.subrange(0, i + 1).drop_last() == self.0@.subrange(0, i as int));
            id = id ^ self.0[i];
            i += 1;
        }
        assert(self.0@.subrange(0, i as int) == self.0@);
        id
    }
}

/// Allocator event: alloc.
#[derive(Clone, Copy, Debug, PartialEq, Eq, Structural)]
pub struct AllocEvent {
    pub timestamp: u64,
    pub address: u64,
    pub size: u64,
    pub callstack: u64,
}

/// Allocator event: realloc.
#[derive(Clone, Copy, Debug, PartialEq, Eq, Structural)]
pub struct ReallocEvent {
    pub timestamp: u64,
    pub old_address: u64,
    pub new_address: u64,
    pub size: u64,
    pub callstack: u64,
}

/// Allocator event: free.
#[derive(Clone, Copy, Debug, PartialEq, Eq, Structural)]
pub struct FreeEvent {
    pub timestamp: u64,
    pub address: u64,
    pub callstack: u64,
}

/// Allocator event.
#[derive(Clone, Copy, Debug, PartialEq, Eq, Structural)]
pub enum Event {
    Alloc(AllocEvent),
    Realloc(ReallocEvent),
    Free(FreeEvent),
}

impl Event {
    /// The time at which the event was committed.
    pub open spec fn timestamp(self) -> u64 {
        match self {
            Event::Alloc(alloc) => alloc.timestamp,
            Event::Realloc(realloc) => realloc.timestamp,
            Event::Free(free) => free.timestamp,
        }
    }

    /// The id of the callstack that the event was recorded with; 0 where none was.
    pub open spec fn callstack(self) -> u64 {
        match self {
            Event::Alloc(alloc) => alloc.callstack,
            Event::Realloc(realloc) => realloc.callstack,
            Event::Free(free) => free.callstack,
        }
    }

    /// The event with its commit-side fields set and every other field kept.
    pub open spec fn stamped(self, timestamp: u64, callstack: u64) -> Event {
        match self {
            Event::Alloc(alloc) => Event::Alloc(AllocEvent { timestamp, callstack, ..alloc }),
            Event::Realloc(realloc) => Event::Realloc(
                ReallocEvent { timestamp, callstack, ..realloc },
            ),
            Event::Free(free) => Event::Free(FreeEvent { timestamp, callstack, ..free }),
        }
    }
}

/// What a trace holds: the events in commit order, and the callstacks by id.
pub struct TraceView {
    pub events: Seq<Event>,
    pub callstacks: Map<u64, Seq<u64>>,
}

impl TraceView {
    /// The trace that holds nothing.
    pub open spec fn empty() -> TraceView {
        TraceView { events: Seq::empty(), callstacks: Map::empty() }
    }

    /// The id that an event committed with `callstack` is stamped with.
    pub open spec fn callstack_id(callstack: Option<Seq<u64>>) -> u64 {
        match callstack {
            Some(frames) => xor_fold(frames),
            None => 0,
        }
    }

    /// The callstack map after `callstack` was interned: the first callstack
    /// stored under an id stays.
    pub open spec fn intern(self, callstack: Option<Seq<u64>>) -> Map<u64, Seq<u64>> {
        match callstack {
            Some(frames) => if self.callstacks.contains_key(xor_fold(frames)) {
                self.callstacks
            } else {
                self.callstacks.insert(xor_fold(frames), frames)
            },
            None => self.callstacks,
        }
    }

    /// The trace after one commit.
    pub open spec fn add_event(
        self,
        event: Event,
        callstack: Option<Seq<u64>>,
        timestamp: u64,
    ) -> TraceView {
        TraceView {
            events: self.events.push(event.stamped(timestamp, Self::callstack_id(callstack))),
            callstacks: self.intern(callstack),
        }
    }

    /// Every event that names a callstack finds it in the map, and every
    /// callstack is stored under its own id.
    pub open spec fn interned(self) -> bool {
        &&& forall|i: int|
            0 <= i < self.events.len() && (#[trigger] self.events[i]).callstack() != 0
                ==> self.callstacks.contains_key(self.events[i].callstack())
        &&& forall|id: u64| #[trigger]
            self.callstacks.contains_key(id) ==> xor_fold(self.callstacks[id]) == id
    }
}

/// A fresh trace is interned.
pub proof fn lemma_empty_trace_is_interned()
    ensures
        TraceView::empty().interned(),
{
}

/// Callstack interning is kept by every commit: if each event of a trace that
/// names a callstack finds it in the map, the same holds after one more commit,
/// whatever the event and whether or not a callstack comes with it.
pub proof fn lemma_commit_keeps_interning(
    trace: TraceView,
    event: Event,
    callstack: Option<Seq<u64>>,
    timestamp: u64,
)
    requires
        trace.interned(),
    ensures
        trace.add_event(event, callstack, timestamp).interned(),
{
    let after = trace.add_event(event, callstack, timestamp);
    assert forall|i: int|
        0 <= i < after.events.len() && (#[trigger] after.events[i]).callstack()
            != 0 implies after.callstacks.contains_key(after.events[i].callstack()) by {
        if i < trace.events.len() {
            assert(after.events[i] == trace.events[i]);
        }
    }
}

/// Two events that share a callstack id share one entry of the map: a commit
/// whose callstack id is already stored leaves the map as it was, and the
/// callstack that was stored first stays.
pub proof fn lemma_first_callstack_stays(
    trace: TraceView,
    event: Event,
    frames: Seq<u64>,
    timestamp: u64,
)
    requires
        trace.callstacks.contains_key(xor_fold(frames)),
    ensures
        trace.add_event(event, Some(frames), timestamp).callstacks == trace.callstacks,
{
}

/// Events are never deduplicated: every commit makes the log one event longer
/// and leaves the events before it as they were.
pub proof fn lemma_commit_appends(
    trace: TraceView,
    event: Event,
    callstack: Option<Seq<u64>>,
    timestamp: u64,
)
    ensures
        trace.add_event(event, callstack, timestamp).events.len() == trace.events.len() + 1,
        trace.add_event(event, callstack, timestamp).events.drop_last() == trace.events,
        trace.add_event(event, callstack, timestamp).events.last().timestamp() == timestamp,
{
    assert(trace.add_event(event, callstack, timestamp).events.drop_last() =~= trace.events);
}

impl TraceView {
    /// Whether every event was committed between two readings of the clock.
    pub open spec fn within(self, start: u64, end: u64) -> bool {
        forall|i: int|
            0 <= i < self.events.len() ==> start <= (#[trigger] self.events[i]).timestamp() <= end
    }
}

/// Events are bracketed by the clock readings around them: if every event of
/// a trace was committed between `start` and `end`, and one more is committed
/// at a time between them, the same holds of the trace after it. An empty
/// trace is within any bracket.
pub proof fn lemma_commit_keeps_bracket(
    trace: TraceView,
    event: Event,
    callstack: Option<Seq<u64>>,
    timestamp: u64,
    start: u64,
    end: u64,
)
    requires
        trace.within(start, end),
        start <= timestamp <= end,
    ensures
        trace.add_event(event, callstack, timestamp).within(start, end),
        TraceView::empty().within(start, end),
{
    let after = trace.add_event(event, callstack, timestamp);
    assert forall|i: int| 0 <= i < after.events.len() implies start <= (
    #[trigger] after.events[i]).timestamp() <= end by {
        if i < trace.events.len() {
            assert(after.events[i] == trace.events[i]);
        }
    }
}

/// One commit: what `add_event` is handed.
pub struct Commit {
    pub event: Event,
    pub callstack: Option<Seq<u64>>,
    pub timestamp: u64,
}

impl Commit {
    /// The event as it stands in the trace after the commit.
    pub open spec fn committed(self) -> Event {
        self.event.stamped(self.timestamp, TraceView::callstack_id(self.callstack))
    }
}

impl TraceView {
    /// The trace after a run of commits, in the order in which they were
    /// made under the writer lock.
    pub open spec fn add_events(self, commits: Seq<Commit>) -> TraceView
        decreases commits.len(),
    {
        if commits.len() == 0 {
            self
        } else {
            self.add_events(commits.drop_last()).add_event(
                commits.last().event,
                commits.last().callstack,
                commits.last().timestamp,
            )
        }
    }
}

/// The trace holds the commits in the order in which they were made, however
/// the threads that made them were interleaved: after a run of commits the log
/// is the log before it followed by one event for each commit, in their order.
/// So the events of any one thread stand in the order of its own returns, n
/// commits make the log n events longer, and interning is kept throughout.
pub proof fn lemma_commits_keep_their_order(trace: TraceView, commits: Seq<Commit>)
    ensures
        trace.add_events(commits).events == trace.events + commits.map_values(
            |commit: Commit| commit.committed(),
        ),
        trace.add_events(commits).events.len() == trace.events.len() + commits.len(),
        trace.interned() ==> trace.add_events(commits).interned(),
    decreases commits.len(),
{
    if commits.len() == 0 {
        assert(trace.events + commits.map_values(|commit: Commit| commit.committed())
            =~= trace.events);
    } else {
        let front = commits.drop_last();
        let last = commits.last();
        lemma_commits_keep_their_order(trace, front);
        assert(trace.add_events(commits).events =~= trace.events + commits.map_values(
            |commit: Commit| commit.committed(),
        ));
        if trace.interned() {
            lemma_commit_keeps_interning(
                trace.add_events(front),
                last.event,
                last.callstack,
                last.timestamp,
            );
        }
    }
}

/// The error for a trace that could not be serialized.
pub open spec fn serializing_failure(reason: Seq<char>) -> Seq<char> {
    "Error serializing trace: "@ + reason
}

/// Trace metadata.
struct TraceMeta {
    callstack: HashMap<u64, Callstack>,
}

/// Complete trace output.
pub struct Trace {
    events: Vec<Event>,
    meta: TraceMeta,
}

impl View for Trace {
    type V = TraceView;

    closed spec fn view(&self) -> TraceView {
        TraceView {
            events: self.events@,
            callstacks: self.meta.callstack@.map_values(|callstack: Callstack| callstack@),
        }
    }
}

impl Trace {
    /// An empty trace.
    pub fn new() -> (trace: Self)
        ensures
            trace@ == TraceView::empty(),
    {
        let trace = Trace { events: Vec::new(), meta: TraceMeta { callstack: HashMap::new() } };
        assert(trace@.callstacks =~= Map::empty());
        trace
    }

    /// Commits `event`: stamps it with `timestamp`, the cycle counter read at
    /// commit time, and with the id of `callstack` (0 when there is none),
    /// appends it, and interns the callstack.
    pub fn add_event(&mut self, event: Event, callstack: Option<Callstack>, timestamp: u64)
        ensures
            final(self)@ == old(self)@.add_event(
                event,
                match callstack {
                    Some(callstack) => Some(callstack@),
                    None => None,
                },
                timestamp,
            ),
    {
        let cid = match &callstack {
            Some(cs) => cs.id(),
            None => 0,
        };
        let stamped = match event {
            Event::Alloc(alloc) => Event::Alloc(
                AllocEvent {
                    timestamp,
                    address: alloc.address,
                    size: alloc.size,
                    callstack: cid,
                },
            ),
            Event::Realloc(realloc) => Event::Realloc(
                ReallocEvent {
                    timestamp,
                    old_address: realloc.old_address,
                    new_address: realloc.new_address,
                    size: realloc.size,
                    callstack: cid,
                },
            ),
            Event::Free(free) => Event::Free(
                FreeEvent { timestamp, address: free.address, callstack: cid },
            ),
        };
        self.events.push(stamped);
        if let Some(cs) = callstack {
            if !self.meta.callstack.contains_key(&cid) {
                self.meta.callstack.insert(cid, cs);
            }
        }
        assert(final(self)@.callstacks =~= old(self)@.intern(
            match callstack {
                Some(callstack) => Some(callstack@),
                None => None,
            },
        ));
    }

    /// The events, in commit order.
    pub fn events(&self) -> (events: &Vec<Event>)
        ensures
            events@ == self@.events,
    {
        &self.events
    }

    /// The callstack that is stored under `id`, if there is one.
    pub fn callstack(&self, id: u64) -> (callstack: Option<&Callstack>)
        ensures
            match callstack {
                Some(callstack) => self@.callstacks.contains_key(id) && self@.callstacks[id]
                    == callstack@,
                None => !self@.callstacks.contains_key(id),
            },
    {
        self.meta.callstack.get(&id)
    }

    /// The number of callstacks that are stored.
    pub fn callstack_count(&self) -> (count: usize)
        ensures
            count == self@.callstacks.len(),
    {
        assert(self@.callstacks.dom() =~= self.meta.callstack@.dom());
        self.meta.callstack.len()
    }

    /// The trace as the text of a JSON document, to be written out: the text
    /// that the serializer renders for the document of the trace. Where the
    /// serializer renders none, its error comes back as the error to log.
    pub fn serialize(&self) -> (outcome: Result<String, String>)
        ensures
            match outcome {
                Ok(text) => json_text(trace_json(self@)) == Some(text@),
                Err(error) => json_text(trace_json(self@)) is None && exists|reason: Seq<char>|
                    error@ == #[trigger] serializing_failure(reason),
            },
    {
        let document = trace_value(&self.events, &self.meta.callstack);
        match json_pretty(&document) {
            Ok(text) => Ok(text),
            Err(error) => {
                let reason = json_error_text(&error);
                let mut text = String::from_str("Error serializing trace: ");
                text.append(reason.as_str());
                assert(text@ == serializing_failure(reason@));
                Err(text)
            },
        }
    }
}

} // verus!

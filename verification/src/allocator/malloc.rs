//! The hook set of the `malloc` family: `malloc`, `calloc`, `memalign`,
//! `realloc` and `free`.

use crate::config::{Config, ConfigView};
use crate::engine::{
    attach_failure, attach_request, attach_target, attached_notice, detach_target,
    detached_notice, missing_notice, request_of, ListenerGuard, Lookup, LookupView, Request,
    RequestView,
};
use crate::hooks::{count_completed, counted, AllocListener, FreeListener};
use crate::log::{LogLine, LogLineView};
use crate::thread::{
    complete_pending_alloc, complete_pending_calloc, complete_pending_realloc, completed_view,
    queue_pending_alloc, queue_pending_calloc, queue_pending_realloc, ThreadState,
};
use crate::trace::{Callstack, Event};
use vstd::prelude::*;

verus! {

/// Calloc listener.
pub struct CallocListener {
    pub guard: Option<ListenerGuard>,
    pub count: u64,
}

impl CallocListener {
    /// A listener that is not attached and has seen no call.
    pub fn new() -> (listener: Self)
        ensures
            listener.guard is None,
            listener.count == 0,
    {
        CallocListener { guard: None, count: 0 }
    }

    /// `calloc` is entered for `arg0` members of `arg1` bytes: queues a pending
    /// alloc of the total size, unless the total overflows.
    pub fn on_enter(
        &self,
        thread: Option<&mut ThreadState>,
        arg0: u64,
        arg1: u64,
        callstack: Callstack,
    )
        ensures
            match thread {
                Some(thread) => final(thread)@ == thread@.queue_calloc(arg0, arg1, callstack@),
                None => true,
            },
    {
        queue_pending_calloc(thread, arg0, arg1, callstack);
    }

    /// `calloc` returns `return_value`: if its entry queued a pending alloc,
    /// completes that alloc with the address and hands it on for commit. After
    /// an entry that queued nothing, nothing is completed and every pending
    /// call is left alone.
    pub fn on_leave(&mut self, thread: Option<&mut ThreadState>, return_value: u64) -> (completed:
        Option<(Event, Callstack)>)
        ensures
            final(self).guard == old(self).guard,
            final(self).count == counted(old(self).count, completed is Some),
            match thread {
                Some(thread) => {
                    &&& completed_view(completed) == thread@.completed_calloc(return_value)
                    &&& final(thread)@ == thread@.without_calloc()
                },
                None => completed is None,
            },
    {
        let completed = complete_pending_calloc(thread, return_value);
        count_completed(&mut self.count, &completed);
        completed
    }
}

/// Memalign listener.
pub struct MemalignListener {
    pub guard: Option<ListenerGuard>,
    pub count: u64,
}

impl MemalignListener {
    /// A listener that is not attached and has seen no call.
    pub fn new() -> (listener: Self)
        ensures
            listener.guard is None,
            listener.count == 0,
    {
        MemalignListener { guard: None, count: 0 }
    }

    /// `memalign` is entered for `arg1` bytes aligned to `arg0`: queues a
    /// pending alloc of that size. The alignment is not recorded.
    pub fn on_enter(
        &self,
        thread: Option<&mut ThreadState>,
        arg0: u64,
        arg1: u64,
        callstack: Callstack,
    )
        ensures
            match thread {
                Some(thread) => final(thread)@ == thread@.queue_alloc(arg1, callstack@),
                None => true,
            },
    {
        queue_pending_alloc(thread, arg1, callstack);
    }

    /// `memalign` returns `return_value`: completes the youngest pending alloc
    /// with that address and hands it on for commit.
    pub fn on_leave(&mut self, thread: Option<&mut ThreadState>, return_value: u64) -> (completed:
        Option<(Event, Callstack)>)
        ensures
            final(self).guard == old(self).guard,
            final(self).count == counted(old(self).count, completed is Some),
            match thread {
                Some(thread) => {
                    &&& completed_view(completed) == thread@.completed_alloc(return_value)
                    &&& final(thread)@ == thread@.without_alloc()
                },
                None => completed is None,
            },
    {
        let completed = complete_pending_alloc(thread, return_value);
        count_completed(&mut self.count, &completed);
        completed
    }
}

/// Realloc listener.
pub struct ReallocListener {
    pub guard: Option<ListenerGuard>,
    pub count: u64,
}

impl ReallocListener {
    /// A listener that is not attached and has seen no call.
    pub fn new() -> (listener: Self)
        ensures
            listener.guard is None,
            listener.count == 0,
    {
        ReallocListener { guard: None, count: 0 }
    }

    /// `realloc` is entered for the block at `arg0` and `arg1` bytes: queues
    /// a pending realloc of them.
    pub fn on_enter(
        &self,
        thread: Option<&mut ThreadState>,
        arg0: u64,
        arg1: u64,
        callstack: Callstack,
    )
        ensures
            match thread {
                Some(thread) => final(thread)@ == thread@.queue_realloc(arg0, arg1, callstack@),
                None => true,
            },
    {
        queue_pending_realloc(thread, arg0, arg1, callstack);
    }

    /// `realloc` returns `return_value`: completes the youngest pending
    /// realloc with that new address and hands it on for commit. A result of
    /// 0 is recorded like any other.
    pub fn on_leave(&mut self, thread: Option<&mut ThreadState>, return_value: u64) -> (completed:
        Option<(Event, Callstack)>)
        ensures
            final(self).guard == old(self).guard,
            final(self).count == counted(old(self).count, completed is Some),
            match thread {
                Some(thread) => {
                    &&& completed_view(completed) == thread@.completed_realloc(return_value)
                    &&& final(thread)@ == thread@.without_realloc()
                },
                None => completed is None,
            },
    {
        let completed = complete_pending_realloc(thread, return_value);
        count_completed(&mut self.count, &completed);
        completed
    }
}

/// The targets of the family, in the order in which they are installed.
#[derive(Clone, Copy, Debug, PartialEq, Eq, Structural)]
pub enum Target {
    Malloc,
    Calloc,
    Memalign,
    Realloc,
    Free,
}

impl Target {
    /// The logical name of the target, by which the configuration knows it.
    pub open spec fn name_text(self) -> Seq<char> {
        match self {
            Target::Malloc => "malloc"@,
            Target::Calloc => "calloc"@,
            Target::Memalign => "memalign"@,
            Target::Realloc => "realloc"@,
            Target::Free => "free"@,
        }
    }

    /// The target that is installed after this one.
    pub open spec fn after(self) -> Option<Target> {
        match self {
            Target::Malloc => Some(Target::Calloc),
            Target::Calloc => Some(Target::Memalign),
            Target::Memalign => Some(Target::Realloc),
            Target::Realloc => Some(Target::Free),
            Target::Free => None,
        }
    }

    /// How many targets are installed from this one on.
    pub open spec fn left(self) -> nat {
        match self {
            Target::Malloc => 5,
            Target::Calloc => 4,
            Target::Memalign => 3,
            Target::Realloc => 2,
            Target::Free => 1,
        }
    }

    /// The logical name of the target.
    pub fn name(self) -> (name: &'static str)
        ensures
            name@ == self.name_text(),
    {
        match self {
            Target::Malloc => "malloc",
            Target::Calloc => "calloc",
            Target::Memalign => "memalign",
            Target::Realloc => "realloc",
            Target::Free => "free",
        }
    }

    /// The target that is installed after this one.
    pub fn next(self) -> (next: Option<Target>)
        ensures
            next == self.after(),
    {
        match self {
            Target::Malloc => Some(Target::Calloc),
            Target::Calloc => Some(Target::Memalign),
            Target::Memalign => Some(Target::Realloc),
            Target::Realloc => Some(Target::Free),
            Target::Free => None,
        }
    }
}

/// What the engine is to do next while a hook set is installed.
#[derive(Debug, PartialEq, Eq)]
pub enum Step {
    /// Resolve `symbol`, attach the listener of `target` to it, and report the
    /// answer with `attached`.
    Attach { target: Target, symbol: String },
    /// Nothing: the installation is complete.
    Done,
    /// Nothing: the installation was given up, for this reason.
    Failed(String),
}

/// A step as plain values.
pub enum StepView {
    Attach { target: Target, symbol: Seq<char> },
    Done,
    Failed(Seq<char>),
}

impl View for Step {
    type V = StepView;

    open spec fn view(&self) -> StepView {
        match self {
            Step::Attach { target, symbol } => StepView::Attach { target: *target, symbol: symbol@ },
            Step::Done => StepView::Done,
            Step::Failed(error) => StepView::Failed(error@),
        }
    }
}

/// What a hook set asks of its surroundings after it was installed, told an
/// answer of the engine, or taken down.
#[derive(Debug, PartialEq, Eq)]
pub struct Progress {
    /// What the engine is to do next.
    pub step: Step,
    /// What is to be logged, in order.
    pub notices: Vec<LogLine>,
    /// The guards that were given up, in order: their listeners are to be
    /// detached.
    pub released: Vec<ListenerGuard>,
}

/// A progress as plain values.
pub struct ProgressView {
    pub step: StepView,
    pub notices: Seq<LogLineView>,
    pub released: Seq<ListenerGuard>,
}

impl View for Progress {
    type V = ProgressView;

    open spec fn view(&self) -> ProgressView {
        ProgressView {
            step: self.step@,
            notices: self.notices@.map_values(|notice: LogLine| notice@),
            released: self.released@,
        }
    }
}

/// The first target from `from` on that the configuration does not switch
/// off, as the step that attaches it; `Done` where there is none left.
pub open spec fn next_step(config: ConfigView, from: Option<Target>) -> StepView
    decreases
        (match from {
            Some(target) => target.left(),
            None => 0,
        }),
{
    match from {
        None => StepView::Done,
        Some(target) => match request_of(config, target.name_text()) {
            RequestView::Skip(_) => next_step(config, target.after()),
            RequestView::Resolve(symbol) => StepView::Attach { target, symbol },
        },
    }
}

/// The notices for the targets that are passed over on the way to that step.
pub open spec fn skip_notices(config: ConfigView, from: Option<Target>) -> Seq<LogLineView>
    decreases
        (match from {
            Some(target) => target.left(),
            None => 0,
        }),
{
    match from {
        None => Seq::empty(),
        Some(target) => match request_of(config, target.name_text()) {
            RequestView::Skip(notice) => seq![notice] + skip_notices(config, target.after()),
            RequestView::Resolve(_) => Seq::empty(),
        },
    }
}

/// No element or one.
pub open spec fn optional<T>(item: Option<T>) -> Seq<T> {
    match item {
        Some(item) => seq![item],
        None => Seq::empty(),
    }
}

/// A hook set that was taken down has no hooks: after `fini`, or after an
/// installation that failed, no listener is attached and no guard is held,
/// while every count is kept.
pub proof fn lemma_detached_has_no_hooks(hooks: Malloc)
    ensures
        !hooks.detached().hooked(),
        hooks.detached().held() == Seq::<ListenerGuard>::empty(),
        forall|target: Target| hooks.detached().count(target) == hooks.count(target),
{
    assert(hooks.detached().held() =~= Seq::<ListenerGuard>::empty());
    assert forall|target: Target| hooks.detached().guard(target) is None by {}
}

/// A target that the configuration switches off is never asked for: no step
/// of an installation attaches it.
pub proof fn lemma_disabled_target_is_skipped(config: ConfigView, from: Option<Target>)
    ensures
        next_step(config, from) matches StepView::Attach { target, symbol } ==> !config.disabled(
            target.name_text(),
        ) && symbol == config.target(target.name_text()),
    decreases
        (match from {
            Some(target) => target.left(),
            None => 0,
        }),
{
    if let Some(target) = from {
        lemma_disabled_target_is_skipped(config, target.after());
    }
}

/// The `malloc` family's hook set: one listener for each target.
pub struct Malloc {
    pub malloc: AllocListener,
    pub calloc: CallocListener,
    pub memalign: MemalignListener,
    pub realloc: ReallocListener,
    pub free: FreeListener,
}

impl Malloc {
    /// The guard of a target's listener, where it is attached.
    pub open spec fn guard(self, target: Target) -> Option<ListenerGuard> {
        match target {
            Target::Malloc => self.malloc.guard,
            Target::Calloc => self.calloc.guard,
            Target::Memalign => self.memalign.guard,
            Target::Realloc => self.realloc.guard,
            Target::Free => self.free.guard,
        }
    }

    /// The number of calls that a target's listener has completed.
    pub open spec fn count(self, target: Target) -> u64 {
        match target {
            Target::Malloc => self.malloc.count,
            Target::Calloc => self.calloc.count,
            Target::Memalign => self.memalign.count,
            Target::Realloc => self.realloc.count,
            Target::Free => self.free.count,
        }
    }

    /// The hook set with the guard of one target replaced.
    pub open spec fn with_guard(self, target: Target, guard: Option<ListenerGuard>) -> Malloc {
        match target {
            Target::Malloc => Malloc { malloc: AllocListener { guard, ..self.malloc }, ..self },
            Target::Calloc => Malloc { calloc: CallocListener { guard, ..self.calloc }, ..self },
            Target::Memalign => Malloc {
                memalign: MemalignListener { guard, ..self.memalign },
                ..self
            },
            Target::Realloc => Malloc { realloc: ReallocListener { guard, ..self.realloc }, ..self },
            Target::Free => Malloc { free: FreeListener { guard, ..self.free }, ..self },
        }
    }

    /// The hook set with every guard given up and every count kept.
    pub open spec fn detached(self) -> Malloc {
        Malloc {
            malloc: AllocListener { guard: None, ..self.malloc },
            calloc: CallocListener { guard: None, ..self.calloc },
            memalign: MemalignListener { guard: None, ..self.memalign },
            realloc: ReallocListener { guard: None, ..self.realloc },
            free: FreeListener { guard: None, ..self.free },
        }
    }

    /// The guards that the hook set holds, in the order in which they are
    /// given up: the reverse of the order of installation.
    pub open spec fn held(self) -> Seq<ListenerGuard> {
        optional(self.free.guard) + optional(self.realloc.guard) + optional(self.memalign.guard)
            + optional(self.calloc.guard) + optional(self.malloc.guard)
    }

    /// Whether any listener of the hook set is attached.
    pub open spec fn hooked(self) -> bool {
        exists|target: Target| (#[trigger] self.guard(target)) is Some
    }

    /// What is logged for one target when the hook set is taken down.
    pub open spec fn farewell(self, target: Target) -> Seq<LogLineView> {
        match self.guard(target) {
            Some(_) => seq![detached_notice(target.name_text(), self.count(target))],
            None => Seq::empty(),
        }
    }

    /// What is logged when the hook set is taken down: for each attached
    /// target the number of calls it completed, in the order of `held`.
    pub open spec fn farewells(self) -> Seq<LogLineView> {
        self.farewell(Target::Free) + self.farewell(Target::Realloc) + self.farewell(
            Target::Memalign,
        ) + self.farewell(Target::Calloc) + self.farewell(Target::Malloc)
    }

    /// The hook set and what it asks for after the engine's answer for
    /// `target`.
    ///
    /// A listener that was attached is kept, a symbol that is missing is
    /// reported, and either way the installation goes on with the next target
    /// that is not switched off; a guard that the target held before is given
    /// up. A refusal ends the installation: every guard is given up.
    pub open spec fn after_lookup(self, config: ConfigView, target: Target, lookup: LookupView)
        -> (Malloc, ProgressView) {
        let symbol = config.target(target.name_text());
        match lookup {
            LookupView::Missing => (
                self.with_guard(target, None),
                ProgressView {
                    step: next_step(config, target.after()),
                    notices: seq![missing_notice(symbol)] + skip_notices(config, target.after()),
                    released: optional(self.guard(target)),
                },
            ),
            LookupView::Attached { address, guard } => (
                self.with_guard(target, Some(guard)),
                ProgressView {
                    step: next_step(config, target.after()),
                    notices: seq![attached_notice(target.name_text(), symbol, address)]
                        + skip_notices(config, target.after()),
                    released: optional(self.guard(target)),
                },
            ),
            LookupView::Refused(reason) => (
                self.detached(),
                ProgressView {
                    step: StepView::Failed(attach_failure(target.name_text(), symbol, reason)),
                    notices: Seq::empty(),
                    released: self.held(),
                },
            ),
        }
    }

    /// The hook set of which nothing is attached and nothing was counted.
    pub open spec fn fresh() -> Malloc {
        Malloc {
            malloc: AllocListener { guard: None, count: 0 },
            calloc: CallocListener { guard: None, count: 0 },
            memalign: MemalignListener { guard: None, count: 0 },
            realloc: ReallocListener { guard: None, count: 0 },
            free: FreeListener { guard: None, count: 0 },
        }
    }

    /// A hook set of which nothing is attached.
    pub fn new() -> (hooks: Self)
        ensures
            hooks == Malloc::fresh(),
    {
        Malloc {
            malloc: AllocListener::new(),
            calloc: CallocListener::new(),
            memalign: MemalignListener::new(),
            realloc: ReallocListener::new(),
            free: FreeListener::new(),
        }
    }

    fn set_guard(&mut self, target: Target, guard: Option<ListenerGuard>) -> (previous: Option<
        ListenerGuard,
    >)
        ensures
            previous == old(self).guard(target),
            *final(self) == old(self).with_guard(target, guard),
    {
        match target {
            Target::Malloc => {
                let previous = self.malloc.guard.take();
                self.malloc.guard = guard;
                previous
            },
            Target::Calloc => {
                let previous = self.calloc.guard.take();
                self.calloc.guard = guard;
                previous
            },
            Target::Memalign => {
                let previous = self.memalign.guard.take();
                self.memalign.guard = guard;
                previous
            },
            Target::Realloc => {
                let previous = self.realloc.guard.take();
                self.realloc.guard = guard;
                previous
            },
            Target::Free => {
                let previous = self.free.guard.take();
                self.free.guard = guard;
                previous
            },
        }
    }

    fn release(&mut self) -> (released: Vec<ListenerGuard>)
        ensures
            released@ == old(self).held(),
            *final(self) == old(self).detached(),
    {
        let mut released: Vec<ListenerGuard> = Vec::new();
        if let Some(guard) = self.free.guard.take() {
            released.push(guard);
        }
        if let Some(guard) = self.realloc.guard.take() {
            released.push(guard);
        }
        if let Some(guard) = self.memalign.guard.take() {
            released.push(guard);
        }
        if let Some(guard) = self.calloc.guard.take() {
            released.push(guard);
        }
        if let Some(guard) = self.malloc.guard.take() {
            released.push(guard);
        }
        assert(released@ =~= old(self).held());
        released
    }

    fn resume(config: &Config, from: Option<Target>) -> (next: (Step, Vec<LogLine>))
        ensures
            next.0@ == next_step(config@, from),
            next.1@.map_values(|notice: LogLine| notice@) == skip_notices(config@, from),
    {
        let mut notices: Vec<LogLine> = Vec::new();
        let mut cursor = from;
        loop
            invariant
                next_step(config@, from) == next_step(config@, cursor),
                skip_notices(config@, from) == notices@.map_values(|notice: LogLine| notice@)
                    + skip_notices(config@, cursor),
            decreases
                (match cursor {
                    Some(target) => target.left(),
                    None => 0,
                }),
        {
            match cursor {
                None => {
                    assert(notices@.map_values(|notice: LogLine| notice@) + Seq::empty()
                        =~= notices@.map_values(|notice: LogLine| notice@));
                    return (Step::Done, notices);
                },
                Some(target) => match attach_request(config, target.name()) {
                    Request::Skip(notice) => {
                        let ghost before = notices@.map_values(|notice: LogLine| notice@);
                        notices.push(notice);
                        assert(notices@.map_values(|notice: LogLine| notice@) =~= before.push(
                            notice@,
                        ));
                        assert(before + (seq![notice@] + skip_notices(config@, target.after()))
                            =~= before.push(notice@) + skip_notices(config@, target.after()));
                        cursor = target.next();
                    },
                    Request::Resolve(symbol) => {
                        assert(notices@.map_values(|notice: LogLine| notice@) + Seq::empty()
                            =~= notices@.map_values(|notice: LogLine| notice@));
                        return (Step::Attach { target, symbol }, notices);
                    },
                },
            }
        }
    }

    /// Begins the installation of the hook set under a configuration: asks
    /// for the first target that is not switched off. Guards that were still
    /// held are given up first.
    pub fn init(&mut self, config: &Config) -> (progress: Progress)
        ensures
            *final(self) == old(self).detached(),
            progress@ == (ProgressView {
                step: next_step(config@, Some(Target::Malloc)),
                notices: skip_notices(config@, Some(Target::Malloc)),
                released: old(self).held(),
            }),
    {
        let released = self.release();
        let (step, notices) = Self::resume(config, Some(Target::Malloc));
        Progress { step, notices, released }
    }

    /// Goes on with the installation after the engine's answer for `target`.
    pub fn attached(&mut self, config: &Config, target: Target, lookup: Lookup) -> (progress:
        Progress)
        ensures
            (*final(self), progress@) == old(self).after_lookup(config@, target, lookup@),
    {
        match attach_target(target.name(), config.get_target(target.name()), lookup) {
            Ok((guard, notice)) => {
                let previous = self.set_guard(target, guard);
                let (step, rest) = Self::resume(config, target.next());
                let mut notices: Vec<LogLine> = Vec::new();
                notices.push(notice);
                let mut rest = rest;
                let ghost skipped = rest@.map_values(|notice: LogLine| notice@);
                notices.append(&mut rest);
                let mut released: Vec<ListenerGuard> = Vec::new();
                if let Some(previous) = previous {
                    released.push(previous);
                }
                let progress = Progress { step, notices, released };
                assert(progress@.notices =~= seq![notice@] + skipped);
                assert(progress@.released =~= optional(old(self).guard(target)));
                progress
            },
            Err(error) => {
                let released = self.release();
                let progress = Progress { step: Step::Failed(error), notices: Vec::new(), released };
                assert(progress@.notices =~= Seq::empty());
                progress
            },
        }
    }

    /// Takes the hook set down: every guard is given up, the youngest first,
    /// and for each the number of calls that its listener completed is logged.
    pub fn fini(&mut self) -> (progress: Progress)
        ensures
            *final(self) == old(self).detached(),
            progress@ == (ProgressView {
                step: StepView::Done,
                notices: old(self).farewells(),
                released: old(self).held(),
            }),
    {
        let mut notices: Vec<LogLine> = Vec::new();
        let mut released: Vec<ListenerGuard> = Vec::new();
        if let Some((guard, notice)) = detach_target(
            Target::Free.name(),
            &mut self.free.guard,
            self.free.count,
        ) {
            released.push(guard);
            notices.push(notice);
        }
        if let Some((guard, notice)) = detach_target(
            Target::Realloc.name(),
            &mut self.realloc.guard,
            self.realloc.count,
        ) {
            released.push(guard);
            notices.push(notice);
        }
        if let Some((guard, notice)) = detach_target(
            Target::Memalign.name(),
            &mut self.memalign.guard,
            self.memalign.count,
        ) {
            released.push(guard);
            notices.push(notice);
        }
        if let Some((guard, notice)) = detach_target(
            Target::Calloc.name(),
            &mut self.calloc.guard,
            self.calloc.count,
        ) {
            released.push(guard);
            notices.push(notice);
        }
        if let Some((guard, notice)) = detach_target(
            Target::Malloc.name(),
            &mut self.malloc.guard,
            self.malloc.count,
        ) {
            released.push(guard);
            notices.push(notice);
        }
        let progress = Progress { step: Step::Done, notices, released };
        assert(progress@.released =~= old(self).held());
        assert(progress@.notices =~= old(self).farewells());
        progress
    }
}

} // verus!

//! Allocator bindings: the hook set that is installed for a family.
//!
//! Installing a hook set takes the engine's help once for every target. The
//! binding does not call the engine: `init` and `attached` say what the engine
//! is to do next, and the answer is handed to `attached`, until the step is
//! `Done` or `Failed`. `fini` takes the hooks down again.

pub mod malloc;

use crate::allocator::malloc::{Malloc, Progress, ProgressView, StepView, Target};
use crate::config::{Config, ConfigAllocator, ConfigView};
use crate::engine::{ListenerGuard, Lookup, LookupView};
use vstd::prelude::*;

verus! {

/// The binding without hooks.
#[derive(Clone, Copy, Debug, PartialEq, Eq, Structural)]
pub struct Noop;

/// The progress that asks for nothing.
pub open spec fn nothing() -> ProgressView {
    ProgressView { step: StepView::Done, notices: Seq::empty(), released: Seq::empty() }
}

impl Noop {
    /// Installs nothing.
    pub fn init(&mut self, config: &Config) -> (progress: Progress)
        ensures
            progress@ == nothing(),
    {
        let progress = Progress { step: malloc::Step::Done, notices: Vec::new(), released: Vec::new() };
        assert(progress@.notices =~= Seq::empty());
        progress
    }

    /// Takes nothing down.
    pub fn fini(&mut self) -> (progress: Progress)
        ensures
            progress@ == nothing(),
    {
        let progress = Progress { step: malloc::Step::Done, notices: Vec::new(), released: Vec::new() };
        assert(progress@.notices =~= Seq::empty());
        progress
    }
}

/// An allocator binding.
pub enum Allocator {
    Noop(Noop),
    Malloc(Malloc),
}

impl Allocator {
    /// The binding for a configured family, with nothing installed.
    pub open spec fn of(family: ConfigAllocator) -> Allocator {
        match family {
            ConfigAllocator::Malloc => Allocator::Malloc(Malloc::fresh()),
            ConfigAllocator::Noop => Allocator::Noop(Noop),
        }
    }

    /// The guards that the binding holds, in the order in which they are
    /// given up.
    pub open spec fn held(self) -> Seq<ListenerGuard> {
        match self {
            Allocator::Noop(_) => Seq::empty(),
            Allocator::Malloc(hooks) => hooks.held(),
        }
    }

    /// Whether any listener of the binding is attached.
    pub open spec fn hooked(self) -> bool {
        match self {
            Allocator::Noop(_) => false,
            Allocator::Malloc(hooks) => hooks.hooked(),
        }
    }

    /// The binding with every guard given up.
    pub open spec fn detached(self) -> Allocator {
        match self {
            Allocator::Noop(noop) => Allocator::Noop(noop),
            Allocator::Malloc(hooks) => Allocator::Malloc(hooks.detached()),
        }
    }

    /// What the beginning of an installation asks for.
    pub open spec fn first_progress(self, config: ConfigView) -> ProgressView {
        match self {
            Allocator::Noop(_) => nothing(),
            Allocator::Malloc(hooks) => ProgressView {
                step: malloc::next_step(config, Some(Target::Malloc)),
                notices: malloc::skip_notices(config, Some(Target::Malloc)),
                released: hooks.held(),
            },
        }
    }

    /// The binding and what it asks for after the engine's answer for
    /// `target`. The binding without hooks keeps no listener: a guard that
    /// comes with the answer is given up at once.
    pub open spec fn after_lookup(self, config: ConfigView, target: Target, lookup: LookupView) -> (
        Allocator,
        ProgressView,
    ) {
        match self {
            Allocator::Noop(noop) => (
                Allocator::Noop(noop),
                ProgressView {
                    step: StepView::Done,
                    notices: Seq::empty(),
                    released: match lookup {
                        LookupView::Attached { address, guard } => seq![guard],
                        _ => Seq::empty(),
                    },
                },
            ),
            Allocator::Malloc(hooks) => (
                Allocator::Malloc(hooks.after_lookup(config, target, lookup).0),
                hooks.after_lookup(config, target, lookup).1,
            ),
        }
    }

    /// What taking the binding down asks for.
    pub open spec fn last_progress(self) -> ProgressView {
        match self {
            Allocator::Noop(_) => nothing(),
            Allocator::Malloc(hooks) => ProgressView {
                step: StepView::Done,
                notices: hooks.farewells(),
                released: hooks.held(),
            },
        }
    }

    /// Begins the installation of the binding's hooks under a configuration.
    pub fn init(&mut self, config: &Config) -> (progress: Progress)
        ensures
            *final(self) == old(self).detached(),
            progress@ == old(self).first_progress(config@),
    {
        match self {
            Allocator::Noop(noop) => noop.init(config),
            Allocator::Malloc(hooks) => hooks.init(config),
        }
    }

    /// Goes on with the installation after the engine's answer for `target`.
    pub fn attached(&mut self, config: &Config, target: Target, lookup: Lookup) -> (progress:
        Progress)
        ensures
            (*final(self), progress@) == old(self).after_lookup(config@, target, lookup@),
    {
        match self {
            Allocator::Noop(_) => {
                let mut released: Vec<ListenerGuard> = Vec::new();
                match lookup {
                    Lookup::Attached { address, guard } => {
                        released.push(guard);
                    },
                    _ => {},
                }
                let progress = Progress { step: malloc::Step::Done, notices: Vec::new(), released };
                assert(progress@.notices =~= Seq::empty());
                assert(progress@.released =~= old(self).after_lookup(
                    config@,
                    target,
                    lookup@,
                ).1.released);
                progress
            },
            Allocator::Malloc(hooks) => hooks.attached(config, target, lookup),
        }
    }

    /// Takes the binding's hooks down. After this the engine calls no
    /// listener of the binding any more.
    pub fn fini(&mut self) -> (progress: Progress)
        ensures
            *final(self) == old(self).detached(),
            progress@ == old(self).last_progress(),
    {
        match self {
            Allocator::Noop(noop) => noop.fini(),
            Allocator::Malloc(hooks) => hooks.fini(),
        }
    }
}

impl From<&ConfigAllocator> for Allocator {
    /// The binding for a configured family, with nothing installed.
    fn from(family: &ConfigAllocator) -> (allocator: Allocator) {
        match family {
            ConfigAllocator::Malloc => Allocator::Malloc(Malloc::new()),
            ConfigAllocator::Noop => Allocator::Noop(Noop),
        }
    }
}

impl vstd::std_specs::convert::FromSpecImpl<&ConfigAllocator> for Allocator {
    open spec fn obeys_from_spec() -> bool {
        true
    }

    open spec fn from_spec(family: &ConfigAllocator) -> Allocator {
        Allocator::of(*family)
    }
}

} // verus!

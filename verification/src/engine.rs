//! The instrumentation engine, as the tracer sees it.
//!
//! The engine resolves symbols, attaches listeners to functions and replaces
//! functions. The tracer never calls it from here: whoever embeds the tracer
//! makes the call and reports what the engine answered. This module holds the
//! values that go back and forth, and what the tracer makes of each answer.

use crate::config::{Config, ConfigView};
use crate::log::{LogLine, LogLineView};
use crate::text::{decimal, decimal_digits, pointer, pointer_text};
use vstd::prelude::*;
use vstd::string::*;

verus! {

/// Newtype native address, for strong typedness. The target is assumed to be
/// a 64-bit one.
#[derive(Clone, Copy, Debug, PartialEq, Eq, Structural, Hash)]
pub struct MyNativeAddress(pub u64);

impl MyNativeAddress {
    /// The address `offset` bytes further on.
    pub fn offset(&self, offset: u64) -> (moved: Self)
        requires
            self.0 + offset <= u64::MAX,
        ensures
            moved.0 == self.0 + offset,
    {
        MyNativeAddress(self.0 + offset)
    }

    /// The address as a pointer is printed.
    pub fn pointer(&self) -> (text: String)
        ensures
            text@ == pointer_text(self.0),
    {
        pointer(self.0)
    }
}

/// Stands for a function replacement that is in place: the function at this
/// address is to be reverted when the guard is given up.
#[derive(Debug, PartialEq, Eq, Structural)]
pub struct HookGuard(pub MyNativeAddress);

/// Stands for an attached listener, by the handle that the engine gave for
/// it: the listener is to be detached when the guard is given up.
#[derive(Debug, PartialEq, Eq, Structural)]
pub struct ListenerGuard(pub MyNativeAddress);

/// Hooked function info.
pub struct Hook<T> {
    pub function: T,
    pub count: usize,
    pub ignored: usize,
    pub guard: Option<HookGuard>,
}

impl<T> Hook<T> {
    /// The info of a function that is not hooked yet.
    pub fn new(function: T) -> (hook: Self)
        ensures
            hook.function == function,
            hook.count == 0,
            hook.ignored == 0,
            hook.guard is None,
    {
        Hook { function, count: 0, ignored: 0, guard: None }
    }
}

/// What is logged when a function was replaced.
pub open spec fn hooked_notice(name: Seq<char>, addr: MyNativeAddress, hook: MyNativeAddress)
    -> LogLineView {
    LogLineView::Info(
        "Hooked "@ + name + " @ "@ + pointer_text(addr.0) + " with function @ "@ + pointer_text(
            hook.0,
        ),
    )
}

/// The error for a replacement that the engine refused.
pub open spec fn hook_failure(name: Seq<char>, reason: Seq<char>) -> Seq<char> {
    "Failed to hook function "@ + name + ": "@ + reason
}

/// What follows the replacement of the function `name` at `addr` by the one at
/// `hook`: `replaced` is the engine's answer, with its reason where it
/// refused. A replacement that is in place yields its guard and a notice; a
/// refusal yields the error.
pub fn hook_function(
    name: &str,
    addr: MyNativeAddress,
    hook: MyNativeAddress,
    replaced: Result<(), String>,
) -> (outcome: Result<(HookGuard, LogLine), String>)
    ensures
        match replaced {
            Ok(_) => outcome matches Ok((guard, notice)) && guard == HookGuard(addr) && notice@
                == hooked_notice(name@, addr, hook),
            Err(reason) => outcome matches Err(error) && error@ == hook_failure(name@, reason@),
        },
{
    match replaced {
        Ok(_) => {
            let mut text = String::from_str("Hooked ");
            text.append(name);
            text.append(" @ ");
            text.append(addr.pointer().as_str());
            text.append(" with function @ ");
            text.append(hook.pointer().as_str());
            Ok((HookGuard(addr), LogLine::Info(text)))
        },
        Err(reason) => {
            let mut error = String::from_str("Failed to hook function ");
            error.append(name);
            error.append(": ");
            error.append(reason.as_str());
            Err(error)
        },
    }
}

/// What the engine answered when it was asked to resolve a symbol and to
/// attach a listener to the function behind it.
#[derive(Debug, PartialEq, Eq)]
pub enum Lookup {
    /// The process exports no such symbol.
    Missing,
    /// The listener is attached to the function at `address`.
    Attached { address: MyNativeAddress, guard: ListenerGuard },
    /// The symbol resolved, but the engine refused to attach; its reason.
    Refused(String),
}

/// An answer of the engine as plain values.
pub enum LookupView {
    Missing,
    Attached { address: MyNativeAddress, guard: ListenerGuard },
    Refused(Seq<char>),
}

impl View for Lookup {
    type V = LookupView;

    open spec fn view(&self) -> LookupView {
        match self {
            Lookup::Missing => LookupView::Missing,
            Lookup::Attached { address, guard } => LookupView::Attached {
                address: *address,
                guard: *guard,
            },
            Lookup::Refused(reason) => LookupView::Refused(reason@),
        }
    }
}

/// What is logged for a target that the configuration switches off.
pub open spec fn disabled_notice(target: Seq<char>) -> LogLineView {
    LogLineView::Info("Ignoring disabled "@ + target + " listener."@)
}

/// What is logged for a target whose listener was attached.
pub open spec fn attached_notice(target: Seq<char>, symbol: Seq<char>, address: MyNativeAddress)
    -> LogLineView {
    LogLineView::Info(
        "Attached "@ + target + " listener: "@ + symbol + " @ "@ + pointer_text(address.0),
    )
}

/// What is logged for a target whose symbol the process does not export.
pub open spec fn missing_notice(symbol: Seq<char>) -> LogLineView {
    LogLineView::Error("Missing export: "@ + symbol)
}

/// The error for a target whose listener the engine refused to attach.
pub open spec fn attach_failure(target: Seq<char>, symbol: Seq<char>, reason: Seq<char>) -> Seq<
    char,
> {
    "Failed to attach "@ + target + " listener to "@ + symbol + ": "@ + reason
}

/// What is logged when the listener of a target was detached.
pub open spec fn detached_notice(target: Seq<char>, count: u64) -> LogLineView {
    LogLineView::Info(
        "Detached the "@ + target + " listener after "@ + decimal_digits(count as nat)
            + " calls."@,
    )
}

/// What is to be done for a target before its listener can be attached.
#[derive(Debug, PartialEq, Eq)]
pub enum Request {
    /// Nothing: the configuration switches the target off, which is logged.
    Skip(LogLine),
    /// The engine is to resolve this symbol and to attach the listener to it.
    Resolve(String),
}

/// A request as plain values.
pub enum RequestView {
    Skip(LogLineView),
    Resolve(Seq<char>),
}

impl View for Request {
    type V = RequestView;

    open spec fn view(&self) -> RequestView {
        match self {
            Request::Skip(notice) => RequestView::Skip(notice@),
            Request::Resolve(symbol) => RequestView::Resolve(symbol@),
        }
    }
}

/// What attaching the listener of `target` asks for under a configuration: the
/// symbol is the configured one, or the target's own name where none is
/// configured, and the empty symbol switches the target off.
pub open spec fn request_of(config: ConfigView, target: Seq<char>) -> RequestView {
    if config.disabled(target) {
        RequestView::Skip(disabled_notice(target))
    } else {
        RequestView::Resolve(config.target(target))
    }
}

/// The first half of attaching a listener: decides from the configuration
/// whether the target is traced at all, and under which symbol.
pub fn attach_request(config: &Config, target: &str) -> (request: Request)
    ensures
        request@ == request_of(config@, target@),
{
    let symbol = config.get_target(target);
    if symbol.is_empty() {
        let mut text = String::from_str("Ignoring disabled ");
        text.append(target);
        text.append(" listener.");
        Request::Skip(LogLine::Info(text))
    } else {
        Request::Resolve(symbol.to_owned())
    }
}

/// The second half of attaching a listener: what follows the engine's answer
/// for `target` and `symbol`, the symbol that the configuration gives for it. A listener that is attached
/// yields its guard; a symbol that the process does not export leaves the
/// target without listener, which is reported and is no error; a refusal by
/// the engine is one.
pub fn attach_target(target: &str, symbol: &str, lookup: Lookup) -> (outcome: Result<
    (Option<ListenerGuard>, LogLine),
    String,
>)
    ensures
        match lookup {
            Lookup::Missing => outcome matches Ok((guard, notice)) && guard is None && notice@
                == missing_notice(symbol@),
            Lookup::Attached { address, guard: attached } => outcome matches Ok((guard, notice))
                && guard == Some(attached) && notice@ == attached_notice(
                target@,
                symbol@,
                address,
            ),
            Lookup::Refused(reason) => outcome matches Err(error) && error@ == attach_failure(
                target@,
                symbol@,
                reason@,
            ),
        },
{
    match lookup {
        Lookup::Missing => {
            let mut text = String::from_str("Missing export: ");
            text.append(symbol);
            Ok((None, LogLine::Error(text)))
        },
        Lookup::Attached { address, guard } => {
            let mut text = String::from_str("Attached ");
            text.append(target);
            text.append(" listener: ");
            text.append(symbol);
            text.append(" @ ");
            text.append(address.pointer().as_str());
            Ok((Some(guard), LogLine::Info(text)))
        },
        Lookup::Refused(reason) => {
            let mut error = String::from_str("Failed to attach ");
            error.append(target);
            error.append(" listener to ");
            error.append(symbol);
            error.append(": ");
            error.append(reason.as_str());
            Err(error)
        },
    }
}

/// Gives up the guard of a target, if it has one: the guard comes back, for
/// the listener to be detached, with the notice that says after how many
/// calls. A target without guard yields nothing.
pub fn detach_target(target: &str, guard: &mut Option<ListenerGuard>, count: u64) -> (released:
    Option<(ListenerGuard, LogLine)>)
    ensures
        *final(guard) is None,
        match *old(guard) {
            Some(held) => released matches Some((given, notice)) && given == held && notice@
                == detached_notice(target@, count),
            None => released is None,
        },
{
    match guard.take() {
        Some(held) => {
            let mut text = String::from_str("Detached the ");
            text.append(target);
            text.append(" listener after ");
            text.append(decimal(count).as_str());
            text.append(" calls.");
            Some((held, LogLine::Info(text)))
        },
        None => None,
    }
}

} // verus!

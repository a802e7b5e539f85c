//! The bracket around a traced program's life: what is decided when the
//! tracer is brought up before the program starts, and when it is taken down
//! after the program has ended.
//!
//! Bringing up: the configuration is read, the allocator binding is made for
//! the configured family, the global state is made, and the binding's hooks
//! are installed, in this order, so that no hook exists before the state does.
//! Taking down: the hooks are removed, then the trace is written out, then the
//! state is replaced by an empty one, so that no hook outlives the state. A
//! trace that cannot be written out is reported and does not stop the rest.

use crate::allocator::malloc::{Progress, ProgressView};
use crate::allocator::{Allocator, Noop};
use crate::config::{
    config_notice, config_of_text, read_config, read_failure, read_notice, toml_failure, Config,
    ConfigView, Fault,
};
use crate::engine::ListenerGuard;
use crate::log::{LogLine, LogLineView};
use crate::state::State;
use crate::trace::TraceView;
use vstd::prelude::*;
use vstd::string::*;

verus! {

/// Where the trace is written when the environment names no file.
pub const OUTPUT: &'static str = "allog.json";

/// The path of a file: the one that the environment names, and `default`
/// where it names none.
pub fn path_or(environment: Option<String>, default: &str) -> (path: String)
    ensures
        path@ == (match environment {
            Some(named) => named@,
            None => default@,
        }),
{
    match environment {
        Some(named) => named,
        None => default.to_owned(),
    }
}

/// A tracer that was brought up as far as it goes without the engine.
pub struct Installation {
    /// The global state, to be put where the hooks find it.
    pub state: State,
    /// The configuration, for the rest of the installation.
    pub config: Config,
    /// What the installation of the hooks asks for first.
    pub progress: Progress,
}

/// What is logged first when a configuration was read, and then what the
/// binding of its family asks for.
pub open spec fn first_progress(name: Seq<char>, config: ConfigView)
    -> ProgressView {
    let first = Allocator::of(config.allocator).first_progress(config);
    ProgressView {
        step: first.step,
        notices: seq![read_notice(name)] + first.notices,
        released: first.released,
    }
}

/// Brings the tracer up from what reading the configuration file named `name`
/// gave: `file` is the file's text, or the reason why it could not be read.
///
/// Without a configuration nothing is brought up, and the error to log comes
/// back. With one, the state is fresh, its binding is the one of the
/// configured family, and the installation of its hooks has begun.
pub fn init(name: &str, file: Result<String, String>) -> (outcome: Result<Installation, String>)
    ensures
        match file {
            Err(reason) => outcome matches Err(error) && error@ == read_failure(name@, reason@),
            Ok(text) => match config_of_text(text@) {
                Ok(config) => {
                    &&& outcome matches Ok(installation)
                    &&& installation.config@ == config
                    &&& installation.state.trace@ == TraceView::empty()
                    &&& installation.state.allocator == Allocator::of(config.allocator)
                    &&& installation.progress@ == first_progress(name@, config)
                },
                Err(Fault::Syntax) => outcome matches Err(error) && exists|words: Seq<char>|
                    error@ == #[trigger] toml_failure(name@, words),
                Err(fault) => outcome matches Err(error) && error@ == toml_failure(
                    name@,
                    fault.text(),
                ),
            },
        },
{
    match read_config(name, file) {
        Err(error) => Err(error),
        Ok(config) => {
            let allocator = Allocator::from(&config.allocator);
            let mut state = State::create(allocator);
            let first = state.allocator.init(&config);
            let mut notices: Vec<LogLine> = Vec::new();
            notices.push(config_notice(name));
            let mut rest = first.notices;
            let ghost skipped = rest@.map_values(|notice: LogLine| notice@);
            notices.append(&mut rest);
            let progress = Progress { step: first.step, notices, released: first.released };
            assert(progress@.notices =~= seq![read_notice(name@)] + skipped);
            assert(progress@.released =~= Seq::empty());
            Ok(Installation { state, config, progress })
        },
    }
}

/// What is logged when every hook is installed.
pub fn initialized() -> (notice: LogLine)
    ensures
        notice@ == LogLineView::Info("Initialized!"@),
{
    LogLine::Info(String::from_str("Initialized!"))
}

/// Begins to take the tracer down, if it was brought up: the hooks of the
/// state's binding are removed and the trace is left as it is, to be written
/// out once the engine has detached the listeners.
pub fn fini(state: Option<&mut State>) -> (progress: Option<Progress>)
    ensures
        match state {
            Some(state) => {
                &&& progress matches Some(progress)
                &&& progress@ == state.allocator.last_progress()
                &&& final(state).allocator == state.allocator.detached()
                &&& final(state).trace == state.trace
            },
            None => progress is None,
        },
{
    match state {
        Some(state) => Some(state.allocator.fini()),
        None => None,
    }
}

/// The error for a trace output that could not be opened.
pub open spec fn opening_failure(output: Seq<char>, reason: Seq<char>) -> Seq<char> {
    "Error opening trace output "@ + output + ": "@ + reason
}

/// The error to log when the file `output` could not be opened for `reason`.
pub fn output_failure(output: &str, reason: &str) -> (error: String)
    ensures
        error@ == opening_failure(output@, reason@),
{
    let mut error = String::from_str("Error opening trace output ");
    error.append(output);
    error.append(": ");
    error.append(reason);
    error
}

/// What is logged when the trace is written out and the state is reset.
pub fn finalized() -> (notice: LogLine)
    ensures
        notice@ == LogLineView::Info("Finalized!"@),
{
    LogLine::Info(String::from_str("Finalized!"))
}

/// Ends taking the tracer down, after the attempt to write the trace out:
/// `written` says whether it was written, with the error to log where it was
/// not. Either way the state is replaced by one with no hooks and an empty
/// trace, and the guards that its binding still held are given up. What
/// comes back with them is the last line to log: the notice that the tracer
/// is taken down, or the error.
pub fn finish(state: &mut State, written: Result<(), String>) -> (outcome: (
    Vec<ListenerGuard>,
    LogLine,
))
    ensures
        final(state).allocator == Allocator::Noop(Noop),
        final(state).trace@ == TraceView::empty(),
        outcome.0@ == old(state).allocator.held(),
        outcome.1@ == (match written {
            Ok(_) => LogLineView::Info("Finalized!"@),
            Err(error) => LogLineView::Error(error@),
        }),
{
    let released = state.reset();
    match written {
        Ok(_) => (released, finalized()),
        Err(error) => (released, LogLine::Error(error)),
    }
}

} // verus!

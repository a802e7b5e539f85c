use allog::allocator::malloc::{Malloc, Progress, Step, Target};
use allog::allocator::Allocator;
use allog::engine::{ListenerGuard, Lookup, MyNativeAddress};
use allog::log::LogLine;
use allog::setup::{fini, init, initialized, Installation};
use allog::state::State;
use allog::thread::ThreadState;
use allog::trace::{AllocEvent, Callstack, Event, FreeEvent, ReallocEvent};

/// A process as the engine sees it: the symbols it exports, and a clock.
struct Process {
    exports: Vec<&'static str>,
    clock: u64,
    detached: Vec<ListenerGuard>,
    log: Vec<LogLine>,
}

impl Process {
    fn new(exports: &[&'static str]) -> Process {
        Process { exports: exports.to_vec(), clock: 100, detached: Vec::new(), log: Vec::new() }
    }

    fn libc() -> Process {
        Process::new(&["malloc", "calloc", "memalign", "realloc", "free"])
    }

    fn now(&mut self) -> u64 {
        self.clock += 1;
        self.clock
    }

    fn hook(&self, symbol: &str) -> Lookup {
        match self.exports.iter().position(|export| *export == symbol) {
            Some(at) => Lookup::Attached {
                address: MyNativeAddress(0x1000 + at as u64),
                guard: ListenerGuard(MyNativeAddress(0x9000 + at as u64)),
            },
            None => Lookup::Missing,
        }
    }

    fn take(&mut self, progress: Progress) -> Step {
        self.log.extend(progress.notices);
        self.detached.extend(progress.released);
        progress.step
    }

    /// Brings the tracer up on a configuration text.
    fn start(&mut self, text: &str) -> (State, Result<(), String>) {
        let Installation { mut state, config, progress } =
            init("allog.toml", Ok(text.to_string())).unwrap();
        let mut step = self.take(progress);
        loop {
            match step {
                Step::Attach { target, symbol } => {
                    let lookup = self.hook(&symbol);
                    let progress = state.allocator.attached(&config, target, lookup);
                    step = self.take(progress);
                }
                Step::Done => {
                    self.log.push(initialized());
                    return (state, Ok(()));
                }
                Step::Failed(error) => return (state, Err(error)),
            }
        }
    }
}

fn hooks(state: &mut State) -> &mut Malloc {
    match &mut state.allocator {
        Allocator::Malloc(hooks) => hooks,
        Allocator::Noop(_) => panic!("no hooks"),
    }
}

/// The traced program calls `malloc(size)`, which returns `address`.
fn call_malloc(
    process: &mut Process,
    state: &mut State,
    thread: &mut ThreadState,
    stack: &[u64],
    size: u64,
    address: u64,
) {
    if hooks(state).malloc.guard.is_none() {
        return;
    }
    hooks(state).malloc.on_enter(Some(&mut *thread), size, Callstack::capture(stack.to_vec()));
    if let Some((event, callstack)) = hooks(state).malloc.on_leave(Some(&mut *thread), address) {
        let now = process.now();
        state.trace.add_event(event, Some(callstack), now);
    }
}

/// The traced program calls `free(address)`.
fn call_free(
    process: &mut Process,
    state: &mut State,
    thread: &mut ThreadState,
    stack: &[u64],
    address: u64,
) {
    if hooks(state).free.guard.is_none() {
        return;
    }
    hooks(state).free.on_enter(Some(&mut *thread), address);
    let callstack = Callstack::capture(stack.to_vec());
    if let Some((event, callstack)) = hooks(state).free.on_leave(Some(&mut *thread), callstack) {
        let now = process.now();
        state.trace.add_event(event, Some(callstack), now);
    }
}

const MALLOC_CONFIG: &str = "allocator = \"malloc\"\n[targets]\n";

#[test]
fn malloc_then_free_makes_two_events() {
    let mut process = Process::libc();
    let (mut state, outcome) = process.start(MALLOC_CONFIG);
    assert_eq!(outcome, Ok(()));
    let mut thread = ThreadState::new();
    let p = 0x5000;
    call_malloc(&mut process, &mut state, &mut thread, &[0x11, 0x22], 32, p);
    call_free(&mut process, &mut state, &mut thread, &[0x33, 0x44], p);
    let events = state.trace.events().clone();
    assert_eq!(events.len(), 2);
    let k = 0x11 ^ 0x22;
    let k2 = 0x33 ^ 0x44;
    assert_eq!(
        events[0],
        Event::Alloc(AllocEvent { timestamp: 101, address: p, size: 32, callstack: k })
    );
    assert_eq!(events[1], Event::Free(FreeEvent { timestamp: 102, address: p, callstack: k2 }));
    assert!(k != 0 && k2 != 0);
    assert_eq!(state.trace.callstack(k).unwrap().frames(), &vec![0x11, 0x22]);
    assert_eq!(state.trace.callstack(k2).unwrap().frames(), &vec![0x33, 0x44]);
    assert!(thread.pending_allocs.is_empty() && thread.pending_frees.is_empty());
    assert_eq!(hooks(&mut state).malloc.count, 1);
    assert_eq!(hooks(&mut state).free.count, 1);
}

#[test]
fn noop_family_records_nothing() {
    let mut process = Process::libc();
    let (mut state, outcome) = process.start("allocator = \"noop\"\n[targets]\n");
    assert_eq!(outcome, Ok(()));
    assert!(matches!(state.allocator, Allocator::Noop(_)));
    assert_eq!(
        process.log,
        vec![
            LogLine::Info("Read config: allog.toml".to_string()),
            LogLine::Info("Initialized!".to_string())
        ]
    );
    let progress = fini(Some(&mut state)).unwrap();
    assert_eq!(progress, Progress { step: Step::Done, notices: vec![], released: vec![] });
    let text = state.trace.serialize().unwrap();
    let document: serde_json::Value = serde_json::from_str(&text).unwrap();
    let expected: serde_json::Value =
        serde_json::from_str("{\"events\":[], \"meta\":{\"callstack\":{}}}").unwrap();
    assert_eq!(document, expected);
}

#[test]
fn calloc_overflow_records_nothing() {
    let mut process = Process::libc();
    let (mut state, _) = process.start(MALLOC_CONFIG);
    let mut thread = ThreadState::new();
    hooks(&mut state).calloc.on_enter(
        Some(&mut thread),
        0x8000000000000000,
        2,
        Callstack::capture(vec![1, 2, 3]),
    );
    assert!(thread.pending_allocs.is_empty());
    let completed = hooks(&mut state).calloc.on_leave(Some(&mut thread), 0);
    assert!(completed.is_none());
    assert!(state.trace.events().is_empty());
    assert_eq!(hooks(&mut state).calloc.count, 0);
    fini(Some(&mut state));
    assert!(thread.pending_allocs.is_empty());
    assert!(thread.pending_reallocs.is_empty());
    assert!(thread.pending_frees.is_empty());
    assert!(thread.pending_callocs.is_empty());
}

#[test]
fn calloc_overflow_leaves_an_outer_call_alone() {
    let mut state = State::create(Allocator::Malloc(Malloc::new()));
    let mut thread = ThreadState::new();
    hooks(&mut state).malloc.on_enter(Some(&mut thread), 16, Callstack::capture(vec![7]));
    hooks(&mut state).calloc.on_enter(Some(&mut thread), u64::MAX, u64::MAX, Callstack::capture(vec![8]));
    assert_eq!(thread.pending_allocs.len(), 1);
    assert_eq!(thread.pending_allocs[0].0.size, 16);
    assert_eq!(thread.pending_allocs[0].1.frames(), &vec![7]);
    // The return of the overflowing calloc completes nothing and pops nothing.
    assert!(hooks(&mut state).calloc.on_leave(Some(&mut thread), 0).is_none());
    assert_eq!(hooks(&mut state).calloc.count, 0);
    assert_eq!(thread.pending_allocs.len(), 1);
    assert!(thread.pending_callocs.is_empty());
    assert!(state.trace.events().is_empty());
    // The enclosing call is still completed with its own size and result.
    let (event, callstack) = hooks(&mut state).malloc.on_leave(Some(&mut thread), 0x640).unwrap();
    assert_eq!(event, Event::Alloc(AllocEvent { timestamp: 0, address: 0x640, size: 16, callstack: 0 }));
    assert_eq!(callstack.frames(), &vec![7]);
    assert_eq!(hooks(&mut state).malloc.count, 1);
    assert!(thread.pending_allocs.is_empty());
}

#[test]
fn calloc_return_without_entry_pops_nothing() {
    let mut state = State::create(Allocator::Malloc(Malloc::new()));
    let mut thread = ThreadState::new();
    hooks(&mut state).malloc.on_enter(Some(&mut thread), 16, Callstack::capture(vec![7]));
    // The entry of this calloc had no handle, so it left no mark.
    hooks(&mut state).calloc.on_enter(None, 2, 2, Callstack::capture(vec![8]));
    assert!(hooks(&mut state).calloc.on_leave(Some(&mut thread), 0x10).is_none());
    assert_eq!(thread.pending_allocs.len(), 1);
    assert_eq!(hooks(&mut state).calloc.count, 0);
}

#[test]
fn overflowing_calloc_inside_calloc() {
    let mut state = State::create(Allocator::Malloc(Malloc::new()));
    let mut thread = ThreadState::new();
    hooks(&mut state).calloc.on_enter(Some(&mut thread), 4, 4, Callstack::capture(vec![1]));
    hooks(&mut state).calloc.on_enter(Some(&mut thread), 1 << 63, 2, Callstack::capture(vec![2]));
    assert_eq!(thread.pending_callocs, vec![true, false]);
    assert!(hooks(&mut state).calloc.on_leave(Some(&mut thread), 0).is_none());
    let (event, callstack) = hooks(&mut state).calloc.on_leave(Some(&mut thread), 0x99).unwrap();
    assert_eq!(event, Event::Alloc(AllocEvent { timestamp: 0, address: 0x99, size: 16, callstack: 0 }));
    assert_eq!(callstack.frames(), &vec![1]);
    assert_eq!(hooks(&mut state).calloc.count, 1);
    assert!(thread.pending_allocs.is_empty() && thread.pending_callocs.is_empty());
}

#[test]
fn calloc_records_the_total_size() {
    let mut state = State::create(Allocator::Malloc(Malloc::new()));
    let mut thread = ThreadState::new();
    hooks(&mut state).calloc.on_enter(Some(&mut thread), 3, 40, Callstack::capture(vec![7]));
    let (event, callstack) = hooks(&mut state).calloc.on_leave(Some(&mut thread), 0x700).unwrap();
    assert_eq!(event, Event::Alloc(AllocEvent { timestamp: 0, address: 0x700, size: 120, callstack: 0 }));
    assert_eq!(callstack.frames(), &vec![7]);
    hooks(&mut state).calloc.on_enter(Some(&mut thread), u64::MAX, 1, Callstack::capture(vec![7]));
    let (event, _) = hooks(&mut state).calloc.on_leave(Some(&mut thread), 0).unwrap();
    assert_eq!(event, Event::Alloc(AllocEvent { timestamp: 0, address: 0, size: u64::MAX, callstack: 0 }));
}

#[test]
fn memalign_records_its_second_argument() {
    let mut state = State::create(Allocator::Malloc(Malloc::new()));
    let mut thread = ThreadState::new();
    hooks(&mut state).memalign.on_enter(Some(&mut thread), 64, 1000, Callstack::capture(vec![7]));
    let (event, _) = hooks(&mut state).memalign.on_leave(Some(&mut thread), 0x40).unwrap();
    assert_eq!(event, Event::Alloc(AllocEvent { timestamp: 0, address: 0x40, size: 1000, callstack: 0 }));
    assert_eq!(hooks(&mut state).memalign.count, 1);
}

#[test]
fn realloc_records_both_addresses() {
    let mut state = State::create(Allocator::Malloc(Malloc::new()));
    let mut thread = ThreadState::new();
    hooks(&mut state).realloc.on_enter(Some(&mut thread), 0x100, 0, Callstack::capture(vec![7, 9]));
    let (event, callstack) = hooks(&mut state).realloc.on_leave(Some(&mut thread), 0).unwrap();
    assert_eq!(
        event,
        Event::Realloc(ReallocEvent {
            timestamp: 0,
            old_address: 0x100,
            new_address: 0,
            size: 0,
            callstack: 0
        })
    );
    state.trace.add_event(event, Some(callstack), 5);
    assert_eq!(
        state.trace.events()[0],
        Event::Realloc(ReallocEvent {
            timestamp: 5,
            old_address: 0x100,
            new_address: 0,
            size: 0,
            callstack: 7 ^ 9
        })
    );
}

#[test]
fn disabled_free_is_not_traced() {
    let mut process = Process::libc();
    let (mut state, outcome) =
        process.start("allocator = \"malloc\"\n[targets]\nfree = \"\"\n");
    assert_eq!(outcome, Ok(()));
    assert!(process.log.contains(&LogLine::Info("Ignoring disabled free listener.".to_string())));
    assert!(hooks(&mut state).free.guard.is_none());
    assert!(hooks(&mut state).malloc.guard.is_some());
    let mut thread = ThreadState::new();
    call_malloc(&mut process, &mut state, &mut thread, &[1], 8, 0x800);
    call_free(&mut process, &mut state, &mut thread, &[2], 0x800);
    let allocs = state.trace.events().iter().filter(|e| matches!(e, Event::Alloc(_))).count();
    let frees = state.trace.events().iter().filter(|e| matches!(e, Event::Free(_))).count();
    assert_eq!((allocs, frees), (1, 0));
}

#[test]
fn two_threads_keep_their_order() {
    let mut process = Process::libc();
    let (mut state, _) = process.start(MALLOC_CONFIG);
    let mut threads = [ThreadState::new(), ThreadState::new()];
    let stacks: [[u64; 2]; 2] = [[0x100, 0x1], [0x200, 0x2]];
    // An interleaving of the two threads that changes as it goes.
    let mut turn = 0x9e3779b97f4a7c15u64;
    let mut done = [0u64, 0u64];
    let mut holding: [Option<u64>; 2] = [None, None];
    while done[0] < 1000 || done[1] < 1000 {
        turn = turn.wrapping_mul(6364136223846793005).wrapping_add(1442695040888963407);
        let mut who = (turn >> 33) as usize % 2;
        if done[who] >= 1000 {
            who = 1 - who;
        }
        match holding[who].take() {
            None => {
                let address = 0x10000 * (who as u64 + 1) + done[who];
                call_malloc(&mut process, &mut state, &mut threads[who], &stacks[who], 16, address);
                holding[who] = Some(address);
            }
            Some(address) => {
                call_free(&mut process, &mut state, &mut threads[who], &stacks[who], address);
                done[who] += 1;
            }
        }
    }
    let events = state.trace.events();
    assert_eq!(events.len(), 4000);
    assert_eq!(events.iter().filter(|e| matches!(e, Event::Alloc(_))).count(), 2000);
    assert_eq!(events.iter().filter(|e| matches!(e, Event::Free(_))).count(), 2000);
    for who in 0..2 {
        let id = stacks[who][0] ^ stacks[who][1];
        let mut expected = 0u64;
        let mut held = false;
        let mut last = 0u64;
        for event in events.iter() {
            match event {
                Event::Alloc(alloc) if alloc.callstack == id => {
                    assert!(!held);
                    assert_eq!(alloc.address, 0x10000 * (who as u64 + 1) + expected);
                    assert!(alloc.timestamp > last);
                    last = alloc.timestamp;
                    held = true;
                }
                Event::Free(free) if free.callstack == id => {
                    assert!(held);
                    assert_eq!(free.address, 0x10000 * (who as u64 + 1) + expected);
                    assert!(free.timestamp > last);
                    last = free.timestamp;
                    held = false;
                    expected += 1;
                }
                _ => {}
            }
        }
        assert_eq!(expected, 1000);
    }
    assert_eq!(state.trace.callstack_count(), 2);
}

#[test]
fn missing_memalign_is_logged_and_skipped() {
    let mut process = Process::new(&["malloc", "calloc", "realloc", "free"]);
    let (mut state, outcome) = process.start(MALLOC_CONFIG);
    assert_eq!(outcome, Ok(()));
    let missing: Vec<&LogLine> = process.log.iter().filter(|line| line.is_error()).collect();
    assert_eq!(missing, vec![&LogLine::Error("Missing export: memalign".to_string())]);
    assert_eq!(missing[0].render(), "<allog> [!] Missing export: memalign");
    assert_eq!(
        process.log,
        vec![
            LogLine::Info("Read config: allog.toml".to_string()),
            LogLine::Info("Attached malloc listener: malloc @ 0x1000".to_string()),
            LogLine::Info("Attached calloc listener: calloc @ 0x1001".to_string()),
            LogLine::Error("Missing export: memalign".to_string()),
            LogLine::Info("Attached realloc listener: realloc @ 0x1002".to_string()),
            LogLine::Info("Attached free listener: free @ 0x1003".to_string()),
            LogLine::Info("Initialized!".to_string()),
        ]
    );
    assert!(hooks(&mut state).memalign.guard.is_none());
    assert!(hooks(&mut state).realloc.guard.is_some());
    let mut thread = ThreadState::new();
    call_malloc(&mut process, &mut state, &mut thread, &[1], 8, 0x800);
    let progress = fini(Some(&mut state)).unwrap();
    assert_eq!(progress.step, Step::Done);
    assert_eq!(
        progress.released,
        vec![
            ListenerGuard(MyNativeAddress(0x9003)),
            ListenerGuard(MyNativeAddress(0x9002)),
            ListenerGuard(MyNativeAddress(0x9001)),
            ListenerGuard(MyNativeAddress(0x9000)),
        ]
    );
    assert_eq!(
        progress.notices,
        vec![
            LogLine::Info("Detached the free listener after 0 calls.".to_string()),
            LogLine::Info("Detached the realloc listener after 0 calls.".to_string()),
            LogLine::Info("Detached the calloc listener after 0 calls.".to_string()),
            LogLine::Info("Detached the malloc listener after 1 calls.".to_string()),
        ]
    );
    assert!(state.trace.serialize().is_ok());
    assert_eq!(state.trace.events().len(), 1);
    assert!(state.reset().is_empty());
    assert!(state.trace.events().is_empty());
    assert!(matches!(state.allocator, Allocator::Noop(_)));
}

#[test]
fn no_state_means_nothing_to_take_down() {
    assert!(fini(None).is_none());
}

#[test]
fn nested_calls_are_paired_youngest_first() {
    let mut state = State::create(Allocator::Malloc(Malloc::new()));
    let mut thread = ThreadState::new();
    // calloc calls malloc inside.
    hooks(&mut state).calloc.on_enter(Some(&mut thread), 4, 8, Callstack::capture(vec![0xa]));
    hooks(&mut state).malloc.on_enter(Some(&mut thread), 32, Callstack::capture(vec![0xb]));
    assert_eq!(thread.pending_allocs.len(), 2);
    let (inner, inner_stack) = hooks(&mut state).malloc.on_leave(Some(&mut thread), 0x111).unwrap();
    let (outer, outer_stack) = hooks(&mut state).calloc.on_leave(Some(&mut thread), 0x111).unwrap();
    assert_eq!(inner, Event::Alloc(AllocEvent { timestamp: 0, address: 0x111, size: 32, callstack: 0 }));
    assert_eq!(inner_stack.frames(), &vec![0xb]);
    assert_eq!(outer, Event::Alloc(AllocEvent { timestamp: 0, address: 0x111, size: 32, callstack: 0 }));
    assert_eq!(outer_stack.frames(), &vec![0xa]);
    assert!(thread.pending_allocs.is_empty());
}

#[test]
fn handler_without_its_thread_state_does_nothing() {
    let mut state = State::create(Allocator::Malloc(Malloc::new()));
    let mut thread = ThreadState::new();
    // An outer call is in progress and holds the thread state.
    hooks(&mut state).malloc.on_enter(Some(&mut thread), 64, Callstack::capture(vec![1]));
    // The tracer's own allocations re-enter the hooks without it.
    hooks(&mut state).malloc.on_enter(None, 4096, Callstack::capture(vec![2]));
    assert!(hooks(&mut state).malloc.on_leave(None, 0xdead).is_none());
    hooks(&mut state).calloc.on_enter(None, 1, 1, Callstack::capture(vec![2]));
    assert!(hooks(&mut state).calloc.on_leave(None, 0xdead).is_none());
    hooks(&mut state).memalign.on_enter(None, 1, 1, Callstack::capture(vec![2]));
    assert!(hooks(&mut state).memalign.on_leave(None, 0xdead).is_none());
    hooks(&mut state).realloc.on_enter(None, 1, 1, Callstack::capture(vec![2]));
    assert!(hooks(&mut state).realloc.on_leave(None, 0xdead).is_none());
    hooks(&mut state).free.on_enter(None, 0xdead);
    assert!(hooks(&mut state).free.on_leave(None, Callstack::capture(vec![2])).is_none());
    assert_eq!(thread.pending_allocs.len(), 1);
    assert!(thread.pending_reallocs.is_empty() && thread.pending_frees.is_empty());
    assert_eq!(hooks(&mut state).malloc.count, 0);
    assert_eq!(hooks(&mut state).free.count, 0);
    assert!(state.trace.events().is_empty());
    let (event, _) = hooks(&mut state).malloc.on_leave(Some(&mut thread), 0x10).unwrap();
    assert_eq!(event, Event::Alloc(AllocEvent { timestamp: 0, address: 0x10, size: 64, callstack: 0 }));
    assert_eq!(hooks(&mut state).malloc.count, 1);
}

#[test]
fn return_without_entry_completes_nothing() {
    let mut state = State::create(Allocator::Malloc(Malloc::new()));
    let mut thread = ThreadState::new();
    assert!(hooks(&mut state).malloc.on_leave(Some(&mut thread), 1).is_none());
    assert!(hooks(&mut state).realloc.on_leave(Some(&mut thread), 1).is_none());
    assert!(hooks(&mut state).free.on_leave(Some(&mut thread), Callstack::capture(vec![])).is_none());
    assert_eq!(hooks(&mut state).malloc.count, 0);
    assert_eq!(hooks(&mut state).realloc.count, 0);
}

#[test]
fn count_stops_at_the_largest_value() {
    let mut state = State::create(Allocator::Malloc(Malloc::new()));
    let mut thread = ThreadState::new();
    hooks(&mut state).malloc.count = u64::MAX - 1;
    for _ in 0..3 {
        hooks(&mut state).malloc.on_enter(Some(&mut thread), 1, Callstack::capture(vec![]));
        assert!(hooks(&mut state).malloc.on_leave(Some(&mut thread), 1).is_some());
    }
    assert_eq!(hooks(&mut state).malloc.count, u64::MAX);
}

#[test]
fn refused_attachment_gives_up_every_guard() {
    let config = allog::config::parse_config(MALLOC_CONFIG).unwrap();
    let mut family = Malloc::new();
    let first = family.init(&config);
    assert_eq!(first.step, Step::Attach { target: Target::Malloc, symbol: "malloc".to_string() });
    let second = family.attached(
        &config,
        Target::Malloc,
        Lookup::Attached { address: MyNativeAddress(1), guard: ListenerGuard(MyNativeAddress(2)) },
    );
    assert_eq!(second.step, Step::Attach { target: Target::Calloc, symbol: "calloc".to_string() });
    assert!(second.released.is_empty());
    let third = family.attached(&config, Target::Calloc, Lookup::Refused("wrong signature".to_string()));
    assert_eq!(
        third,
        Progress {
            step: Step::Failed(
                "Failed to attach calloc listener to calloc: wrong signature".to_string()
            ),
            notices: vec![],
            released: vec![ListenerGuard(MyNativeAddress(2))],
        }
    );
    assert!(family.malloc.guard.is_none());
}

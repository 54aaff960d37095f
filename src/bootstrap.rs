use vstd::prelude::*;

verus! {

/// Milliseconds between two connection attempts while a spawned daemon starts.
pub const POLL_INTERVAL_MS: u64 = 100;

/// Where a client stands in obtaining a connection to a daemon.
#[derive(Debug, Clone, Copy, PartialEq, Eq)]
pub enum Phase {
    /// Trying the default socket once, before anything is spawned.
    Probing,
    /// Nothing answered; a daemon is being spawned.
    Spawning,
    /// A daemon was spawned and the client polls for it. `waited_ms` is the
    /// time spent waiting so far; `child_alive` whether the spawned process
    /// still runs (it exits when another daemon won the socket).
    Starting { waited_ms: u64, child_alive: bool },
    /// A connection was made.
    Ready,
    /// No connection could be made.
    Failed,
}

/// What the caller observed after carrying out the last action.
#[derive(Debug, Clone, Copy, PartialEq, Eq)]
pub enum Event {
    /// A connection attempt succeeded.
    Connected,
    /// A connection attempt was refused, or found no socket.
    Refused,
    /// The daemon process was started.
    Spawned,
    /// The daemon process could not be started.
    SpawnFailed,
    /// A connection attempt was refused and the spawned process has exited.
    ChildExited,
}

/// What the caller is to do next.
#[derive(Debug, Clone, Copy, PartialEq, Eq)]
pub enum Action {
    /// Try to connect to the socket.
    Connect,
    /// Spawn a daemon process.
    Spawn,
    /// Sleep this many milliseconds, then try to connect.
    WaitThenConnect(u64),
    /// Done: hand the connection string back.
    Finish,
    /// Give up with a start timeout; terminate the spawned process first
    /// where `terminate_child` is set.
    Fail { terminate_child: bool },
}

/// The first action of every bootstrap: try the default socket directly.
pub open spec fn initial_action() -> Action {
    Action::Connect
}

/// Another poll, or failure once `timeout_ms` has been spent waiting.
pub open spec fn poll_spec(waited_ms: u64, child_alive: bool, timeout_ms: u64) -> (Phase, Action) {
    if waited_ms < timeout_ms {
        let left = (timeout_ms - waited_ms) as u64;
        let d = if POLL_INTERVAL_MS <= left {
            POLL_INTERVAL_MS
        } else {
            left
        };
        (
            Phase::Starting { waited_ms: (waited_ms + d) as u64, child_alive },
            Action::WaitThenConnect(d),
        )
    } else {
        (Phase::Failed, Action::Fail { terminate_child: child_alive })
    }
}

/// The transition of a bootstrap on one event, and the action that follows.
///
/// The direct connection is tried once; on refusal exactly one daemon is
/// spawned; then the socket is polled until it answers or the timeout has
/// been spent. A spawned process that exited (it lost the socket to another
/// daemon) does not end the polling: the winner may still come up. On
/// timeout a process that still runs is terminated. Events that the last
/// action cannot have produced are read as its failure.
pub open spec fn step_spec(p: Phase, e: Event, timeout_ms: u64) -> (Phase, Action) {
    match p {
        Phase::Probing => match e {
            Event::Connected => (Phase::Ready, Action::Finish),
            _ => (Phase::Spawning, Action::Spawn),
        },
        Phase::Spawning => match e {
            Event::Spawned => poll_spec(0, true, timeout_ms),
            _ => (Phase::Failed, Action::Fail { terminate_child: false }),
        },
        Phase::Starting { waited_ms, child_alive } => match e {
            Event::Connected => (Phase::Ready, Action::Finish),
            Event::ChildExited => poll_spec(waited_ms, false, timeout_ms),
            _ => poll_spec(waited_ms, child_alive, timeout_ms),
        },
        Phase::Ready => (Phase::Ready, Action::Finish),
        Phase::Failed => (Phase::Failed, Action::Fail { terminate_child: false }),
    }
}

fn poll(waited_ms: u64, child_alive: bool, timeout_ms: u64) -> (r: (Phase, Action))
    ensures
        r == poll_spec(waited_ms, child_alive, timeout_ms),
{
    if waited_ms < timeout_ms {
        let left = timeout_ms - waited_ms;
        let d = if POLL_INTERVAL_MS <= left {
            POLL_INTERVAL_MS
        } else {
            left
        };
        (Phase::Starting { waited_ms: waited_ms + d, child_alive }, Action::WaitThenConnect(d))
    } else {
        (Phase::Failed, Action::Fail { terminate_child: child_alive })
    }
}

/// The phase in which every bootstrap starts, and its first action.
pub fn bootstrap_start() -> (r: (Phase, Action))
    ensures
        r == (Phase::Probing, initial_action()),
{
    (Phase::Probing, Action::Connect)
}

/// Advances a bootstrap by one observed event.
pub fn bootstrap_step(p: Phase, e: Event, timeout_ms: u64) -> (r: (Phase, Action))
    ensures
        r == step_spec(p, e, timeout_ms),
{
    match p {
        Phase::Probing => match e {
            Event::Connected => (Phase::Ready, Action::Finish),
            _ => (Phase::Spawning, Action::Spawn),
        },
        Phase::Spawning => match e {
            Event::Spawned => poll(0, true, timeout_ms),
            _ => (Phase::Failed, Action::Fail { terminate_child: false }),
        },
        Phase::Starting { waited_ms, child_alive } => match e {
            Event::Connected => (Phase::Ready, Action::Finish),
            Event::ChildExited => poll(waited_ms, false, timeout_ms),
            _ => poll(waited_ms, child_alive, timeout_ms),
        },
        Phase::Ready => (Phase::Ready, Action::Finish),
        Phase::Failed => (Phase::Failed, Action::Fail { terminate_child: false }),
    }
}

/// The actions that a run of events produces from phase `p`.
pub open spec fn actions_of(p: Phase, events: Seq<Event>, timeout_ms: u64) -> Seq<Action>
    decreases events.len(),
{
    if events.len() == 0 {
        Seq::empty()
    } else {
        let (q, a) = step_spec(p, events[0], timeout_ms);
        seq![a] + actions_of(q, events.drop_first(), timeout_ms)
    }
}

/// The number of spawns among some actions.
pub open spec fn spawn_count(acts: Seq<Action>) -> nat
    decreases acts.len(),
{
    if acts.len() == 0 {
        0
    } else {
        (if acts[0] is Spawn {
            1nat
        } else {
            0nat
        }) + spawn_count(acts.drop_first())
    }
}

/// The milliseconds that some actions spend waiting.
pub open spec fn wait_total(acts: Seq<Action>) -> nat
    decreases acts.len(),
{
    if acts.len() == 0 {
        0
    } else {
        (match acts[0] {
            Action::WaitThenConnect(d) => d as nat,
            _ => 0nat,
        }) + wait_total(acts.drop_first())
    }
}

/// Waiting time already spent in a phase; a finished bootstrap has no more to spend.
pub open spec fn spent(p: Phase, timeout_ms: u64) -> nat {
    match p {
        Phase::Starting { waited_ms, .. } => waited_ms as nat,
        Phase::Ready => timeout_ms as nat,
        Phase::Failed => timeout_ms as nat,
        _ => 0,
    }
}

proof fn lemma_actions_split(p: Phase, events: Seq<Event>, timeout_ms: u64)
    requires
        events.len() > 0,
    ensures
        ({
            let (q, a) = step_spec(p, events[0], timeout_ms);
            let rest = actions_of(q, events.drop_first(), timeout_ms);
            &&& spawn_count(actions_of(p, events, timeout_ms)) == (if a is Spawn {
                1nat
            } else {
                0nat
            }) + spawn_count(rest)
            &&& wait_total(actions_of(p, events, timeout_ms)) == (match a {
                Action::WaitThenConnect(d) => d as nat,
                _ => 0nat,
            }) + wait_total(rest)
        }),
{
    let (q, a) = step_spec(p, events[0], timeout_ms);
    let rest = actions_of(q, events.drop_first(), timeout_ms);
    let all = actions_of(p, events, timeout_ms);
    assert(all == seq![a] + rest);
    assert(all.drop_first() =~= rest);
}

/// Whatever happens, a bootstrap spawns at most one daemon: a spawn comes
/// only out of the first, direct connection attempt, which is never repeated.
pub proof fn lemma_spawns_at_most_once(events: Seq<Event>, timeout_ms: u64)
    ensures
        spawn_count(actions_of(Phase::Probing, events, timeout_ms)) <= 1,
{
    if events.len() > 0 {
        lemma_actions_split(Phase::Probing, events, timeout_ms);
        let (q, a) = step_spec(Phase::Probing, events[0], timeout_ms);
        lemma_no_spawn_after_probe(q, events.drop_first(), timeout_ms);
    }
}

proof fn lemma_no_spawn_after_probe(p: Phase, events: Seq<Event>, timeout_ms: u64)
    requires
        p != Phase::Probing,
    ensures
        spawn_count(actions_of(p, events, timeout_ms)) == 0,
    decreases events.len(),
{
    if events.len() > 0 {
        lemma_actions_split(p, events, timeout_ms);
        let (q, a) = step_spec(p, events[0], timeout_ms);
        lemma_no_spawn_after_probe(q, events.drop_first(), timeout_ms);
    }
}

proof fn lemma_wait_bounded(p: Phase, events: Seq<Event>, timeout_ms: u64)
    requires
        spent(p, timeout_ms) <= timeout_ms,
    ensures
        spent(p, timeout_ms) + wait_total(actions_of(p, events, timeout_ms)) <= timeout_ms,
    decreases events.len(),
{
    if events.len() > 0 {
        lemma_actions_split(p, events, timeout_ms);
        let (q, a) = step_spec(p, events[0], timeout_ms);
        lemma_wait_bounded(q, events.drop_first(), timeout_ms);
    }
}

/// Whatever happens, a bootstrap waits in all no longer than its timeout.
pub proof fn lemma_waits_within_timeout(events: Seq<Event>, timeout_ms: u64)
    ensures
        wait_total(actions_of(Phase::Probing, events, timeout_ms)) <= timeout_ms,
{
    lemma_wait_bounded(Phase::Probing, events, timeout_ms);
}

/// The phase that a run of events leads to from phase `p`.
pub open spec fn phase_after(p: Phase, events: Seq<Event>, timeout_ms: u64) -> Phase
    decreases events.len(),
{
    if events.len() == 0 {
        p
    } else {
        phase_after(step_spec(p, events[0], timeout_ms).0, events.drop_first(), timeout_ms)
    }
}

/// Whether a bootstrap is over.
pub open spec fn is_settled(p: Phase) -> bool {
    p is Ready || p is Failed
}

/// An upper bound on the events a bootstrap may still take before it is over.
pub open spec fn events_left(p: Phase, timeout_ms: u64) -> nat {
    match p {
        Phase::Probing => (timeout_ms + 3) as nat,
        Phase::Spawning => (timeout_ms + 2) as nat,
        Phase::Starting { waited_ms, .. } => (timeout_ms - waited_ms + 1) as nat,
        _ => 0,
    }
}

proof fn lemma_settles_from(p: Phase, events: Seq<Event>, timeout_ms: u64)
    requires
        events.len() >= events_left(p, timeout_ms),
        p matches Phase::Starting { waited_ms, .. } ==> waited_ms <= timeout_ms,
    ensures
        is_settled(phase_after(p, events, timeout_ms)),
    decreases events.len(),
{
    if events.len() > 0 {
        let q = step_spec(p, events[0], timeout_ms).0;
        if !is_settled(p) {
            assert(events_left(q, timeout_ms) < events_left(p, timeout_ms));
        }
        lemma_settles_from(q, events.drop_first(), timeout_ms);
    }
}

/// Every bootstrap comes to a verdict, ready or failed, after at most
/// `timeout_ms + 3` events: the polling cannot go on for ever.
pub proof fn lemma_bootstrap_settles(events: Seq<Event>, timeout_ms: u64)
    requires
        events.len() >= timeout_ms + 3,
    ensures
        is_settled(phase_after(Phase::Probing, events, timeout_ms)),
{
    lemma_settles_from(Phase::Probing, events, timeout_ms);
}

/// A spawned daemon that lost the socket to another one does not fail its
/// bootstrap while time is left: the client keeps polling for the winner.
pub proof fn lemma_lost_race_keeps_polling(waited_ms: u64, child_alive: bool, timeout_ms: u64)
    requires
        waited_ms < timeout_ms,
    ensures
        step_spec(
            Phase::Starting { waited_ms, child_alive },
            Event::ChildExited,
            timeout_ms,
        ).0 is Starting,
        step_spec(
            Phase::Starting { waited_ms, child_alive },
            Event::ChildExited,
            timeout_ms,
        ).1 is WaitThenConnect,
{
}

/// A bootstrap that gives up while its spawned daemon still runs terminates it.
pub proof fn lemma_no_orphan_on_timeout(waited_ms: u64, e: Event, timeout_ms: u64)
    requires
        e != Event::Connected,
        e != Event::ChildExited,
        step_spec(Phase::Starting { waited_ms, child_alive: true }, e, timeout_ms).1 is Fail,
    ensures
        step_spec(Phase::Starting { waited_ms, child_alive: true }, e, timeout_ms).1
            == (Action::Fail { terminate_child: true }),
{
}

} // verus!

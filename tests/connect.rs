use arcanist_core::address::{
    normalize_target, plan_bind, prepare_socket_path, resolve_transport, transport_for,
    BindError, ListenTarget, PathState, PathStep, Transport,
};
use arcanist_core::bootstrap::{
    bootstrap_start, bootstrap_step, Action, Event, Phase, POLL_INTERVAL_MS,
};
use arcanist_core::settings::{
    adjust_verbosity, client_target, ClientTarget, default_socket_path, listen_address, log_level, repo_command, report_lines,
    LogLevel, RepoCommand,
};

fn s(x: &str) -> String {
    x.to_string()
}

/// Runs a bootstrap over some events, collecting its actions.
fn run(events: &[Event], timeout_ms: u64) -> (Phase, Vec<Action>) {
    let (mut p, first) = bootstrap_start();
    let mut acts = vec![first];
    for e in events {
        let (q, a) = bootstrap_step(p, *e, timeout_ms);
        p = q;
        acts.push(a);
    }
    (p, acts)
}

#[test]
fn live_daemon_is_used_without_spawning() {
    let (p, acts) = run(&[Event::Connected], 5000);
    assert_eq!(p, Phase::Ready);
    assert_eq!(acts, vec![Action::Connect, Action::Finish]);
}

#[test]
fn missing_daemon_is_spawned_once_then_polled() {
    let (p, acts) = run(
        &[Event::Refused, Event::Spawned, Event::Refused, Event::Connected],
        5000,
    );
    assert_eq!(p, Phase::Ready);
    assert_eq!(
        acts,
        vec![
            Action::Connect,
            Action::Spawn,
            Action::WaitThenConnect(POLL_INTERVAL_MS),
            Action::WaitThenConnect(POLL_INTERVAL_MS),
            Action::Finish,
        ]
    );
    assert_eq!(acts.iter().filter(|a| **a == Action::Spawn).count(), 1);
}

#[test]
fn timeout_terminates_spawned_daemon() {
    let mut events = vec![Event::Refused, Event::Spawned];
    events.extend(std::iter::repeat(Event::Refused).take(10));
    let (p, acts) = run(&events, 250);
    assert_eq!(p, Phase::Failed);
    let waits: u64 = acts
        .iter()
        .map(|a| match a {
            Action::WaitThenConnect(d) => *d,
            _ => 0,
        })
        .sum();
    assert_eq!(waits, 250);
    assert!(acts.contains(&Action::WaitThenConnect(50)));
    assert!(acts.contains(&Action::Fail { terminate_child: true }));
    assert_eq!(acts.iter().filter(|a| **a == Action::Spawn).count(), 1);
}

#[test]
fn lost_race_falls_back_to_winner() {
    let (p, acts) = run(
        &[Event::Refused, Event::Spawned, Event::ChildExited, Event::Connected],
        5000,
    );
    assert_eq!(p, Phase::Ready);
    assert_eq!(acts.last(), Some(&Action::Finish));
}

#[test]
fn lost_race_without_winner_fails_without_kill() {
    let (p, acts) = run(
        &[Event::Refused, Event::Spawned, Event::ChildExited, Event::Refused],
        100,
    );
    assert_eq!(p, Phase::Failed);
    assert_eq!(acts.last(), Some(&Action::Fail { terminate_child: false }));
}

#[test]
fn failed_spawn_fails_at_once() {
    let (p, acts) = run(&[Event::Refused, Event::SpawnFailed], 5000);
    assert_eq!(p, Phase::Failed);
    assert_eq!(acts.last(), Some(&Action::Fail { terminate_child: false }));
}

#[test]
fn zero_timeout_gives_up_after_spawn() {
    let (p, acts) = run(&[Event::Refused, Event::Spawned], 0);
    assert_eq!(p, Phase::Failed);
    assert_eq!(acts.last(), Some(&Action::Fail { terminate_child: true }));
}

#[test]
fn raw_socket_target_becomes_url() {
    assert_eq!(normalize_target("127.0.0.1:4000", Some("127.0.0.1:4000")), "http://127.0.0.1:4000");
    assert_eq!(normalize_target("[::]:0", Some("[::]:0")), "http://[::]:0");
    assert_eq!(normalize_target("/run/arcanist.sock", None), "/run/arcanist.sock");
    assert_eq!(normalize_target("http://host:1", None), "http://host:1");
}

#[test]
fn transport_follows_url_parse() {
    assert_eq!(resolve_transport("/run/arcanist.sock"), Transport::LocalSocket(s("/run/arcanist.sock")));
    assert_eq!(
        resolve_transport("http://127.0.0.1:4000"),
        Transport::Network(s("http://127.0.0.1:4000"))
    );
    assert_eq!(transport_for("x", true), Transport::Network(s("x")));
    assert_eq!(transport_for("x", false), Transport::LocalSocket(s("x")));
}

#[test]
fn bind_rejects_relative_path() {
    assert_eq!(
        plan_bind("relative/arcanist.sock", false),
        Err(BindError::InvalidSocketPath(s("relative/arcanist.sock")))
    );
    assert_eq!(plan_bind("", false), Err(BindError::InvalidSocketPath(s(""))));
}

#[test]
fn bind_accepts_socket_address_and_absolute_path() {
    assert_eq!(plan_bind("127.0.0.1:0", true), Ok(ListenTarget::Network(s("127.0.0.1:0"))));
    assert_eq!(
        plan_bind("/tmp/arcanist.sock", false),
        Ok(ListenTarget::LocalSocket(s("/tmp/arcanist.sock")))
    );
}

#[test]
fn socket_path_preparation() {
    let p = "/tmp/a.sock";
    assert_eq!(prepare_socket_path(p, PathState::Absent), Ok(PathStep::Bind));
    assert_eq!(prepare_socket_path(p, PathState::StaleSocket), Ok(PathStep::RemoveThenBind));
    assert_eq!(prepare_socket_path(p, PathState::LiveSocket), Err(BindError::AddressInUse(s(p))));
    assert_eq!(prepare_socket_path(p, PathState::NotSocket), Err(BindError::NotASocket(s(p))));
}

#[test]
fn verbosity_maps_to_level() {
    assert_eq!(log_level(i32::MIN), LogLevel::Off);
    assert_eq!(log_level(-2), LogLevel::Off);
    assert_eq!(log_level(-1), LogLevel::Error);
    assert_eq!(log_level(0), LogLevel::Warn);
    assert_eq!(log_level(1), LogLevel::Info);
    assert_eq!(log_level(2), LogLevel::Debug);
    assert_eq!(log_level(3), LogLevel::Trace);
    assert_eq!(log_level(i32::MAX), LogLevel::Trace);
}

#[test]
fn verbosity_counts_flags_and_saturates() {
    assert_eq!(adjust_verbosity(0, 2, 1), 1);
    assert_eq!(adjust_verbosity(1, 0, 3), -2);
    assert_eq!(adjust_verbosity(i32::MAX, 5, 0), i32::MAX);
    assert_eq!(adjust_verbosity(i32::MIN, 0, u32::MAX), i32::MIN);
}

#[test]
fn default_socket_joins_run_dir() {
    assert_eq!(default_socket_path("/run/user/1000/pkgcraft"), "/run/user/1000/pkgcraft/arcanist.sock");
    assert_eq!(default_socket_path("/run/"), "/run/arcanist.sock");
    assert_eq!(default_socket_path(""), "arcanist.sock");
}

#[test]
fn listen_address_precedence() {
    assert_eq!(listen_address(Some("127.0.0.1:0"), "/cfg.sock", "/run"), "127.0.0.1:0");
    assert_eq!(listen_address(None, "/cfg.sock", "/run"), "/cfg.sock");
    assert_eq!(listen_address(None, "", "/run"), "/run/arcanist.sock");
}

#[test]
fn report_lists_cause_chain() {
    let lines = report_lines(
        "failed connecting to arcanist socket: /run/arcanist.sock",
        &vec![s("connection refused")],
    );
    assert_eq!(
        lines,
        vec![
            s("error: failed connecting to arcanist socket: /run/arcanist.sock"),
            s("caused by: connection refused"),
        ]
    );
    assert_eq!(report_lines("x", &Vec::new()), vec![s("error: x")]);
}

#[test]
fn repo_subcommands_by_name() {
    assert_eq!(repo_command(&s("add")), Some(RepoCommand::Add));
    assert_eq!(repo_command(&s("del")), Some(RepoCommand::Del));
    assert_eq!(repo_command(&s("list")), Some(RepoCommand::List));
    assert_eq!(repo_command(&s("new")), Some(RepoCommand::New));
    assert_eq!(repo_command(&s("sync")), Some(RepoCommand::Sync));
    assert_eq!(repo_command(&s("frobnicate")), None);
}

#[test]
fn client_target_prefers_configured_url() {
    assert_eq!(client_target("http://[::1]:9000", "/run"), ClientTarget::Direct(s("http://[::1]:9000")));
    assert_eq!(client_target("", "/run/pkgcraft"), ClientTarget::Bootstrap(s("/run/pkgcraft/arcanist.sock")));
}

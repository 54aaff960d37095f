use arcanist_core::guard::{
    classify, ConfigGuard, EngineError, EngineErrorKind, ErrorKind, ServiceError,
};
use arcanist_core::repos::RepositorySet;
use arcanist_core::stream::SearchProducer;
use arcanist_core::version::{server_identity, version_reply};

fn s(x: &str) -> String {
    x.to_string()
}

fn strings(xs: &[&str]) -> Vec<String> {
    xs.iter().map(|x| x.to_string()).collect()
}

fn guard_with(entries: &[(&str, &str)]) -> ConfigGuard {
    let mut g = ConfigGuard::new(RepositorySet::new());
    for (id, loc) in entries {
        g.add_repo(s(id), s(loc), Ok(())).unwrap();
    }
    g
}

fn rejected(msg: &str) -> EngineError {
    EngineError { kind: EngineErrorKind::Config, message: s(msg) }
}

fn broken(msg: &str) -> EngineError {
    EngineError { kind: EngineErrorKind::Other, message: s(msg) }
}

fn expect_err<T: std::fmt::Debug>(r: Result<T, ServiceError>) -> ServiceError {
    match r {
        Ok(v) => panic!("expected an error, got {:?}", v),
        Err(e) => e,
    }
}

#[test]
fn duplicate_add_keeps_first_uri() {
    let mut g = ConfigGuard::new(RepositorySet::new());
    assert_eq!(g.add_repo(s("r1"), s("/some/uri"), Ok(())).unwrap(), "r1");
    let e = expect_err(g.add_repo(s("r1"), s("/other/uri"), Ok(())));
    assert_eq!(e.kind, ErrorKind::PreconditionFailed);
    assert_eq!(e.message, "repo already exists: r1");
    assert_eq!(g.list_repos(), strings(&["r1: /some/uri"]));
}

#[test]
fn remove_missing_leaves_set_unchanged() {
    let mut g = guard_with(&[("a", "/a"), ("b", "/b")]);
    let before = g.list_repos();
    let e = expect_err(g.remove_repos(strings(&["missing"]), Ok(())));
    assert_eq!(e.kind, ErrorKind::PreconditionFailed);
    assert_eq!(e.message, "nonexistent repo: missing");
    assert_eq!(g.list_repos(), before);
}

#[test]
fn remove_names_first_unknown_id() {
    let mut g = guard_with(&[("a", "/a")]);
    let e = expect_err(g.remove_repos(strings(&["a", "x", "y"]), Ok(())));
    assert_eq!(e.message, "nonexistent repo: x");
    assert_eq!(g.list_repos(), strings(&["a: /a"]));
}

#[test]
fn remove_keeps_order_of_rest() {
    let mut g = guard_with(&[("a", "/a"), ("b", "/b"), ("c", "/c"), ("d", "/d")]);
    let removed = g.remove_repos(strings(&["c", "a"]), Ok(())).unwrap();
    assert_eq!(removed, strings(&["c", "a"]));
    assert_eq!(g.list_repos(), strings(&["b: /b", "d: /d"]));
    assert_eq!(g.read().ids(), strings(&["b", "d"]));
}

#[test]
fn add_engine_rejection_is_precondition() {
    let mut g = guard_with(&[("a", "/a")]);
    let e = expect_err(g.add_repo(s("b"), s("bad uri"), Err(rejected("invalid repo: bad uri"))));
    assert_eq!(e.kind, ErrorKind::PreconditionFailed);
    assert_eq!(e.message, "invalid repo: bad uri");
    assert_eq!(g.list_repos(), strings(&["a: /a"]));
}

#[test]
fn add_engine_failure_is_internal() {
    let mut g = ConfigGuard::new(RepositorySet::new());
    let e = expect_err(g.add_repo(s("b"), s("/b"), Err(broken("disk full"))));
    assert_eq!(e.kind, ErrorKind::InternalFailure);
    assert_eq!(e.message, "disk full");
    assert!(g.list_repos().is_empty());
}

#[test]
fn add_precheck_reports_taken_name() {
    let g = guard_with(&[("a", "/a")]);
    assert!(g.add_precheck(&s("b")).is_ok());
    let e = expect_err(g.add_precheck(&s("a")));
    assert_eq!(e.kind, ErrorKind::PreconditionFailed);
}

#[test]
fn list_keeps_insertion_order() {
    let g = guard_with(&[("zeta", "/z"), ("alpha", "https://example.org/alpha.git")]);
    assert_eq!(
        g.list_repos(),
        strings(&["zeta: /z", "alpha: https://example.org/alpha.git"])
    );
}

#[test]
fn create_repo_records_engine_location() {
    let mut g = guard_with(&[("a", "/a")]);
    assert_eq!(g.create_repo(s("fresh"), Ok(s("/var/db/repos/fresh"))).unwrap(), "fresh");
    assert_eq!(g.list_repos(), strings(&["a: /a", "fresh: /var/db/repos/fresh"]));
    let e = expect_err(g.create_repo(s("a"), Ok(s("/elsewhere"))));
    assert_eq!(e.message, "repo already exists: a");
    let e = expect_err(g.create_repo(s("b"), Err(broken("io"))));
    assert_eq!(e.kind, ErrorKind::InternalFailure);
    assert_eq!(g.read().len(), 2);
}

#[test]
fn sync_empty_means_all() {
    let mut g = guard_with(&[("a", "/a"), ("b", "/b")]);
    assert_eq!(g.sync_targets(&Vec::new()).unwrap(), strings(&["a", "b"]));
    assert_eq!(g.sync_repos(Vec::new(), Ok(())).unwrap(), strings(&["a", "b"]));
    assert_eq!(g.sync_repos(strings(&["b"]), Ok(())).unwrap(), strings(&["b"]));
    let e = expect_err(g.sync_repos(strings(&["q"]), Ok(())));
    assert_eq!(e.message, "nonexistent repo: q");
    let e = expect_err(g.sync_repos(strings(&["a"]), Err(rejected("no remote"))));
    assert_eq!(e.kind, ErrorKind::PreconditionFailed);
    assert_eq!(g.list_repos(), strings(&["a: /a", "b: /b"]));
}

#[test]
fn snapshot_follows_successful_changes_only() {
    let mut g = guard_with(&[("a", "/a")]);
    let _ = g.add_repo(s("a"), s("/x"), Ok(()));
    assert_eq!(g.read().listing(), strings(&["a: /a"]));
    g.add_repo(s("b"), s("/b"), Ok(())).unwrap();
    assert_eq!(g.read().listing(), strings(&["a: /a", "b: /b"]));
    assert!(g.read().contains(&s("b")));
    assert_eq!(g.read().position(&s("b")), Some(1));
}

#[test]
fn classify_keeps_message() {
    let e = classify(rejected("bad"));
    assert_eq!((e.kind, e.message.as_str()), (ErrorKind::PreconditionFailed, "bad"));
    let e = classify(broken("worse"));
    assert_eq!((e.kind, e.message.as_str()), (ErrorKind::InternalFailure, "worse"));
}

fn drain(p: &mut SearchProducer) -> Vec<String> {
    let mut out = Vec::new();
    while let Some(x) = p.next_item() {
        out.push(x);
    }
    out
}

#[test]
fn search_yields_items_in_order() {
    let mut p = SearchProducer::new(strings(&["a", "b", "c"]));
    assert_eq!(drain(&mut p), strings(&["a", "b", "c"]));
    assert_eq!(p.next_item(), None);
}

#[test]
fn search_stops_after_cancel() {
    let mut p = SearchProducer::new(strings(&["a", "b", "c"]));
    assert_eq!(p.next_item(), Some(s("a")));
    p.receiver_closed();
    assert_eq!(p.next_item(), None);
    assert_eq!(drain(&mut p), Vec::<String>::new());
}

#[test]
fn search_of_nothing_yields_nothing() {
    let mut p = SearchProducer::new(Vec::new());
    assert_eq!(p.next_item(), None);
}

#[test]
fn version_reply_names_both_sides() {
    assert_eq!(
        version_reply("pakt-1.0", "arcanist-1.0"),
        "client: pakt-1.0, server: arcanist-1.0"
    );
    assert_eq!(server_identity("arcanist", "1.0"), "arcanist-1.0");
    assert_eq!(
        version_reply(&server_identity("pakt", "0.0.1"), &server_identity("arcanist", "0.0.1")),
        "client: pakt-0.0.1, server: arcanist-0.0.1"
    );
}

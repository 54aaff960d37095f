use vstd::prelude::*;
use vstd::string::*;

use crate::repos::texts;

verus! {

/// How much a program logs.
#[derive(Debug, Clone, Copy, PartialEq, Eq)]
pub enum LogLevel {
    Off,
    Error,
    Warn,
    Info,
    Debug,
    Trace,
}

/// The verbosity that the command line leaves: the configured one, raised once
/// per `--verbose` and lowered once per `--quiet`, as a mathematical integer.
pub open spec fn verbosity_spec(base: i32, verbose: u32, quiet: u32) -> int {
    base + verbose - quiet
}

/// Clamps an integer into the range of `i32`.
pub open spec fn clamp_i32(x: int) -> int {
    if x < i32::MIN {
        i32::MIN as int
    } else if x > i32::MAX {
        i32::MAX as int
    } else {
        x
    }
}

/// The verbosity after `verbose` raises and `quiet` drops, saturating at the
/// bounds of `i32`.
pub fn adjust_verbosity(base: i32, verbose: u32, quiet: u32) -> (r: i32)
    ensures
        r as int == clamp_i32(verbosity_spec(base, verbose, quiet)),
{
    let x: i64 = base as i64 + verbose as i64 - quiet as i64;
    if x < i32::MIN as i64 {
        i32::MIN
    } else if x > i32::MAX as i64 {
        i32::MAX
    } else {
        x as i32
    }
}

/// The log level of a verbosity; 0 is the default, warnings.
pub open spec fn level_spec(v: int) -> LogLevel {
    if v <= -2 {
        LogLevel::Off
    } else if v == -1 {
        LogLevel::Error
    } else if v == 0 {
        LogLevel::Warn
    } else if v == 1 {
        LogLevel::Info
    } else if v == 2 {
        LogLevel::Debug
    } else {
        LogLevel::Trace
    }
}

/// The log level for a verbosity.
pub fn log_level(verbosity: i32) -> (r: LogLevel)
    ensures
        r == level_spec(verbosity as int),
{
    if verbosity <= -2 {
        LogLevel::Off
    } else if verbosity == -1 {
        LogLevel::Error
    } else if verbosity == 0 {
        LogLevel::Warn
    } else if verbosity == 1 {
        LogLevel::Info
    } else if verbosity == 2 {
        LogLevel::Debug
    } else {
        LogLevel::Trace
    }
}

/// File name of the daemon's socket inside the run directory.
pub open spec fn socket_file_name() -> Seq<char> {
    "arcanist.sock"@
}

/// The default socket path: the socket file inside `run_dir`, joined as a
/// path is (no separator is added after an empty directory or a trailing `/`).
pub open spec fn default_socket_spec(run_dir: Seq<char>) -> Seq<char> {
    if run_dir.len() == 0 {
        socket_file_name()
    } else if run_dir.last() == '/' {
        run_dir + socket_file_name()
    } else {
        run_dir + "/"@ + socket_file_name()
    }
}

/// The socket at which a daemon is looked for when no target is given.
pub fn default_socket_path(run_dir: &str) -> (r: String)
    ensures
        r@ == default_socket_spec(run_dir@),
{
    proof {
        reveal_strlit("arcanist.sock");
        reveal_strlit("/");
    }
    let n = run_dir.unicode_len();
    if n == 0 {
        String::from_str("arcanist.sock")
    } else if run_dir.get_char(n - 1) == '/' {
        String::from_str(run_dir).concat("arcanist.sock")
    } else {
        String::from_str(run_dir).concat("/").concat("arcanist.sock")
    }
}

/// How a client finds its daemon.
#[derive(Debug, PartialEq, Eq)]
pub enum ClientTarget {
    /// Connect to this configured connection string as it is.
    Direct(String),
    /// Connect to, or spawn, the daemon at this default socket path.
    Bootstrap(String),
}

impl ClientTarget {
    pub open spec fn view_parts(self) -> (bool, Seq<char>) {
        match self {
            ClientTarget::Direct(u) => (true, u@),
            ClientTarget::Bootstrap(p) => (false, p@),
        }
    }
}

/// A configured connection string is used directly; without one the client
/// bootstraps the daemon at the default socket in the run directory.
pub fn client_target(configured: &str, run_dir: &str) -> (r: ClientTarget)
    ensures
        configured@.len() > 0 ==> r.view_parts() == (true, configured@),
        configured@.len() == 0 ==> r.view_parts() == (false, default_socket_spec(run_dir@)),
{
    if configured.unicode_len() > 0 {
        ClientTarget::Direct(String::from_str(configured))
    } else {
        ClientTarget::Bootstrap(default_socket_path(run_dir))
    }
}

/// The address a daemon listens at: the one given on its command line, else
/// the configured one, else the default socket in the run directory.
pub open spec fn listen_spec(arg: Option<Seq<char>>, configured: Seq<char>, run_dir: Seq<char>) -> Seq<char> {
    match arg {
        Some(a) => a,
        None => if configured.len() > 0 {
            configured
        } else {
            default_socket_spec(run_dir)
        },
    }
}

/// Picks the address a daemon listens at.
pub fn listen_address(arg: Option<&str>, configured: &str, run_dir: &str) -> (r: String)
    ensures
        r@ == listen_spec(
            match arg {
                Some(a) => Some(a@),
                None => None,
            },
            configured@,
            run_dir@,
        ),
{
    match arg {
        Some(a) => String::from_str(a),
        None => if configured.unicode_len() > 0 {
            String::from_str(configured)
        } else {
            default_socket_path(run_dir)
        },
    }
}

/// The lines that report a failure: the error itself, then one line per
/// underlying cause, outermost first.
pub open spec fn report_spec(error: Seq<char>, causes: Seq<Seq<char>>) -> Seq<Seq<char>> {
    seq!["error: "@ + error].add(causes.map_values(|c: Seq<char>| "caused by: "@ + c))
}

/// Lays out the report of a failure and its chain of causes.
pub fn report_lines(error: &str, causes: &Vec<String>) -> (r: Vec<String>)
    ensures
        texts(r@) == report_spec(error@, texts(causes@)),
{
    proof {
        reveal_strlit("error: ");
        reveal_strlit("caused by: ");
    }
    let mut r: Vec<String> = Vec::new();
    r.push(String::from_str("error: ").concat(error));
    let mut i: usize = 0;
    while i < causes.len()
        invariant
            i <= causes@.len(),
            r@.len() == i + 1,
            r@[0]@ == "error: "@ + error@,
            forall|j: int| 0 <= j < i ==> #[trigger] r@[j + 1]@ == "caused by: "@ + causes@[j]@,
        decreases causes.len() - i,
    {
        r.push(String::from_str("caused by: ").concat(causes[i].as_str()));
        i = i + 1;
    }
    let ghost want = report_spec(error@, texts(causes@));
    assert forall|j: int| 0 <= j < want.len() implies texts(r@)[j] == want[j] by {
        if j > 0 {
            assert(r@[(j - 1) + 1]@ == "caused by: "@ + causes@[j - 1]@);
        }
    }
    assert(texts(r@) =~= want);
    r
}

/// The subcommands of `repo`.
#[derive(Debug, Clone, Copy, PartialEq, Eq)]
pub enum RepoCommand {
    Add,
    Del,
    List,
    New,
    Sync,
}

/// The subcommand that a name selects, if any.
pub open spec fn repo_command_spec(name: Seq<char>) -> Option<RepoCommand> {
    if name == "add"@ {
        Some(RepoCommand::Add)
    } else if name == "del"@ {
        Some(RepoCommand::Del)
    } else if name == "list"@ {
        Some(RepoCommand::List)
    } else if name == "new"@ {
        Some(RepoCommand::New)
    } else if name == "sync"@ {
        Some(RepoCommand::Sync)
    } else {
        None
    }
}

/// Picks the `repo` subcommand by its name.
pub fn repo_command(name: &String) -> (r: Option<RepoCommand>)
    ensures
        r == repo_command_spec(name@),
{
    proof {
        reveal_strlit("add");
        reveal_strlit("del");
        reveal_strlit("list");
        reveal_strlit("new");
        reveal_strlit("sync");
    }
    if *name == String::from_str("add") {
        Some(RepoCommand::Add)
    } else if *name == String::from_str("del") {
        Some(RepoCommand::Del)
    } else if *name == String::from_str("list") {
        Some(RepoCommand::List)
    } else if *name == String::from_str("new") {
        Some(RepoCommand::New)
    } else if *name == String::from_str("sync") {
        Some(RepoCommand::Sync)
    } else {
        None
    }
}

} // verus!

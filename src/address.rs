use vstd::prelude::*;
use vstd::string::*;

verus! {

/// Whether `url::Url::parse` accepts the text as an absolute URL.
pub uninterp spec fn is_url(s: Seq<char>) -> bool;

/// Relies on `url::Url::parse`: it accepts or refuses the text from the text alone.
#[verifier::external_body]
fn url_parses(s: &str) -> (r: bool)
    ensures
        r == is_url(s@),
{
    url::Url::parse(s).is_ok()
}

/// Whether a text names an absolute filesystem path.
pub open spec fn is_absolute_path(s: Seq<char>) -> bool {
    s.len() > 0 && s[0] == '/'
}

fn starts_with_slash(s: &str) -> (r: bool)
    ensures
        r == is_absolute_path(s@),
{
    s.unicode_len() > 0 && s.get_char(0) == '/'
}

/// The connection string for a target that the caller typed.
///
/// `socket_form` is the target as a parsed network socket address, written
/// back out, where the target parses as one; such a target becomes an
/// `http://` URL. Any other target is kept as it is.
pub open spec fn connect_string(literal: Seq<char>, socket_form: Option<Seq<char>>) -> Seq<char> {
    match socket_form {
        Some(s) => "http://"@ + s,
        None => literal,
    }
}

/// Rewrites a raw `host:port` target into URL form; leaves any other target alone.
pub fn normalize_target(literal: &str, socket_form: Option<&str>) -> (r: String)
    ensures
        r@ == connect_string(literal@, match socket_form {
            Some(s) => Some(s@),
            None => None,
        }),
{
    match socket_form {
        Some(s) => {
            proof {
                reveal_strlit("http://");
            }
            String::from_str("http://").concat(s)
        },
        None => String::from_str(literal),
    }
}

/// How a client reaches a daemon.
#[derive(Debug, PartialEq, Eq)]
pub enum Transport {
    /// A local-domain socket at this filesystem path.
    LocalSocket(String),
    /// A network endpoint at this URL.
    Network(String),
}

impl Transport {
    pub open spec fn view_parts(self) -> (bool, Seq<char>) {
        match self {
            Transport::LocalSocket(p) => (false, p@),
            Transport::Network(u) => (true, u@),
        }
    }
}

/// A connection string is dialled as a URL where it parses as one, and as a
/// local socket path otherwise.
pub open spec fn transport_spec(target: Seq<char>, parses: bool) -> (bool, Seq<char>) {
    (parses, target)
}

/// Picks the transport for a connection string, given whether it parses as a URL.
pub fn transport_for(target: &str, parses_as_url: bool) -> (r: Transport)
    ensures
        r.view_parts() == transport_spec(target@, parses_as_url),
{
    if parses_as_url {
        Transport::Network(String::from_str(target))
    } else {
        Transport::LocalSocket(String::from_str(target))
    }
}

/// Picks the transport for a connection string.
pub fn resolve_transport(target: &str) -> (r: Transport)
    ensures
        r.view_parts() == transport_spec(target@, is_url(target@)),
{
    let parses = url_parses(target);
    transport_for(target, parses)
}

/// Why a daemon could not take up its listening address.
#[derive(Debug, PartialEq, Eq)]
pub enum BindError {
    /// The address is neither a network socket address nor an absolute path.
    InvalidSocketPath(String),
    /// Something that is not a socket already stands at the path.
    NotASocket(String),
    /// A live daemon already listens at the path.
    AddressInUse(String),
}

impl BindError {
    /// The address or path that the error names.
    pub open spec fn target(self) -> Seq<char> {
        match self {
            BindError::InvalidSocketPath(p) => p@,
            BindError::NotASocket(p) => p@,
            BindError::AddressInUse(p) => p@,
        }
    }
}

/// Where a daemon listens.
#[derive(Debug, PartialEq, Eq)]
pub enum ListenTarget {
    /// A network socket at this address (port 0 asks the system for one).
    Network(String),
    /// A local-domain socket at this absolute path.
    LocalSocket(String),
}

impl ListenTarget {
    pub open spec fn view_parts(self) -> (bool, Seq<char>) {
        match self {
            ListenTarget::Network(a) => (true, a@),
            ListenTarget::LocalSocket(p) => (false, p@),
        }
    }
}

/// Classifies a listening address, given whether it parses as a network
/// socket address. Anything else must be an absolute path.
pub fn plan_bind(address: &str, is_socket_addr: bool) -> (r: Result<ListenTarget, BindError>)
    ensures
        is_socket_addr ==> (r matches Ok(t) && t.view_parts() == (true, address@)),
        !is_socket_addr && is_absolute_path(address@) ==> (r matches Ok(t) && t.view_parts()
            == (false, address@)),
        !is_socket_addr && !is_absolute_path(address@) ==> (r matches Err(
            BindError::InvalidSocketPath(p),
        ) && p@ == address@),
{
    if is_socket_addr {
        Ok(ListenTarget::Network(String::from_str(address)))
    } else if starts_with_slash(address) {
        Ok(ListenTarget::LocalSocket(String::from_str(address)))
    } else {
        Err(BindError::InvalidSocketPath(String::from_str(address)))
    }
}

/// What stands at a socket path before a daemon binds it.
#[derive(Debug, Clone, Copy, PartialEq, Eq)]
pub enum PathState {
    /// Nothing.
    Absent,
    /// A socket file that no process accepts on: left by a daemon that died.
    StaleSocket,
    /// A socket on which a daemon accepts connections.
    LiveSocket,
    /// A file of another kind.
    NotSocket,
}

/// The step to take before binding a local socket path.
#[derive(Debug, Clone, Copy, PartialEq, Eq)]
pub enum PathStep {
    /// Bind the path as it is.
    Bind,
    /// Remove the stale socket file, then bind.
    RemoveThenBind,
}

/// Decides how to take up a socket path, from what stands there.
///
/// A stale socket is cleared; a live one is left to its daemon and reported
/// as in use; any other file is never overwritten.
pub fn prepare_socket_path(path: &str, state: PathState) -> (r: Result<PathStep, BindError>)
    ensures
        state == PathState::Absent <==> r == Ok::<PathStep, BindError>(PathStep::Bind),
        state == PathState::StaleSocket <==> r == Ok::<PathStep, BindError>(
            PathStep::RemoveThenBind,
        ),
        state == PathState::LiveSocket <==> (r matches Err(BindError::AddressInUse(p))
            && p@ == path@),
        state == PathState::NotSocket <==> (r matches Err(BindError::NotASocket(p)) && p@
            == path@),
{
    match state {
        PathState::Absent => Ok(PathStep::Bind),
        PathState::StaleSocket => Ok(PathStep::RemoveThenBind),
        PathState::LiveSocket => Err(BindError::AddressInUse(String::from_str(path))),
        PathState::NotSocket => Err(BindError::NotASocket(String::from_str(path))),
    }
}

} // verus!

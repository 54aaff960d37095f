use vstd::prelude::*;
use vstd::string::*;

verus! {

/// The identifier that a server or client reports: its name, a dash, its version.
pub open spec fn identity_of(name: Seq<char>, version: Seq<char>) -> Seq<char> {
    name + "-"@ + version
}

/// The reply of the version call: the caller's identifier beside the server's own.
pub open spec fn version_text(client: Seq<char>, server: Seq<char>) -> Seq<char> {
    "client: "@ + client + ", server: "@ + server
}

/// Joins a program name and its version into the identifier that it reports.
pub fn server_identity(name: &str, version: &str) -> (r: String)
    ensures
        r@ == identity_of(name@, version@),
{
    proof {
        reveal_strlit("-");
    }
    let r = String::from_str(name);
    let r = r.concat("-");
    r.concat(version)
}

/// Answers a version call: `client: <client>, server: <server>`.
///
/// The call reads no shared state and has no side effect.
pub fn version_reply(client: &str, server: &str) -> (r: String)
    ensures
        r@ == version_text(client@, server@),
{
    proof {
        reveal_strlit("client: ");
        reveal_strlit(", server: ");
    }
    let r = String::from_str("client: ");
    let r = r.concat(client);
    let r = r.concat(", server: ");
    r.concat(server)
}

} // verus!

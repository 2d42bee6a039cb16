//! Where the compositor's event socket lives.
use vstd::prelude::*;
use vstd::string::StringExecFns;

verus! {

/// The path of the event socket of instance `signature` below the directory `dir`:
/// `<dir>/hypr/<signature>/.socket2.sock`.
pub open spec fn socket_path_spec(dir: Seq<char>, signature: Seq<char>) -> Seq<char> {
    dir + "/hypr/"@ + signature + "/.socket2.sock"@
}

/// The directory that older compositors place their sockets under.
pub open spec fn fallback_dir() -> Seq<char> {
    "/tmp"@
}

/// The socket chosen at startup: the one under the runtime directory when that
/// directory is known and the socket file exists there, else the one under `/tmp`.
pub open spec fn resolved_socket_path(
    signature: Seq<char>,
    runtime_dir: Option<Seq<char>>,
    runtime_socket_exists: bool,
) -> Seq<char> {
    match runtime_dir {
        Some(dir) if runtime_socket_exists => socket_path_spec(dir, signature),
        _ => socket_path_spec(fallback_dir(), signature),
    }
}

/// Builds `<dir>/hypr/<signature>/.socket2.sock`.
pub fn socket_path_under(dir: &str, signature: &str) -> (r: String)
    ensures
        r@ == socket_path_spec(dir@, signature@),
{
    let mut r = String::from_str(dir);
    r.append("/hypr/");
    r.append(signature);
    r.append("/.socket2.sock");
    r
}

/// Picks the event socket of instance `signature`. `runtime_socket_exists` tells
/// whether a file stands at `socket_path_under(dir, signature)` for the runtime
/// directory `dir`; it is not looked at when no runtime directory is known.
pub fn resolve_socket_path(
    signature: &str,
    runtime_dir: Option<&str>,
    runtime_socket_exists: bool,
) -> (r: String)
    ensures
        r@ == resolved_socket_path(
            signature@,
            match runtime_dir {
                Some(d) => Some(d@),
                None => None,
            },
            runtime_socket_exists,
        ),
{
    match runtime_dir {
        Some(dir) if runtime_socket_exists => socket_path_under(dir, signature),
        _ => socket_path_under("/tmp", signature),
    }
}

} // verus!

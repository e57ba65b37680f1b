//! The rendezvous name shared by the listener and the client.
use vstd::prelude::*;
use vstd::string::*;

verus! {

/// The endpoint's symbolic name, in the local namespace.
pub const ENDPOINT_NAME: &'static str = "interprocess-drop-panic";

/// The prefix under which a named pipe lives on systems without a socket
/// namespace.
pub const PIPE_PREFIX: &'static str = "\\\\.\\pipe\\";

/// The path-style name of the pipe that stands for the endpoint `name`.
pub open spec fn pipe_path_of(name: Seq<char>) -> Seq<char> {
    PIPE_PREFIX@ + name
}

/// The path-style name under which a client reaches the endpoint `name`.
pub fn pipe_path(name: &str) -> (r: String)
    ensures
        r@ == pipe_path_of(name@),
{
    let mut r = String::from_str(PIPE_PREFIX);
    r.append(name);
    r
}

} // verus!

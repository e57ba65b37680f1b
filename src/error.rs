//! What the transport can report, and the scenario's own error classes.
use vstd::prelude::*;

verus! {

/// The kind of an I/O failure, as far as the scenario tells kinds apart.
#[derive(Clone, Copy, Debug, PartialEq, Eq, Structural)]
pub enum IoFailure {
    /// The endpoint name is already bound by a live listener.
    AddrInUse,
    /// Nobody listens on the endpoint.
    ConnectionRefused,
    /// The endpoint does not exist.
    NotFound,
    /// The remote end is gone.
    BrokenPipe,
    /// Any other kind.
    Other,
}

/// A fatal error of one of the scenario's actors.
#[derive(Clone, Copy, Debug, PartialEq, Eq, Structural)]
pub enum ScenarioError {
    /// The endpoint name is held by another live listener.
    BindConflict,
    /// Binding failed for another reason.
    BindFailed,
    /// Waiting for the client failed.
    AcceptFailed,
    /// The client found no listener on the endpoint.
    ConnectRefused,
    /// The client failed to connect for another reason.
    ConnectFailed,
    /// The transport rejected the sender's write.
    WriteFailed,
}

/// The error that a failed bind reports.
pub open spec fn bind_error_of(f: IoFailure) -> ScenarioError {
    if f == IoFailure::AddrInUse {
        ScenarioError::BindConflict
    } else {
        ScenarioError::BindFailed
    }
}

/// The error that a failed connect reports.
pub open spec fn connect_error_of(f: IoFailure) -> ScenarioError {
    if f == IoFailure::ConnectionRefused || f == IoFailure::NotFound {
        ScenarioError::ConnectRefused
    } else {
        ScenarioError::ConnectFailed
    }
}

/// Classifies a failed bind: a name in use is a conflict, told apart from
/// every other failure.
pub fn classify_bind_failure(f: IoFailure) -> (e: ScenarioError)
    ensures
        e == bind_error_of(f),
{
    match f {
        IoFailure::AddrInUse => ScenarioError::BindConflict,
        _ => ScenarioError::BindFailed,
    }
}

/// Classifies a failed connect: a missing listener, whether the endpoint is
/// absent or refuses, is told apart from every other failure.
pub fn classify_connect_failure(f: IoFailure) -> (e: ScenarioError)
    ensures
        e == connect_error_of(f),
{
    match f {
        IoFailure::ConnectionRefused | IoFailure::NotFound => ScenarioError::ConnectRefused,
        _ => ScenarioError::ConnectFailed,
    }
}

} // verus!

//! The error taxonomy of the membership lifecycle.

use vstd::prelude::*;

verus! {

/// Everything that can go wrong while joining or running a darknet
/// session.
///
/// - `MalformedInvite`: the invite code is not three non-empty
///   colon-separated fields.
/// - `NetworkError`: a coordination request failed before any HTTP
///   status was received.
/// - `ServerError(status)`: the coordination server answered with a
///   non-2xx HTTP status.
/// - `DeserializationError`: a 2xx body could not be decoded into the
///   expected response type.
/// - `InterfaceCommandError(code)`: an interface-controller command
///   exited with the given non-zero code.
/// - `MissingConfig`: `start` was asked to reactivate a darknet that
///   has no persisted configuration file.
#[derive(Debug, Clone, Copy, PartialEq, Eq, Structural)]
pub enum DarkError {
    MalformedInvite,
    NetworkError,
    ServerError(u16),
    DeserializationError,
    InterfaceCommandError(i32),
    MissingConfig,
}

} // verus!

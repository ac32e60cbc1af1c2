//! Errors of serving and of sessions.
use vstd::prelude::*;

use crate::setup::Role;

verus! {

/// Why serving a track, subscription or announcement ended.
#[derive(Debug, Clone, Copy, PartialEq, Eq, Structural)]
pub enum ServeError {
    /// Finished normally.
    Done,
    /// Cancelled by the peer.
    Cancel,
    /// Nothing is served under the requested name.
    NotFound,
    /// The same thing was received twice.
    Duplicate,
}

/// Why a session failed.
#[derive(Debug, Clone)]
pub enum SessionError {
    /// The roles of the two peers cannot work together: (peer's, ours).
    RoleIncompatible(Role, Role),
    /// No common protocol version: (offered by the peer, supported here).
    Version(Vec<u64>, Vec<u64>),
    /// A message arrived for a role this session does not have.
    RoleViolation,
    /// The session was closed.
    Closed,
    /// Serving failed.
    Serve(ServeError),
}

} // verus!

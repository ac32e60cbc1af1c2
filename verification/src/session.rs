//! Decisions of a running session: where received messages and datagrams
//! go, and when failing streams end the session.
use vstd::prelude::*;

use crate::error::{ServeError, SessionError};

verus! {

/// Consecutive failures on incoming streams after which the session ends.
pub const MAX_CONSECUTIVE_STREAM_ERRORS: usize = 50;

/// Which side of a session sends a control message.
#[derive(Debug, Clone, Copy, PartialEq, Eq, Structural)]
pub enum MessageKind {
    /// Sent by a publisher (such as ANNOUNCE or SUBSCRIBE_OK).
    FromPublisher,
    /// Sent by a subscriber (such as SUBSCRIBE or ANNOUNCE_OK).
    FromSubscriber,
    /// Neither.
    Other,
}

/// Which half of our session handles a message.
#[derive(Debug, Clone, Copy, PartialEq, Eq, Structural)]
pub enum MessageTarget {
    Subscriber,
    Publisher,
}

/// Where a received control message goes: a publisher's message to our
/// subscriber, a subscriber's message to our publisher; a message for a
/// half this session does not have is a role violation.
pub fn route_message(kind: MessageKind, has_publisher: bool, has_subscriber: bool) -> (r: Result<
    MessageTarget,
    SessionError,
>)
    requires
        kind != MessageKind::Other,
    ensures
        kind == MessageKind::FromPublisher ==> if has_subscriber {
            (r matches Ok(t) && t == MessageTarget::Subscriber)
        } else {
            r matches Err(SessionError::RoleViolation)
        },
        kind == MessageKind::FromSubscriber ==> if has_publisher {
            (r matches Ok(t) && t == MessageTarget::Publisher)
        } else {
            r matches Err(SessionError::RoleViolation)
        },
{
    match kind {
        MessageKind::FromPublisher => if has_subscriber {
            Ok(MessageTarget::Subscriber)
        } else {
            Err(SessionError::RoleViolation)
        },
        _ => if has_publisher {
            Ok(MessageTarget::Publisher)
        } else {
            Err(SessionError::RoleViolation)
        },
    }
}

/// What to do with the outcome of waiting for a datagram: `Ok(true)` to
/// hand it to the subscriber, `Ok(false)` to stop receiving datagrams (the
/// transport refused or closed), a role violation when this session does
/// not subscribe.
pub fn route_datagram(received: bool, has_subscriber: bool) -> (r: Result<bool, SessionError>)
    ensures
        !received ==> r matches Ok(false),
        received && has_subscriber ==> r matches Ok(true),
        received && !has_subscriber ==> r matches Err(SessionError::RoleViolation),
{
    if !received {
        Ok(false)
    } else if has_subscriber {
        Ok(true)
    } else {
        Err(SessionError::RoleViolation)
    }
}

/// What to do with an incoming unidirectional stream: streams carry
/// objects for our subscriber, so a session without one treats any stream
/// as a role violation.
pub fn route_stream(has_subscriber: bool) -> (r: Result<(), SessionError>)
    ensures
        has_subscriber ==> r is Ok,
        !has_subscriber ==> r matches Err(SessionError::RoleViolation),
{
    if has_subscriber {
        Ok(())
    } else {
        Err(SessionError::RoleViolation)
    }
}

/// The run of consecutive failures on incoming streams.
pub struct StreamErrors {
    pub consecutive: usize,
}

impl StreamErrors {
    /// No failures yet.
    pub fn new() -> (r: Self)
        ensures
            r.consecutive == 0,
    {
        StreamErrors { consecutive: 0 }
    }

    /// A stream was served: the run is broken.
    pub fn record_success(&mut self)
        ensures
            final(self).consecutive == 0,
    {
        self.consecutive = 0;
    }

    /// A stream failed: the run grows, and ends the session when it reaches
    /// [`MAX_CONSECUTIVE_STREAM_ERRORS`].
    pub fn record_failure(&mut self) -> (r: Result<(), SessionError>)
        requires
            old(self).consecutive < MAX_CONSECUTIVE_STREAM_ERRORS,
        ensures
            final(self).consecutive == old(self).consecutive + 1,
            final(self).consecutive >= MAX_CONSECUTIVE_STREAM_ERRORS ==> (r matches Err(
                SessionError::Serve(e),
            ) && e == ServeError::Done),
            final(self).consecutive < MAX_CONSECUTIVE_STREAM_ERRORS ==> r is Ok,
    {
        self.consecutive += 1;
        if self.consecutive >= MAX_CONSECUTIVE_STREAM_ERRORS {
            return Err(SessionError::Serve(ServeError::Done));
        }
        Ok(())
    }
}

} // verus!

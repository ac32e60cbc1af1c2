//! A subscription received from a peer, as the publishing side serves it.
use vstd::prelude::*;

use crate::error::{ServeError, SessionError};
use crate::message::{ControlMessage, GroupOrder, Subscribe};
use crate::serve::TrackHeader;
use crate::watch::State;

verus! {

/// Depth of nested subscription drops beyond which no final message is sent.
pub const MAX_SUBSCRIBED_DROP_DEPTH: usize = 10;

/// The state shared by a subscription and its receiving half.
pub struct SubscribedState {
    /// The newest (group, object) sent, once serving has started.
    pub max_group_id: Option<(u64, u64)>,
    /// `Err` once the subscription has been closed.
    pub closed: Result<(), ServeError>,
}

impl SubscribedState {
    /// Nothing sent, not closed.
    pub fn new() -> (r: Self)
        ensures
            r.max_group_id is None,
            r.closed == Ok::<(), ServeError>(()),
    {
        SubscribedState { max_group_id: None, closed: Ok(()) }
    }

    /// The newest position after sending `(group_id, object_id)`: it moves
    /// only when a position is already known and neither coordinate goes
    /// back.
    pub open spec fn next_max(self, group_id: u64, object_id: u64) -> Option<(u64, u64)> {
        match self.max_group_id {
            Some((max_group, max_object)) => if group_id >= max_group && object_id >= max_object {
                Some((group_id, object_id))
            } else {
                Some((max_group, max_object))
            },
            None => None,
        }
    }

    /// Record that `(group_id, object_id)` has been sent.
    pub fn update_max_group_id(&mut self, group_id: u64, object_id: u64) -> (r: Result<(), ServeError>)
        ensures
            final(self).max_group_id == old(self).next_max(group_id, object_id),
            final(self).closed == old(self).closed,
            r is Ok,
    {
        if let Some((max_group, max_object)) = self.max_group_id {
            if group_id >= max_group && object_id >= max_object {
                self.max_group_id = Some((group_id, object_id));
            }
        }
        Ok(())
    }
}

impl Default for SubscribedState {
    fn default() -> (r: Self)
        ensures
            r.max_group_id is None,
            r.closed == Ok::<(), ServeError>(()),
    {
        SubscribedState::new()
    }
}

/// Once a position is known, sending an object at or after it in both
/// coordinates (such as the next object of the same group, or a later
/// group) makes that object the newest position; an object behind it in
/// either coordinate leaves the position as it was.
pub proof fn lemma_max_group_id_advances(s: SubscribedState, group_id: u64, object_id: u64)
    ensures
        s.max_group_id matches Some((g, o)) ==> (group_id >= g && object_id >= o ==> s.next_max(
            group_id,
            object_id,
        ) == Some((group_id, object_id))),
        s.max_group_id matches Some((g, o)) ==> (!(group_id >= g && object_id >= o) ==> s.next_max(
            group_id,
            object_id,
        ) == Some((g, o))),
        s.max_group_id == Some((group_id, object_id)) ==> s.next_max(group_id, object_id) == Some(
            (group_id, object_id),
        ),
{
}

/// The newest position never goes back in either coordinate, and stays
/// unknown while serving has not started.
pub proof fn lemma_max_group_id_monotone(s: SubscribedState, group_id: u64, object_id: u64)
    ensures
        s.max_group_id is None ==> s.next_max(group_id, object_id) is None,
        s.max_group_id matches Some((g, o)) ==> (s.next_max(group_id, object_id) matches Some(
            (g2, o2),
        ) && g2 >= g && o2 >= o),
{
}

/// What a subscription asks for.
pub struct SubscribeInfo {
    pub namespace: Vec<String>,
    pub name: String,
}

/// A subscription received from a peer, to be served.
pub struct Subscribed {
    pub info: SubscribeInfo,
    /// The request id of the subscription.
    pub id: u64,
    /// The track alias of the subscription.
    pub track_alias: u64,
    /// Whether the subscription has been accepted with SUBSCRIBE_OK.
    pub ok: bool,
}

/// The receiving half of a subscription, through which the session reports
/// an UNSUBSCRIBE.
pub struct SubscribedRecv {
    pub id: u64,
}

/// The message sent when a subscription ends: SUBSCRIBE_DONE once it was
/// accepted, SUBSCRIBE_ERROR otherwise, carrying the closing error (or
/// `Done` when it was not closed with one).
pub open spec fn final_message(id: u64, ok: bool, state: SubscribedState) -> ControlMessage {
    let error = match state.closed {
        Err(e) => e,
        Ok(_) => ServeError::Done,
    };
    if ok {
        ControlMessage::SubscribeDone { id, last: state.max_group_id, error }
    } else {
        ControlMessage::SubscribeError { id, alias: 0, error }
    }
}

/// The state after closing a subscription with `err`, and what closing
/// returns: an earlier closing error is returned unchanged, a subscription
/// whose other half is gone reports `Done`, otherwise the error is stored.
pub open spec fn after_close(state: State<SubscribedState>, err: ServeError) -> (
    State<SubscribedState>,
    Result<(), ServeError>,
) {
    match state.value.closed {
        Err(e) => (state, Err(e)),
        Ok(_) => if state.dropped {
            (state, Err(ServeError::Done))
        } else {
            (
                State {
                    value: SubscribedState { closed: Err(err), ..state.value },
                    dropped: state.dropped,
                },
                Ok(()),
            )
        },
    }
}

/// What waiting for the end of a subscription reports now: `None` to keep
/// waiting, the closing error once closed, success once the other half is
/// gone.
pub open spec fn closed_outcome(state: State<SubscribedState>) -> Option<Result<(), ServeError>> {
    match state.value.closed {
        Err(e) => Some(Err(e)),
        Ok(_) => if state.dropped {
            Some(Ok(()))
        } else {
            None
        },
    }
}

impl Subscribed {
    /// A subscription for `msg`, its receiving half and their shared state.
    pub fn new(msg: Subscribe) -> (r: (Subscribed, SubscribedRecv, State<SubscribedState>))
        ensures
            r.0.info.namespace == msg.track_namespace,
            r.0.info.name == msg.track_name,
            r.0.id == msg.id,
            r.0.track_alias == msg.track_alias,
            !r.0.ok,
            r.1.id == msg.id,
            r.2.value.max_group_id is None,
            r.2.value.closed is Ok,
            !r.2.dropped,
    {
        let Subscribe { id, track_alias, track_namespace, track_name } = msg;
        let info = SubscribeInfo { namespace: track_namespace, name: track_name };
        let send = Subscribed { info, id, track_alias, ok: false };
        let recv = SubscribedRecv { id };
        (send, recv, State::new(SubscribedState::new()))
    }

    /// Start serving a track whose newest (group, object) is `latest`: the
    /// position is recorded and the SUBSCRIBE_OK to send is returned. When
    /// the other half is gone the subscription is cancelled instead.
    pub fn start(&mut self, state: &mut State<SubscribedState>, latest: Option<(u64, u64)>) -> (r:
        Result<ControlMessage, ServeError>)
        ensures
            old(state).dropped ==> (r matches Err(e) && e == ServeError::Cancel) && *final(state)
                == *old(state) && *final(self) == *old(self),
            !old(state).dropped ==> {
                &&& r matches Ok(m) && m == ControlMessage::SubscribeOk {
                    id: old(self).id,
                    expires: None,
                    group_order: GroupOrder::Descending,
                    latest,
                }
                &&& final(state).value.max_group_id == latest
                &&& final(state).value.closed == old(state).value.closed
                &&& final(state).dropped == old(state).dropped
                &&& final(self).ok
            },
            final(self).id == old(self).id,
            final(self).track_alias == old(self).track_alias,
            final(self).info == old(self).info,
    {
        if state.dropped {
            return Err(ServeError::Cancel);
        }
        state.value.max_group_id = latest;
        self.ok = true;
        Ok(ControlMessage::SubscribeOk {
            id: self.id,
            expires: None,
            group_order: GroupOrder::Descending,
            latest,
        })
    }

    /// Record that `(group_id, object_id)` has been sent. Once the other
    /// half is gone, serving is done.
    pub fn record_object(&self, state: &mut State<SubscribedState>, group_id: u64, object_id: u64) -> (r:
        Result<(), ServeError>)
        ensures
            old(state).dropped ==> (r matches Err(e) && e == ServeError::Done) && *final(state)
                == *old(state),
            !old(state).dropped ==> r is Ok && final(state).value.max_group_id == old(
                state,
            ).value.next_max(group_id, object_id) && final(state).value.closed == old(
                state,
            ).value.closed && final(state).dropped == old(state).dropped,
    {
        if state.dropped {
            return Err(ServeError::Done);
        }
        state.value.update_max_group_id(group_id, object_id)
    }

    /// Close the subscription with `err`.
    pub fn close(&self, state: &mut State<SubscribedState>, err: ServeError) -> (r: Result<(), ServeError>)
        ensures
            (*final(state), r) == after_close(*old(state), err),
    {
        if let Err(e) = state.value.closed {
            return Err(e);
        }
        if state.dropped {
            return Err(ServeError::Done);
        }
        state.value.closed = Err(err);
        Ok(())
    }

    /// One step of waiting for the subscription to end: `None` to keep
    /// waiting for a change.
    pub fn closed(&self, state: &State<SubscribedState>) -> (r: Option<Result<(), ServeError>>)
        ensures
            r == closed_outcome(*state),
    {
        if let Err(e) = state.value.closed {
            return Some(Err(e));
        }
        if state.dropped {
            Some(Ok(()))
        } else {
            None
        }
    }

    /// The message to send when the subscription is dropped while `depth`
    /// subscription drops are already in progress; none beyond
    /// [`MAX_SUBSCRIBED_DROP_DEPTH`].
    pub fn drop_message(&self, state: &State<SubscribedState>, depth: usize) -> (r: Option<
        ControlMessage,
    >)
        ensures
            depth > MAX_SUBSCRIBED_DROP_DEPTH ==> r is None,
            depth <= MAX_SUBSCRIBED_DROP_DEPTH ==> r == Some(
                final_message(self.id, self.ok, state.value),
            ),
    {
        if depth > MAX_SUBSCRIBED_DROP_DEPTH {
            return None;
        }
        let error = match state.value.closed {
            Err(e) => e,
            Ok(_) => ServeError::Done,
        };
        if self.ok {
            Some(ControlMessage::SubscribeDone { id: self.id, last: state.value.max_group_id, error })
        } else {
            Some(ControlMessage::SubscribeError { id: self.id, alias: 0, error })
        }
    }
}

/// What serving a subscription returns once the track is served with
/// outcome `res`: success as it is; on a failure the subscription is closed
/// with `close_with` (the failure as a serving error), and the failure is
/// returned, or the closing error when closing fails.
pub open spec fn serve_result(
    state: State<SubscribedState>,
    res: Result<(), SessionError>,
    close_with: ServeError,
) -> (State<SubscribedState>, Result<(), SessionError>) {
    match res {
        Ok(()) => (state, Ok(())),
        Err(e) => match after_close(state, close_with) {
            (s, Ok(())) => (s, Err(e)),
            (s, Err(c)) => (s, Err(SessionError::Serve(c))),
        },
    }
}

impl Subscribed {
    /// The header that opens the stream carrying the whole track: this
    /// subscription's id and track alias, and the track's priority.
    pub fn track_header(&self, publisher_priority: u8) -> (r: TrackHeader)
        ensures
            r == (TrackHeader { subscribe_id: self.id, track_alias: self.track_alias, publisher_priority }),
    {
        TrackHeader { subscribe_id: self.id, track_alias: self.track_alias, publisher_priority }
    }

    /// The end of serving a subscription whose track was served with
    /// outcome `res`; see [`serve_result`].
    pub fn serve_outcome(
        &self,
        state: &mut State<SubscribedState>,
        res: Result<(), SessionError>,
        close_with: ServeError,
    ) -> (r: Result<(), SessionError>)
        ensures
            (*final(state), r) == serve_result(*old(state), res, close_with),
    {
        match res {
            Ok(()) => Ok(()),
            Err(e) => match self.close(state, close_with) {
                Ok(()) => Err(e),
                Err(c) => Err(SessionError::Serve(c)),
            },
        }
    }
}

/// Serving that succeeds leaves the subscription as it was; serving that
/// fails on an open subscription closes it with the failure and returns the
/// failure itself.
pub proof fn lemma_failed_serving_closes(
    state: State<SubscribedState>,
    e: SessionError,
    close_with: ServeError,
)
    ensures
        serve_result(state, Ok(()), close_with) == (state, Ok::<(), SessionError>(())),
        state.value.closed is Ok && !state.dropped ==> {
            let (after, r) = serve_result(state, Err(e), close_with);
            &&& r == Err::<(), SessionError>(e)
            &&& after.value.closed == Err::<(), ServeError>(close_with)
            &&& closed_outcome(after) == Some(Err::<(), ServeError>(close_with))
        },
        state.value.closed matches Err(first) ==> serve_result(state, Err(e), close_with) == (
            state,
            Err::<(), SessionError>(SessionError::Serve(first)),
        ),
{
}

impl SubscribedRecv {
    /// The peer unsubscribed: the subscription is cancelled unless it was
    /// already closed, in which case the earlier error is returned.
    pub fn recv_unsubscribe(&mut self, state: &mut State<SubscribedState>) -> (r: Result<(), ServeError>)
        ensures
            old(state).value.closed is Err ==> r == old(state).value.closed && *final(state) == *old(
                state),
            old(state).value.closed is Ok ==> r is Ok && *final(state) == (if old(state).dropped {
                *old(state)
            } else {
                State {
                    value: SubscribedState {
                        closed: Err(ServeError::Cancel),
                        ..old(state).value
                    },
                    dropped: false,
                }
            }),
    {
        if let Err(e) = state.value.closed {
            return Err(e);
        }
        if !state.dropped {
            state.value.closed = Err(ServeError::Cancel);
        }
        Ok(())
    }
}

/// A subscription that was closed reports its closing error while waiting,
/// and a second close gets the first error back and changes nothing.
pub proof fn lemma_close_is_final(state: State<SubscribedState>, first: ServeError, second: ServeError)
    requires
        state.value.closed is Ok,
        !state.dropped,
    ensures
        after_close(state, first).1 is Ok,
        closed_outcome(after_close(state, first).0) == Some(Err::<(), ServeError>(first)),
        after_close(after_close(state, first).0, second) == (
            after_close(state, first).0,
            Err::<(), ServeError>(first),
        ),
{
}

/// Closing a subscription whose other half is gone reports `Done` and
/// changes nothing; closing one already closed reports the first error and
/// changes nothing.
pub proof fn lemma_close_after_drop(state: State<SubscribedState>, err: ServeError)
    ensures
        state.value.closed is Ok && state.dropped ==> after_close(state, err) == (
            state,
            Err::<(), ServeError>(ServeError::Done),
        ),
        state.value.closed matches Err(first) ==> after_close(state, err) == (
            state,
            Err::<(), ServeError>(first),
        ),
{
}

/// Once an accepted subscription is closed with an error, the message sent
/// when it ends is SUBSCRIBE_DONE carrying that error and the newest
/// position sent; had it not been accepted, it is SUBSCRIBE_ERROR.
pub proof fn lemma_final_message_reports_close(
    id: u64,
    state: State<SubscribedState>,
    err: ServeError,
)
    requires
        state.value.closed is Ok,
        !state.dropped,
    ensures
        final_message(id, true, after_close(state, err).0.value) == (ControlMessage::SubscribeDone {
            id,
            last: state.value.max_group_id,
            error: err,
        }),
        final_message(id, false, after_close(state, err).0.value) == (ControlMessage::SubscribeError {
            id,
            alias: 0,
            error: err,
        }),
{
}

} // verus!

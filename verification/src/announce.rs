//! An announcement of a namespace to a peer, and the requests that arrive
//! for it.
use vstd::prelude::*;

use std::collections::VecDeque;

use crate::error::ServeError;
use crate::message::ControlMessage;
use crate::watch::State;

verus! {

/// What an announcement is about.
pub struct AnnounceInfo {
    pub namespace: Vec<String>,
}

/// The state shared by an announcement and its receiving half: the
/// subscriptions and track status requests waiting to be served, whether
/// the peer accepted the announcement, and whether it was closed.
pub struct AnnounceState<S, R> {
    pub subscribers: VecDeque<S>,
    pub track_statuses_requested: VecDeque<R>,
    pub ok: bool,
    pub closed: Result<(), ServeError>,
}

/// The contents of an announcement's state.
pub struct AnnounceView<S, R> {
    pub subscribers: Seq<S>,
    pub requests: Seq<R>,
    pub ok: bool,
    pub closed: Result<(), ServeError>,
    pub dropped: bool,
}

/// The contents of a shared announcement state.
pub open spec fn announce_view<S, R>(state: State<AnnounceState<S, R>>) -> AnnounceView<S, R> {
    AnnounceView {
        subscribers: state.value.subscribers@,
        requests: state.value.track_statuses_requested@,
        ok: state.value.ok,
        closed: state.value.closed,
        dropped: state.dropped,
    }
}

impl<S, R> AnnounceState<S, R> {
    /// Nothing queued, not accepted, not closed.
    pub fn new() -> (r: Self)
        ensures
            r.subscribers@ == Seq::<S>::empty(),
            r.track_statuses_requested@ == Seq::<R>::empty(),
            !r.ok,
            r.closed == Ok::<(), ServeError>(()),
    {
        AnnounceState {
            subscribers: VecDeque::new(),
            track_statuses_requested: VecDeque::new(),
            ok: false,
            closed: Ok(()),
        }
    }

    /// Take every subscription still waiting, so that each can be closed
    /// with `NotFound` when the announcement goes away.
    pub fn drain_subscribers(&mut self) -> (r: VecDeque<S>)
        ensures
            r@ == old(self).subscribers@,
            final(self).subscribers@ == Seq::<S>::empty(),
            final(self).track_statuses_requested@ == old(self).track_statuses_requested@,
            final(self).ok == old(self).ok,
            final(self).closed == old(self).closed,
    {
        let mut taken: VecDeque<S> = VecDeque::new();
        std::mem::swap(&mut taken, &mut self.subscribers);
        taken
    }
}

impl<S, R> Default for AnnounceState<S, R> {
    fn default() -> (r: Self)
        ensures
            r.subscribers@ == Seq::<S>::empty(),
            r.track_statuses_requested@ == Seq::<R>::empty(),
            !r.ok,
            r.closed == Ok::<(), ServeError>(()),
    {
        AnnounceState::new()
    }
}

// What the receiving half does to the state, and what it reports.

/// Receiving ANNOUNCE_OK: refused as a duplicate when already accepted;
/// ignored once the announcement is gone.
pub open spec fn after_recv_ok<S, R>(v: AnnounceView<S, R>) -> (AnnounceView<S, R>, Result<(), ServeError>) {
    if v.dropped {
        (v, Ok(()))
    } else if v.ok {
        (v, Err(ServeError::Duplicate))
    } else {
        (AnnounceView { ok: true, ..v }, Ok(()))
    }
}

/// Receiving an error: an earlier error is returned unchanged, an
/// announcement that is gone reports `Done`, otherwise the error is stored.
pub open spec fn after_recv_error<S, R>(v: AnnounceView<S, R>, err: ServeError) -> (
    AnnounceView<S, R>,
    Result<(), ServeError>,
) {
    match v.closed {
        Err(e) => (v, Err(e)),
        Ok(_) => if v.dropped {
            (v, Err(ServeError::Done))
        } else {
            (AnnounceView { closed: Err(err), ..v }, Ok(()))
        },
    }
}

/// Receiving a subscription: queued at the back, or refused with `Done` once
/// the announcement is gone.
pub open spec fn after_recv_subscribe<S, R>(v: AnnounceView<S, R>, subscriber: S) -> (
    AnnounceView<S, R>,
    Result<(), ServeError>,
) {
    if v.dropped {
        (v, Err(ServeError::Done))
    } else {
        (AnnounceView { subscribers: v.subscribers.push(subscriber), ..v }, Ok(()))
    }
}

/// Receiving a track status request: queued at the back, or refused with
/// `Done` once the announcement is gone.
pub open spec fn after_recv_request<S, R>(v: AnnounceView<S, R>, request: R) -> (
    AnnounceView<S, R>,
    Result<(), ServeError>,
) {
    if v.dropped {
        (v, Err(ServeError::Done))
    } else {
        (AnnounceView { requests: v.requests.push(request), ..v }, Ok(()))
    }
}

// What the announcing half sees when it waits; `None` means keep waiting.

/// Waiting for the next subscription: the oldest queued one, `None` once
/// the other half is gone, or the closing error.
pub open spec fn after_subscribed<S, R>(v: AnnounceView<S, R>) -> (
    AnnounceView<S, R>,
    Option<Result<Option<S>, ServeError>>,
) {
    if v.subscribers.len() > 0 {
        if v.dropped {
            (v, Some(Ok(None)))
        } else {
            (AnnounceView { subscribers: v.subscribers.drop_first(), ..v }, Some(Ok(Some(v.subscribers[0]))))
        }
    } else {
        match v.closed {
            Err(e) => (v, Some(Err(e))),
            Ok(_) => if v.dropped {
                (v, Some(Ok(None)))
            } else {
                (v, None)
            },
        }
    }
}

/// Waiting for the next track status request, as for subscriptions.
pub open spec fn after_requested<S, R>(v: AnnounceView<S, R>) -> (
    AnnounceView<S, R>,
    Option<Result<Option<R>, ServeError>>,
) {
    if v.requests.len() > 0 {
        if v.dropped {
            (v, Some(Ok(None)))
        } else {
            (AnnounceView { requests: v.requests.drop_first(), ..v }, Some(Ok(Some(v.requests[0]))))
        }
    } else {
        match v.closed {
            Err(e) => (v, Some(Err(e))),
            Ok(_) => if v.dropped {
                (v, Some(Ok(None)))
            } else {
                (v, None)
            },
        }
    }
}

/// Waiting for the announcement to end: the closing error, or success once
/// the other half is gone.
pub open spec fn closed_outcome<S, R>(v: AnnounceView<S, R>) -> Option<Result<(), ServeError>> {
    match v.closed {
        Err(e) => Some(Err(e)),
        Ok(_) => if v.dropped {
            Some(Ok(()))
        } else {
            None
        },
    }
}

/// Waiting for ANNOUNCE_OK: success once accepted or once the other half is
/// gone, the closing error if closed first.
pub open spec fn ok_outcome<S, R>(v: AnnounceView<S, R>) -> Option<Result<(), ServeError>> {
    if v.ok {
        Some(Ok(()))
    } else {
        closed_outcome(v)
    }
}

/// An announcement of a namespace.
pub struct Announce {
    pub info: AnnounceInfo,
}

/// The receiving half of an announcement, through which the session reports
/// what the peer sends about it.
pub struct AnnounceRecv {}

impl Announce {
    /// An announcement of `namespace`, its receiving half, their shared state,
    /// and the ANNOUNCE message to send.
    pub fn new<S, R>(namespace: Vec<String>) -> (r: (
        Announce,
        AnnounceRecv,
        State<AnnounceState<S, R>>,
        ControlMessage,
    ))
        ensures
            r.0.info.namespace@ == namespace@,
            announce_view(r.2) == (AnnounceView {
                subscribers: Seq::<S>::empty(),
                requests: Seq::<R>::empty(),
                ok: false,
                closed: Ok::<(), ServeError>(()),
                dropped: false,
            }),
            r.3 matches ControlMessage::Announce { namespace: sent } && sent@ == namespace@,
    {
        let info = AnnounceInfo { namespace: namespace.clone() };
        let msg = ControlMessage::Announce { namespace };
        let state: State<AnnounceState<S, R>> = State::new(AnnounceState::new());
        assert(announce_view(state) == (AnnounceView {
            subscribers: Seq::<S>::empty(),
            requests: Seq::<R>::empty(),
            ok: false,
            closed: Ok::<(), ServeError>(()),
            dropped: false,
        }));
        (Announce { info }, AnnounceRecv {}, state, msg)
    }

    /// One step of waiting for the announcement to end.
    pub fn closed<S, R>(&self, state: &State<AnnounceState<S, R>>) -> (r: Option<
        Result<(), ServeError>,
    >)
        ensures
            r == closed_outcome(announce_view(*state)),
    {
        if let Err(e) = state.value.closed {
            return Some(Err(e));
        }
        if state.dropped {
            Some(Ok(()))
        } else {
            None
        }
    }

    /// One step of waiting for the next subscription to this announcement.
    pub fn subscribed<S, R>(&self, state: &mut State<AnnounceState<S, R>>) -> (r: Option<
        Result<Option<S>, ServeError>,
    >)
        ensures
            (announce_view(*final(state)), r) == after_subscribed(announce_view(*old(state))),
    {
        if state.value.subscribers.len() > 0 {
            if state.dropped {
                return Some(Ok(None));
            }
            let next = state.value.subscribers.pop_front();
            return Some(Ok(next));
        }
        if let Err(e) = state.value.closed {
            return Some(Err(e));
        }
        if state.dropped {
            Some(Ok(None))
        } else {
            None
        }
    }

    /// One step of waiting for the next track status request.
    pub fn track_status_requested<S, R>(&self, state: &mut State<AnnounceState<S, R>>) -> (r:
        Option<Result<Option<R>, ServeError>>)
        ensures
            (announce_view(*final(state)), r) == after_requested(announce_view(*old(state))),
    {
        if state.value.track_statuses_requested.len() > 0 {
            if state.dropped {
                return Some(Ok(None));
            }
            let next = state.value.track_statuses_requested.pop_front();
            proof {
                assert(state.value.track_statuses_requested@ =~= announce_view(
                    *old(state),
                ).requests.drop_first());
            }
            return Some(Ok(next));
        }
        if let Err(e) = state.value.closed {
            return Some(Err(e));
        }
        if state.dropped {
            Some(Ok(None))
        } else {
            None
        }
    }

    /// One step of waiting for ANNOUNCE_OK.
    pub fn ok<S, R>(&self, state: &State<AnnounceState<S, R>>) -> (r: Option<Result<(), ServeError>>)
        ensures
            r == ok_outcome(announce_view(*state)),
    {
        if state.value.ok {
            return Some(Ok(()));
        }
        if let Err(e) = state.value.closed {
            return Some(Err(e));
        }
        if state.dropped {
            Some(Ok(()))
        } else {
            None
        }
    }

    /// The message to send when the announcement is dropped: UNANNOUNCE,
    /// unless the announcement was closed with an error.
    pub fn drop_message<S, R>(&self, state: &State<AnnounceState<S, R>>) -> (r: Option<
        ControlMessage,
    >)
        ensures
            state.value.closed is Err ==> r is None,
            state.value.closed is Ok ==> (r matches Some(ControlMessage::Unannounce { namespace })
                && namespace@ == self.info.namespace@),
    {
        if state.value.closed.is_err() {
            return None;
        }
        let namespace = self.info.namespace.clone();
        Some(ControlMessage::Unannounce { namespace })
    }
}

impl AnnounceRecv {
    /// The peer accepted the announcement.
    pub fn recv_ok<S, R>(&mut self, state: &mut State<AnnounceState<S, R>>) -> (r: Result<(), ServeError>)
        ensures
            (announce_view(*final(state)), r) == after_recv_ok(announce_view(*old(state))),
    {
        if !state.dropped {
            if state.value.ok {
                return Err(ServeError::Duplicate);
            }
            state.value.ok = true;
        }
        Ok(())
    }

    /// The peer refused or ended the announcement with `err`.
    pub fn recv_error<S, R>(self, state: &mut State<AnnounceState<S, R>>, err: ServeError) -> (r:
        Result<(), ServeError>)
        ensures
            (announce_view(*final(state)), r) == after_recv_error(announce_view(*old(state)), err),
    {
        if let Err(e) = state.value.closed {
            return Err(e);
        }
        if state.dropped {
            return Err(ServeError::Done);
        }
        state.value.closed = Err(err);
        Ok(())
    }

    /// The peer subscribed to a track in the announced namespace.
    pub fn recv_subscribe<S, R>(&mut self, state: &mut State<AnnounceState<S, R>>, subscriber: S) -> (r:
        Result<(), ServeError>)
        ensures
            (announce_view(*final(state)), r) == after_recv_subscribe(
                announce_view(*old(state)),
                subscriber,
            ),
    {
        if state.dropped {
            return Err(ServeError::Done);
        }
        state.value.subscribers.push_back(subscriber);
        Ok(())
    }

    /// The peer asked for the status of a track in the announced namespace.
    pub fn recv_track_status_requested<S, R>(
        &mut self,
        state: &mut State<AnnounceState<S, R>>,
        track_status_requested: R,
    ) -> (r: Result<(), ServeError>)
        ensures
            (announce_view(*final(state)), r) == after_recv_request(
                announce_view(*old(state)),
                track_status_requested,
            ),
    {
        if state.dropped {
            return Err(ServeError::Done);
        }
        state.value.track_statuses_requested.push_back(track_status_requested);
        Ok(())
    }
}

/// Subscriptions are handed out in the order they arrived: after `a` and
/// then `b` are received, waiting yields `a` and then `b`.
pub proof fn lemma_subscriptions_in_order<S, R>(v: AnnounceView<S, R>, a: S, b: S)
    requires
        !v.dropped,
        v.subscribers.len() == 0,
    ensures
        ({
            let v1 = after_recv_subscribe(after_recv_subscribe(v, a).0, b).0;
            let (v2, first) = after_subscribed(v1);
            let (v3, second) = after_subscribed(v2);
            &&& first == Some(Ok::<Option<S>, ServeError>(Some(a)))
            &&& second == Some(Ok::<Option<S>, ServeError>(Some(b)))
            &&& v3.subscribers.len() == 0
        }),
{
    let v1 = after_recv_subscribe(after_recv_subscribe(v, a).0, b).0;
}

/// ANNOUNCE_OK is accepted once: a second one is refused as a duplicate and
/// changes nothing, and after the first, waiting for it succeeds.
pub proof fn lemma_ok_once<S, R>(v: AnnounceView<S, R>)
    requires
        !v.dropped,
        !v.ok,
    ensures
        after_recv_ok(v).1 is Ok,
        ok_outcome(after_recv_ok(v).0) == Some(Ok::<(), ServeError>(())),
        after_recv_ok(after_recv_ok(v).0) == (after_recv_ok(v).0, Err::<(), ServeError>(
            ServeError::Duplicate,
        )),
{
}

/// An error received for an announcement is what waiting for its end
/// reports, and it is kept: a later error does not replace it.
pub proof fn lemma_error_is_reported<S, R>(v: AnnounceView<S, R>, err: ServeError, later: ServeError)
    requires
        !v.dropped,
        v.closed is Ok,
    ensures
        closed_outcome(after_recv_error(v, err).0) == Some(Err::<(), ServeError>(err)),
        after_recv_error(after_recv_error(v, err).0, later) == (
            after_recv_error(v, err).0,
            Err::<(), ServeError>(err),
        ),
{
}

} // verus!

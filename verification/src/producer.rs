//! Serving one subscription received from a subscriber: where the track is
//! looked for, in which order, and what ends the search.
use vstd::prelude::*;

verus! {

/// Where the search for a subscribed track stands.
#[derive(Debug, Clone, Copy, PartialEq, Eq, Structural)]
pub enum ProducerPhase {
    /// Looking among the local announcements.
    Local,
    /// Asking the API which remote relay serves the namespace.
    RouteRemote,
    /// Asking that remote relay for the track.
    SubscribeRemote,
    /// Serving the track that was found.
    Serving,
    /// Finished.
    Done,
}

/// What happened in the step that was asked for.
#[derive(Debug, Clone, Copy, PartialEq, Eq, Structural)]
pub enum ProducerEvent {
    /// The local announcements were searched; `found` says whether one of
    /// them has the track.
    LocalSearched { found: bool },
    /// The API (or the remote relay) answered with what was asked for.
    Found,
    /// The API (or the remote relay) knows nothing of it.
    NotFound,
    /// Asking the API (or the remote relay) failed.
    Failed,
    /// Serving the track ended.
    Served,
}

/// What to do next.
#[derive(Debug, Clone, Copy, PartialEq, Eq, Structural)]
pub enum ProducerAction {
    /// Ask the API which remote relay serves the namespace.
    RouteRemote,
    /// Ask that remote relay for the track.
    SubscribeRemote,
    /// Serve the local track.
    ServeLocal,
    /// Serve the track of the remote relay.
    ServeRemote,
    /// Subscribe to the track upstream in the background and serve it.
    ServeUpstream,
    /// Stop with the error just reported.
    Fail,
    /// Stop: the track is not found anywhere.
    NotFound,
    /// Stop with the result of serving.
    Finish,
}

/// Whether `event` answers the step that `phase` asked for.
pub open spec fn expects(phase: ProducerPhase, event: ProducerEvent) -> bool {
    match phase {
        ProducerPhase::Local => event is LocalSearched,
        ProducerPhase::RouteRemote | ProducerPhase::SubscribeRemote => event == ProducerEvent::Found
            || event == ProducerEvent::NotFound || event == ProducerEvent::Failed,
        ProducerPhase::Serving => event == ProducerEvent::Served,
        ProducerPhase::Done => false,
    }
}

/// What follows when neither the local announcements nor the remote relays
/// have the track: the upstream relay, when there is one, else not found.
pub open spec fn fallback(has_upstream: bool) -> (ProducerPhase, ProducerAction) {
    if has_upstream {
        (ProducerPhase::Serving, ProducerAction::ServeUpstream)
    } else {
        (ProducerPhase::Done, ProducerAction::NotFound)
    }
}

/// The phase and action that follow `event` in `phase`.
pub open spec fn producer_step(
    phase: ProducerPhase,
    event: ProducerEvent,
    has_remotes: bool,
    has_upstream: bool,
) -> (ProducerPhase, ProducerAction) {
    match (phase, event) {
        (ProducerPhase::Local, ProducerEvent::LocalSearched { found }) => if found {
            (ProducerPhase::Serving, ProducerAction::ServeLocal)
        } else if has_remotes {
            (ProducerPhase::RouteRemote, ProducerAction::RouteRemote)
        } else {
            fallback(has_upstream)
        },
        (ProducerPhase::RouteRemote, ProducerEvent::Found) => (
            ProducerPhase::SubscribeRemote,
            ProducerAction::SubscribeRemote,
        ),
        (ProducerPhase::SubscribeRemote, ProducerEvent::Found) => (
            ProducerPhase::Serving,
            ProducerAction::ServeRemote,
        ),
        (ProducerPhase::Serving, _) => (ProducerPhase::Done, ProducerAction::Finish),
        (_, ProducerEvent::Failed) => (ProducerPhase::Done, ProducerAction::Fail),
        _ => fallback(has_upstream),
    }
}

/// Serving one subscription.
pub struct ProducerServe {
    pub phase: ProducerPhase,
    /// Whether remote relays are known through the API.
    pub has_remotes: bool,
    /// Whether there is an upstream relay to ask for unknown tracks.
    pub has_upstream: bool,
}

impl ProducerServe {
    /// Serving a subscription, with or without remote relays and upstream.
    pub fn new(has_remotes: bool, has_upstream: bool) -> (r: Self)
        ensures
            r.phase == ProducerPhase::Local,
            r.has_remotes == has_remotes,
            r.has_upstream == has_upstream,
    {
        ProducerServe { phase: ProducerPhase::Local, has_remotes, has_upstream }
    }

    /// One step of serving: the state moves on by `event`, and the action
    /// to take next is returned.
    pub fn step(&mut self, event: ProducerEvent) -> (r: ProducerAction)
        requires
            expects(old(self).phase, event),
        ensures
            (final(self).phase, r) == producer_step(
                old(self).phase,
                event,
                old(self).has_remotes,
                old(self).has_upstream,
            ),
            final(self).has_remotes == old(self).has_remotes,
            final(self).has_upstream == old(self).has_upstream,
    {
        let (phase, action) = match self.phase {
            ProducerPhase::Local => {
                let found = match event {
                    ProducerEvent::LocalSearched { found } => found,
                    _ => false,
                };
                if found {
                    (ProducerPhase::Serving, ProducerAction::ServeLocal)
                } else if self.has_remotes {
                    (ProducerPhase::RouteRemote, ProducerAction::RouteRemote)
                } else {
                    self.fallback()
                }
            },
            ProducerPhase::RouteRemote | ProducerPhase::SubscribeRemote => match event {
                ProducerEvent::Found => if self.phase == ProducerPhase::RouteRemote {
                    (ProducerPhase::SubscribeRemote, ProducerAction::SubscribeRemote)
                } else {
                    (ProducerPhase::Serving, ProducerAction::ServeRemote)
                },
                ProducerEvent::Failed => (ProducerPhase::Done, ProducerAction::Fail),
                _ => self.fallback(),
            },
            _ => (ProducerPhase::Done, ProducerAction::Finish),
        };
        self.phase = phase;
        action
    }

    fn fallback(&self) -> (r: (ProducerPhase, ProducerAction))
        ensures
            r == fallback(self.has_upstream),
    {
        if self.has_upstream {
            (ProducerPhase::Serving, ProducerAction::ServeUpstream)
        } else {
            (ProducerPhase::Done, ProducerAction::NotFound)
        }
    }
}

/// A local track is always served first. A failing lookup of the remote
/// relay, or a failing request to it, ends serving with that failure and
/// the upstream relay is not asked. The upstream relay is asked only when
/// neither the local announcements nor the remote relays have the track,
/// and with no upstream relay the track is not found.
pub proof fn lemma_search_order(has_remotes: bool, has_upstream: bool)
    ensures
        producer_step(
            ProducerPhase::Local,
            (ProducerEvent::LocalSearched { found: true }),
            has_remotes,
            has_upstream,
        ) == (ProducerPhase::Serving, ProducerAction::ServeLocal),
        producer_step(ProducerPhase::RouteRemote, ProducerEvent::Failed, has_remotes, has_upstream)
            == (ProducerPhase::Done, ProducerAction::Fail),
        producer_step(ProducerPhase::SubscribeRemote, ProducerEvent::Failed, has_remotes, has_upstream)
            == (ProducerPhase::Done, ProducerAction::Fail),
        producer_step(ProducerPhase::RouteRemote, ProducerEvent::NotFound, has_remotes, has_upstream)
            == fallback(has_upstream),
        producer_step(ProducerPhase::SubscribeRemote, ProducerEvent::NotFound, has_remotes, has_upstream)
            == fallback(has_upstream),
        !has_remotes ==> producer_step(
            ProducerPhase::Local,
            (ProducerEvent::LocalSearched { found: false }),
            has_remotes,
            has_upstream,
        ) == fallback(has_upstream),
        forall|phase: ProducerPhase, event: ProducerEvent|
            expects(phase, event) && #[trigger] producer_step(phase, event, has_remotes, has_upstream).1
                == ProducerAction::ServeUpstream ==> has_upstream && event != ProducerEvent::Failed
                && !(event is LocalSearched && event->found),
{
}

/// A track that the remote relay hands out is served from the remote relay,
/// whether or not an upstream relay is configured; the upstream relay is
/// asked only after the search found the track neither locally nor on a
/// remote relay, and never after a failure.
pub proof fn lemma_remote_track_is_served_from_remote(has_remotes: bool, has_upstream: bool)
    ensures
        producer_step(ProducerPhase::SubscribeRemote, ProducerEvent::Found, has_remotes, has_upstream)
            == (ProducerPhase::Serving, ProducerAction::ServeRemote),
        producer_step(ProducerPhase::RouteRemote, ProducerEvent::Found, has_remotes, has_upstream)
            == (ProducerPhase::SubscribeRemote, ProducerAction::SubscribeRemote),
        has_remotes ==> producer_step(
            ProducerPhase::Local,
            (ProducerEvent::LocalSearched { found: false }),
            has_remotes,
            has_upstream,
        ) == (ProducerPhase::RouteRemote, ProducerAction::RouteRemote),
        forall|phase: ProducerPhase, event: ProducerEvent|
            expects(phase, event) && #[trigger] producer_step(phase, event, has_remotes, has_upstream).1
                == ProducerAction::ServeUpstream ==> has_upstream && (event == ProducerEvent::NotFound
                || (event == (ProducerEvent::LocalSearched { found: false }) && !has_remotes)),
        forall|phase: ProducerPhase, event: ProducerEvent|
            expects(phase, event) && #[trigger] producer_step(phase, event, has_remotes, has_upstream).1
                == ProducerAction::ServeRemote ==> phase == ProducerPhase::SubscribeRemote && event
                == ProducerEvent::Found,
{
}

/// When the search finds the track nowhere, an upstream relay is asked if
/// there is one, and otherwise the track is not found.
pub proof fn lemma_fallback_goes_upstream()
    ensures
        fallback(true) == (ProducerPhase::Serving, ProducerAction::ServeUpstream),
        fallback(false) == (ProducerPhase::Done, ProducerAction::NotFound),
        producer_step(ProducerPhase::Serving, ProducerEvent::Served, true, true) == (
            ProducerPhase::Done,
            ProducerAction::Finish,
        ),
{
}

} // verus!

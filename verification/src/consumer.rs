//! Serving one announce received from a publisher: the order in which the
//! origin is published, the namespace registered locally and ANNOUNCE_OK
//! sent, and what ends the serving.
use vstd::prelude::*;

verus! {

/// Where serving an announce stands.
#[derive(Debug, Clone, Copy, PartialEq, Eq, Structural)]
pub enum AnnouncePhase {
    /// Not started.
    Start,
    /// Publishing this relay as the namespace's origin through the API.
    SettingOrigin,
    /// Registering the namespace's tracks locally.
    Registering,
    /// Answering the publisher with ANNOUNCE_OK.
    Accepting,
    /// Forwarding subscriptions until the announce ends.
    Serving,
    /// Finished.
    Done,
}

/// What happened in the step that was asked for.
#[derive(Debug, Clone, Copy, PartialEq, Eq, Structural)]
pub enum AnnounceEvent {
    /// Serving begins.
    Begin,
    /// The step asked for (setting the origin, registering, sending
    /// ANNOUNCE_OK) succeeded.
    Succeeded,
    /// The step asked for failed, the announce was closed with an error, or
    /// one of the running tasks failed.
    Failed,
    /// A subscriber asked for a track of the namespace.
    TrackRequested,
    /// A running task finished without error.
    TaskFinished,
    /// Nothing is left to wait for.
    Exhausted,
}

/// What to do next.
#[derive(Debug, Clone, Copy, PartialEq, Eq, Structural)]
pub enum AnnounceAction {
    /// Publish this relay as the namespace's origin through the API.
    SetOrigin,
    /// Register the namespace's tracks locally.
    Register,
    /// Send ANNOUNCE_OK to the publisher.
    SendOk,
    /// Start forwarding the announce to the configured relay, then wait.
    Forward,
    /// Forward the requested subscription to the publisher.
    ForwardSubscribe,
    /// Wait for the next event.
    Wait,
    /// Stop with the error just reported.
    Fail,
    /// Stop without error.
    Finish,
}

/// Serving one announce.
pub struct AnnounceServe {
    pub phase: AnnouncePhase,
    /// Whether an API is configured, through which the origin is published.
    pub has_api: bool,
    /// Whether announces are forwarded to another relay.
    pub forward: bool,
    /// Whether the origin has been published.
    pub origin_set: bool,
    /// Whether the namespace has been registered locally.
    pub registered: bool,
    /// Whether ANNOUNCE_OK has been sent.
    pub ok_sent: bool,
}

/// Whether `event` answers the step that `phase` asked for.
pub open spec fn expects(phase: AnnouncePhase, event: AnnounceEvent) -> bool {
    match phase {
        AnnouncePhase::Start => event == AnnounceEvent::Begin,
        AnnouncePhase::SettingOrigin | AnnouncePhase::Registering | AnnouncePhase::Accepting => event
            == AnnounceEvent::Succeeded || event == AnnounceEvent::Failed,
        AnnouncePhase::Serving => event != AnnounceEvent::Begin && event != AnnounceEvent::Succeeded,
        AnnouncePhase::Done => false,
    }
}

/// The phase and action that follow `event` in `phase`.
pub open spec fn announce_step(phase: AnnouncePhase, event: AnnounceEvent, has_api: bool, forward: bool) -> (
    AnnouncePhase,
    AnnounceAction,
) {
    match (phase, event) {
        (AnnouncePhase::Start, _) => if has_api {
            (AnnouncePhase::SettingOrigin, AnnounceAction::SetOrigin)
        } else {
            (AnnouncePhase::Registering, AnnounceAction::Register)
        },
        (_, AnnounceEvent::Failed) => (AnnouncePhase::Done, AnnounceAction::Fail),
        (AnnouncePhase::SettingOrigin, _) => (AnnouncePhase::Registering, AnnounceAction::Register),
        (AnnouncePhase::Registering, _) => (AnnouncePhase::Accepting, AnnounceAction::SendOk),
        (AnnouncePhase::Accepting, _) => if forward {
            (AnnouncePhase::Serving, AnnounceAction::Forward)
        } else {
            (AnnouncePhase::Serving, AnnounceAction::Wait)
        },
        (_, AnnounceEvent::TrackRequested) => (AnnouncePhase::Serving, AnnounceAction::ForwardSubscribe),
        (_, AnnounceEvent::Exhausted) => (AnnouncePhase::Done, AnnounceAction::Finish),
        _ => (AnnouncePhase::Serving, AnnounceAction::Wait),
    }
}

impl AnnounceServe {
    /// The order is kept: the origin is set (when there is an API) before
    /// the namespace is registered, which comes before ANNOUNCE_OK, which
    /// comes before serving.
    pub open spec fn wf(self) -> bool {
        &&& self.ok_sent ==> self.registered
        &&& self.registered ==> (self.origin_set || !self.has_api)
        &&& self.origin_set ==> self.has_api
        &&& self.phase == AnnouncePhase::SettingOrigin ==> self.has_api
        &&& (self.phase == AnnouncePhase::Start || self.phase == AnnouncePhase::SettingOrigin) ==> !self.origin_set
            && !self.registered
        &&& self.phase == AnnouncePhase::Registering ==> !self.registered && (self.origin_set || !self.has_api)
        &&& self.phase == AnnouncePhase::Accepting ==> self.registered && !self.ok_sent
        &&& self.phase == AnnouncePhase::Serving ==> self.ok_sent
    }

    /// Serving an announce, with or without an API and forwarding.
    pub fn new(has_api: bool, forward: bool) -> (r: Self)
        ensures
            r.wf(),
            r.phase == AnnouncePhase::Start,
            r.has_api == has_api,
            r.forward == forward,
            !r.origin_set && !r.registered && !r.ok_sent,
    {
        AnnounceServe {
            phase: AnnouncePhase::Start,
            has_api,
            forward,
            origin_set: false,
            registered: false,
            ok_sent: false,
        }
    }

    /// One step of serving: the state moves on by `event`, and the action
    /// to take next is returned. A successful step is recorded: the origin
    /// as set, the namespace as registered, ANNOUNCE_OK as sent.
    pub fn step(&mut self, event: AnnounceEvent) -> (r: AnnounceAction)
        requires
            old(self).wf(),
            expects(old(self).phase, event),
        ensures
            final(self).wf(),
            (final(self).phase, r) == announce_step(
                old(self).phase,
                event,
                old(self).has_api,
                old(self).forward,
            ),
            final(self).has_api == old(self).has_api,
            final(self).forward == old(self).forward,
            final(self).origin_set == (old(self).origin_set || (old(self).phase
                == AnnouncePhase::SettingOrigin && event == AnnounceEvent::Succeeded)),
            final(self).registered == (old(self).registered || (old(self).phase
                == AnnouncePhase::Registering && event == AnnounceEvent::Succeeded)),
            final(self).ok_sent == (old(self).ok_sent || (old(self).phase == AnnouncePhase::Accepting
                && event == AnnounceEvent::Succeeded)),
    {
        let succeeded = event == AnnounceEvent::Succeeded;
        match self.phase {
            AnnouncePhase::Start => {
                if self.has_api {
                    self.phase = AnnouncePhase::SettingOrigin;
                    AnnounceAction::SetOrigin
                } else {
                    self.phase = AnnouncePhase::Registering;
                    AnnounceAction::Register
                }
            },
            AnnouncePhase::SettingOrigin => {
                if succeeded {
                    self.origin_set = true;
                    self.phase = AnnouncePhase::Registering;
                    AnnounceAction::Register
                } else {
                    self.phase = AnnouncePhase::Done;
                    AnnounceAction::Fail
                }
            },
            AnnouncePhase::Registering => {
                if succeeded {
                    self.registered = true;
                    self.phase = AnnouncePhase::Accepting;
                    AnnounceAction::SendOk
                } else {
                    self.phase = AnnouncePhase::Done;
                    AnnounceAction::Fail
                }
            },
            AnnouncePhase::Accepting => {
                if succeeded {
                    self.ok_sent = true;
                    self.phase = AnnouncePhase::Serving;
                    if self.forward {
                        AnnounceAction::Forward
                    } else {
                        AnnounceAction::Wait
                    }
                } else {
                    self.phase = AnnouncePhase::Done;
                    AnnounceAction::Fail
                }
            },
            _ => match event {
                AnnounceEvent::Failed => {
                    self.phase = AnnouncePhase::Done;
                    AnnounceAction::Fail
                },
                AnnounceEvent::TrackRequested => AnnounceAction::ForwardSubscribe,
                AnnounceEvent::Exhausted => {
                    self.phase = AnnouncePhase::Done;
                    AnnounceAction::Finish
                },
                _ => AnnounceAction::Wait,
            },
        }
    }
}

/// ANNOUNCE_OK is asked for only once the namespace has been registered
/// and, when there is an API, the origin has been set; a failure before it
/// ends serving with that failure and no ANNOUNCE_OK.
pub proof fn lemma_ok_only_after_registration(s: AnnounceServe, event: AnnounceEvent)
    requires
        s.wf(),
        expects(s.phase, event),
    ensures
        announce_step(s.phase, event, s.has_api, s.forward).1 == AnnounceAction::SendOk ==> s.phase
            == AnnouncePhase::Registering && event == AnnounceEvent::Succeeded && (s.origin_set
            || !s.has_api),
        !s.ok_sent && event == AnnounceEvent::Failed ==> announce_step(
            s.phase,
            event,
            s.has_api,
            s.forward,
        ) == (AnnouncePhase::Done, AnnounceAction::Fail),
        s.has_api && s.phase == AnnouncePhase::Start ==> announce_step(
            s.phase,
            event,
            s.has_api,
            s.forward,
        ).1 == AnnounceAction::SetOrigin,
{
}

/// Once ANNOUNCE_OK has been sent, a subscription request is forwarded, a
/// failure (the announce closed with an error, or a task failed) ends
/// serving with it, and running out of work ends it without error.
pub proof fn lemma_serving_reacts(s: AnnounceServe)
    requires
        s.wf(),
        s.phase == AnnouncePhase::Serving,
    ensures
        announce_step(s.phase, AnnounceEvent::TrackRequested, s.has_api, s.forward) == (
            AnnouncePhase::Serving,
            AnnounceAction::ForwardSubscribe,
        ),
        announce_step(s.phase, AnnounceEvent::Failed, s.has_api, s.forward) == (
            AnnouncePhase::Done,
            AnnounceAction::Fail,
        ),
        announce_step(s.phase, AnnounceEvent::Exhausted, s.has_api, s.forward) == (
            AnnouncePhase::Done,
            AnnounceAction::Finish,
        ),
        announce_step(s.phase, AnnounceEvent::TaskFinished, s.has_api, s.forward) == (
            AnnouncePhase::Serving,
            AnnounceAction::Wait,
        ),
{
}

/// Once ANNOUNCE_OK has been sent, the announce is forwarded exactly when
/// forwarding is configured, whether or not an API is configured too; the
/// origin is set first exactly when there is an API.
pub proof fn lemma_forward_after_ok(has_api: bool, forward: bool)
    ensures
        announce_step(AnnouncePhase::Accepting, AnnounceEvent::Succeeded, has_api, forward) == (
            AnnouncePhase::Serving,
            if forward {
                AnnounceAction::Forward
            } else {
                AnnounceAction::Wait
            },
        ),
        announce_step(AnnouncePhase::Start, AnnounceEvent::Begin, has_api, forward).1 == (if has_api {
            AnnounceAction::SetOrigin
        } else {
            AnnounceAction::Register
        }),
        announce_step(AnnouncePhase::SettingOrigin, AnnounceEvent::Succeeded, has_api, forward) == (
            AnnouncePhase::Registering,
            AnnounceAction::Register,
        ),
        announce_step(AnnouncePhase::Registering, AnnounceEvent::Succeeded, has_api, forward) == (
            AnnouncePhase::Accepting,
            AnnounceAction::SendOk,
        ),
        forall|phase: AnnouncePhase, event: AnnounceEvent|
            expects(phase, event) && #[trigger] announce_step(phase, event, has_api, forward).1
                == AnnounceAction::Forward ==> forward && phase == AnnouncePhase::Accepting && event
                == AnnounceEvent::Succeeded,
{
}

} // verus!

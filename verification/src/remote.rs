//! Decisions about connections to remote relays and the tracks subscribed
//! through them.
use vstd::prelude::*;

use crate::cache::{KeyedCache, TrackKey};

verus! {

/// Which QUIC client a new connection uses.
#[derive(Debug, Clone, Copy, PartialEq, Eq, Structural)]
pub enum ClientChoice {
    /// The client that came with the lookup.
    Given,
    /// The first configured client.
    First,
}

/// How to get a connection to a remote relay.
#[derive(Debug, Clone, Copy, PartialEq, Eq, Structural)]
pub enum ConnectPlan {
    /// Use the cached connection, which is alive.
    Reuse,
    /// Connect anew with the chosen client; `evict` says whether a dead
    /// cached connection is removed first.
    Connect { evict: bool, client: ClientChoice },
    /// No client is available: fail, after removing a dead cached
    /// connection if `evict`.
    NoClient { evict: bool },
}

/// The plan for a connection, as [`plan_connection`] makes it.
pub open spec fn connection_plan(cached_alive: Option<bool>, client_given: bool, configured_clients: usize) -> ConnectPlan {
    if cached_alive == Some(true) {
        ConnectPlan::Reuse
    } else {
        let evict = cached_alive == Some(false);
        if client_given {
            ConnectPlan::Connect { evict, client: ClientChoice::Given }
        } else if configured_clients > 0 {
            ConnectPlan::Connect { evict, client: ClientChoice::First }
        } else {
            ConnectPlan::NoClient { evict }
        }
    }
}

/// How to get a connection to a remote relay, given whether one is cached
/// (and then whether it is alive), whether the lookup came with a client,
/// and how many clients are configured.
pub fn plan_connection(cached_alive: Option<bool>, client_given: bool, configured_clients: usize) -> (r:
    ConnectPlan)
    ensures
        r == connection_plan(cached_alive, client_given, configured_clients),
{
    let evict = match cached_alive {
        Some(true) => {
            return ConnectPlan::Reuse;
        },
        Some(false) => true,
        None => false,
    };
    if client_given {
        ConnectPlan::Connect { evict, client: ClientChoice::Given }
    } else if configured_clients > 0 {
        ConnectPlan::Connect { evict, client: ClientChoice::First }
    } else {
        ConnectPlan::NoClient { evict }
    }
}

/// How to serve a subscription to a track on a remote relay.
#[derive(Debug, Clone, Copy, PartialEq, Eq, Structural)]
pub enum TrackPlan {
    /// The connection is closed: fail.
    Closed,
    /// The track is already subscribed: hand out the cached reader.
    Cached,
    /// Subscribe anew, caching the reader before the subscription starts.
    Subscribe,
}

/// How to serve a subscription to the track `key` on a remote relay whose
/// connection is `connected`, given the tracks already subscribed there.
pub fn plan_track<R>(connected: bool, tracks: &KeyedCache<TrackKey, R>, key: &TrackKey) -> (r:
    TrackPlan)
    ensures
        !connected ==> r == TrackPlan::Closed,
        connected && tracks@.contains_key(key@) ==> r == TrackPlan::Cached,
        connected && !tracks@.contains_key(key@) ==> r == TrackPlan::Subscribe,
{
    if !connected {
        TrackPlan::Closed
    } else if tracks.contains(key) {
        TrackPlan::Cached
    } else {
        TrackPlan::Subscribe
    }
}

/// Where one request for a track on a remote relay stands.
#[derive(Debug, Clone, Copy, PartialEq, Eq, Structural)]
pub enum RemoteTrack {
    /// The track has been asked for.
    Requested,
    /// A new track is being made, to be subscribed to.
    Producing,
    /// The subscription on the remote relay is running.
    Subscribed,
    /// Finished.
    Ended,
}

/// What happened in the step that was asked for.
pub enum TrackEvent<R> {
    /// The track is asked for; `connected` says whether the connection to
    /// the remote relay is alive.
    Request { connected: bool },
    /// A new track was made; `reader` is the reader to cache for it.
    Produced { reader: R },
    /// The subscription on the remote relay ended, with or without error.
    SubscriptionEnded,
}

/// What to do next.
#[derive(Debug, Clone, Copy, PartialEq, Eq, Structural)]
pub enum TrackAction {
    /// The connection is closed: fail, changing nothing.
    Closed,
    /// Hand out a clone of the reader cached for the track; no new
    /// subscription is made.
    HandOutCached,
    /// Make a new track (a writer and its reader).
    Produce,
    /// Hand out the new reader, and subscribe on the remote relay with the
    /// writer in the background.
    Subscribe,
    /// Nothing more to do.
    Finished,
}

impl RemoteTrack {
    /// Whether `event` answers the step this state asked for.
    pub open spec fn expects<R>(self, event: TrackEvent<R>) -> bool {
        match self {
            RemoteTrack::Requested => event is Request,
            RemoteTrack::Producing => event is Produced,
            RemoteTrack::Subscribed => event is SubscriptionEnded,
            RemoteTrack::Ended => false,
        }
    }

    /// The tracks cached on the connection after `event` for the track
    /// `key`: a new track is cached before its subscription starts, and
    /// dropped when its subscription ends; nothing else changes them.
    pub open spec fn next_tracks<R>(
        self,
        key: (Seq<Seq<char>>, Seq<char>),
        event: TrackEvent<R>,
        tracks: Map<(Seq<Seq<char>>, Seq<char>), R>,
    ) -> Map<(Seq<Seq<char>>, Seq<char>), R> {
        match (self, event) {
            (RemoteTrack::Producing, TrackEvent::Produced { reader }) => tracks.insert(key, reader),
            (RemoteTrack::Subscribed, TrackEvent::SubscriptionEnded) => tracks.remove(key),
            _ => tracks,
        }
    }

    /// The state and action that follow `event` for the track `key`, given
    /// the tracks cached before it.
    pub open spec fn next_track_step<R>(
        self,
        key: (Seq<Seq<char>>, Seq<char>),
        event: TrackEvent<R>,
        tracks: Map<(Seq<Seq<char>>, Seq<char>), R>,
    ) -> (RemoteTrack, TrackAction) {
        match (self, event) {
            (RemoteTrack::Requested, TrackEvent::Request { connected }) => if !connected {
                (RemoteTrack::Ended, TrackAction::Closed)
            } else if tracks.contains_key(key) {
                (RemoteTrack::Ended, TrackAction::HandOutCached)
            } else {
                (RemoteTrack::Producing, TrackAction::Produce)
            },
            (RemoteTrack::Producing, _) => (RemoteTrack::Subscribed, TrackAction::Subscribe),
            _ => (RemoteTrack::Ended, TrackAction::Finished),
        }
    }

    /// One step of serving a request for the track `key` on a remote
    /// relay, over the tracks already subscribed through that connection.
    pub fn step<R>(self, key: TrackKey, event: TrackEvent<R>, tracks: &mut KeyedCache<TrackKey, R>) -> (r: (
        RemoteTrack,
        TrackAction,
    ))
        requires
            self.expects(event),
        ensures
            final(tracks)@ == self.next_tracks(key@, event, old(tracks)@),
            r == self.next_track_step(key@, event, old(tracks)@),
    {
        match self {
            RemoteTrack::Requested => {
                let connected = match event {
                    TrackEvent::Request { connected } => connected,
                    _ => false,
                };
                match plan_track(connected, tracks, &key) {
                    TrackPlan::Closed => (RemoteTrack::Ended, TrackAction::Closed),
                    TrackPlan::Cached => (RemoteTrack::Ended, TrackAction::HandOutCached),
                    TrackPlan::Subscribe => (RemoteTrack::Producing, TrackAction::Produce),
                }
            },
            RemoteTrack::Producing => {
                if let TrackEvent::Produced { reader } = event {
                    tracks.insert(key, reader);
                }
                (RemoteTrack::Subscribed, TrackAction::Subscribe)
            },
            _ => {
                tracks.remove(&key);
                (RemoteTrack::Ended, TrackAction::Finished)
            },
        }
    }
}

/// Repeat requests for a track share one subscription: once a request has
/// made and cached the track, a further request for it, while the
/// subscription runs, is handed the cached reader and subscribes nothing;
/// after the subscription has ended, a request subscribes anew. A request
/// on a closed connection changes nothing.
pub proof fn lemma_repeat_requests_share_subscription<R>(
    key: (Seq<Seq<char>>, Seq<char>),
    reader: R,
    tracks: Map<(Seq<Seq<char>>, Seq<char>), R>,
)
    requires
        !tracks.contains_key(key),
    ensures
        ({
            let request = TrackEvent::<R>::Request { connected: true };
            let produced = TrackEvent::Produced { reader: reader };
            let ended = TrackEvent::<R>::SubscriptionEnded;
            let first = RemoteTrack::Requested.next_track_step(key, request, tracks);
            let cached = RemoteTrack::Producing.next_tracks(key, produced, tracks);
            let second = RemoteTrack::Requested.next_track_step(key, request, cached);
            let after_end = RemoteTrack::Subscribed.next_tracks(key, ended, cached);
            let third = RemoteTrack::Requested.next_track_step(key, request, after_end);
            &&& first == (RemoteTrack::Producing, TrackAction::Produce)
            &&& cached[key] == reader
            &&& second == (RemoteTrack::Ended, TrackAction::HandOutCached)
            &&& RemoteTrack::Requested.next_tracks(key, request, cached) == cached
            &&& third == (RemoteTrack::Producing, TrackAction::Produce)
        }),
        RemoteTrack::Requested.next_track_step(key, TrackEvent::<R>::Request { connected: false }, tracks)
            == (RemoteTrack::Ended, TrackAction::Closed),
        RemoteTrack::Requested.next_tracks(key, TrackEvent::<R>::Request { connected: false }, tracks)
            == tracks,
{
    let cached = tracks.insert(key, reader);
    assert(!cached.remove(key).contains_key(key));
}

/// Whether a remote connection is dropped from the cache after a failed
/// subscription: only when it is no longer connected.
pub fn evict_after_failure(connected: bool) -> (r: bool)
    ensures
        r == !connected,
{
    !connected
}

/// Whether a connection to a remote relay is alive: it is from the moment
/// it connects, and stops being so for good when its session ends or it is
/// shut down.
pub struct ConnectionStatus {
    alive: bool,
}

impl View for ConnectionStatus {
    type V = bool;

    closed spec fn view(&self) -> bool {
        self.alive
    }
}

impl ConnectionStatus {
    /// A connection that has just connected.
    pub fn new() -> (r: Self)
        ensures
            r@,
    {
        ConnectionStatus { alive: true }
    }

    /// The connection's session has ended, normally or with an error.
    pub fn session_ended(&mut self)
        ensures
            !final(self)@,
    {
        self.alive = false;
    }

    /// The connection is shut down.
    pub fn shutdown(&mut self)
        ensures
            !final(self)@,
    {
        self.alive = false;
    }

    /// Whether the connection is still alive.
    pub fn is_connected(&self) -> (r: bool)
        ensures
            r == self@,
    {
        self.alive
    }
}

/// Where subscribing to a track on a remote relay stands.
pub enum RemoteSubscribe {
    /// Asking the coordinator where the namespace is served from.
    Lookup,
    /// Getting a connection to the relay at `url`, reused or new.
    Connecting { url: String },
    /// Subscribing to the track through the connection to `url`.
    Subscribing { url: String },
    /// Finished.
    Done,
}

/// What happened in the step that was asked for.
pub enum RemoteEvent<R> {
    /// The coordinator knows no origin for the namespace.
    LookupFailed,
    /// The coordinator names the relay at `url` as the origin.
    LookupFound { url: String },
    /// A live cached connection is used.
    Reused,
    /// A new connection was made.
    Connected { remote: R },
    /// No connection could be made.
    ConnectFailed,
    /// The remote relay handed out the track.
    Subscribed,
    /// Subscribing on the remote relay failed; `connected` says whether the
    /// connection is still alive.
    SubscribeFailed { connected: bool },
}

/// What to do next.
pub enum RemoteAction<R> {
    /// Get a connection to the relay at `url` (see [`plan_connection`]).
    Connect { url: String },
    /// Subscribe to the track through the connection to `url`.
    Subscribe { url: String },
    /// The namespace is not served anywhere: answer with no track.
    ReturnNone,
    /// Answer with the track the remote relay handed out.
    ReturnTrack,
    /// Answer with the error just reported, after shutting down the
    /// connection taken out of the cache, if any.
    ReturnError { removed: Option<R> },
}

impl RemoteSubscribe {
    /// Whether `event` answers the step this state asked for.
    pub open spec fn expects<R>(self, event: RemoteEvent<R>) -> bool {
        match self {
            RemoteSubscribe::Lookup => event is LookupFailed || event is LookupFound,
            RemoteSubscribe::Connecting { .. } => event is Reused || event is Connected
                || event is ConnectFailed,
            RemoteSubscribe::Subscribing { .. } => event is Subscribed || event is SubscribeFailed,
            RemoteSubscribe::Done => false,
        }
    }

    /// The cache of connections after `event`, keyed by URL: a new
    /// connection is cached; after a failed connection attempt, or a failed
    /// subscription on a dead connection, the URL is dropped; nothing else
    /// changes it.
    pub open spec fn next_cache<R>(self, event: RemoteEvent<R>, cache: Map<Seq<char>, R>) -> Map<
        Seq<char>,
        R,
    > {
        match (self, event) {
            (RemoteSubscribe::Connecting { url }, RemoteEvent::Connected { remote }) => cache.insert(
                url@,
                remote,
            ),
            (RemoteSubscribe::Connecting { url }, RemoteEvent::ConnectFailed) => cache.remove(url@),
            (RemoteSubscribe::Subscribing { url }, RemoteEvent::SubscribeFailed { connected }) =>
                if connected {
                cache
            } else {
                cache.remove(url@)
            },
            _ => cache,
        }
    }

    /// The state and action that follow `event`, given the cache of
    /// connections before it.
    pub open spec fn next_step<R>(self, event: RemoteEvent<R>, cache: Map<Seq<char>, R>) -> (
        RemoteSubscribe,
        RemoteAction<R>,
    ) {
        match (self, event) {
            (RemoteSubscribe::Lookup, RemoteEvent::LookupFound { url }) => (
                RemoteSubscribe::Connecting { url },
                RemoteAction::Connect { url },
            ),
            (RemoteSubscribe::Lookup, _) => (RemoteSubscribe::Done, RemoteAction::ReturnNone),
            (RemoteSubscribe::Connecting { url }, RemoteEvent::ConnectFailed) => (
                RemoteSubscribe::Done,
                RemoteAction::ReturnError {
                    removed: if cache.contains_key(url@) {
                        Some(cache[url@])
                    } else {
                        None
                    },
                },
            ),
            (RemoteSubscribe::Connecting { url }, _) => (
                RemoteSubscribe::Subscribing { url },
                RemoteAction::Subscribe { url },
            ),
            (RemoteSubscribe::Subscribing { url }, RemoteEvent::SubscribeFailed { connected }) => (
                RemoteSubscribe::Done,
                RemoteAction::ReturnError {
                    removed: if !connected && cache.contains_key(url@) {
                        Some(cache[url@])
                    } else {
                        None
                    },
                },
            ),
            (RemoteSubscribe::Subscribing { .. }, _) => (
                RemoteSubscribe::Done,
                RemoteAction::ReturnTrack,
            ),
            (RemoteSubscribe::Done, _) => (RemoteSubscribe::Done, RemoteAction::ReturnNone),
        }
    }

    /// One step of subscribing to a track on a remote relay: the state and
    /// the cache of connections move on by `event`, and the action to take
    /// next is returned.
    pub fn step<R>(self, event: RemoteEvent<R>, cache: &mut KeyedCache<String, R>) -> (r: (
        RemoteSubscribe,
        RemoteAction<R>,
    ))
        requires
            self.expects(event),
        ensures
            final(cache)@ == self.next_cache(event, old(cache)@),
            r == self.next_step(event, old(cache)@),
    {
        match self {
            RemoteSubscribe::Lookup => match event {
                RemoteEvent::LookupFound { url } => {
                    let a = url.clone();
                    (RemoteSubscribe::Connecting { url }, RemoteAction::Connect { url: a })
                },
                _ => (RemoteSubscribe::Done, RemoteAction::ReturnNone),
            },
            RemoteSubscribe::Connecting { url } => match event {
                RemoteEvent::ConnectFailed => {
                    let removed = cache.remove(&url);
                    (RemoteSubscribe::Done, RemoteAction::ReturnError { removed })
                },
                RemoteEvent::Connected { remote } => {
                    let a = url.clone();
                    cache.insert(url.clone(), remote);
                    (RemoteSubscribe::Subscribing { url }, RemoteAction::Subscribe { url: a })
                },
                _ => {
                    let a = url.clone();
                    (RemoteSubscribe::Subscribing { url }, RemoteAction::Subscribe { url: a })
                },
            },
            RemoteSubscribe::Subscribing { url } => match event {
                RemoteEvent::SubscribeFailed { connected } => {
                    let removed = if connected {
                        None
                    } else {
                        cache.remove(&url)
                    };
                    (RemoteSubscribe::Done, RemoteAction::ReturnError { removed })
                },
                _ => (RemoteSubscribe::Done, RemoteAction::ReturnTrack),
            },
            RemoteSubscribe::Done => (RemoteSubscribe::Done, RemoteAction::ReturnNone),
        }
    }
}

/// A connection is cached only once it has been made: a failed connection
/// attempt leaves no connection to that URL in the cache, a new connection
/// is found there, and a failed subscription drops the URL exactly when the
/// connection is dead. A failed lookup changes nothing.
pub proof fn lemma_cache_follows_connections<R>(
    url: String,
    remote: R,
    connected: bool,
    cache: Map<Seq<char>, R>,
)
    ensures
        ({
            let connecting = RemoteSubscribe::Connecting { url: url };
            let subscribing = RemoteSubscribe::Subscribing { url: url };
            let made = RemoteEvent::Connected { remote: remote };
            let failed = RemoteEvent::<R>::SubscribeFailed { connected: connected };
            &&& !connecting.next_cache(RemoteEvent::<R>::ConnectFailed, cache).contains_key(url@)
            &&& connecting.next_cache(made, cache).contains_key(url@)
            &&& connecting.next_cache(made, cache)[url@] == remote
            &&& connecting.next_cache(RemoteEvent::<R>::Reused, cache) == cache
            &&& subscribing.next_cache(failed, cache).contains_key(url@) == (connected
                && cache.contains_key(url@))
            &&& subscribing.next_cache(RemoteEvent::<R>::Subscribed, cache) == cache
            &&& RemoteSubscribe::Lookup.next_cache(RemoteEvent::<R>::LookupFailed, cache) == cache
        }),
{
}

/// Without a live cached connection, the plan connects with the client that
/// came with the lookup whenever there is one, however many clients are
/// configured; the first configured client is used only when none was
/// given, and the plan fails for want of a client only when none was given
/// and none is configured.
pub proof fn lemma_client_choice(cached_alive: Option<bool>, client_given: bool, configured_clients: usize)
    requires
        cached_alive != Some(true),
    ensures
        client_given ==> connection_plan(cached_alive, client_given, configured_clients) == (
        ConnectPlan::Connect { evict: cached_alive == Some(false), client: ClientChoice::Given }),
        !client_given && configured_clients > 0 ==> connection_plan(
            cached_alive,
            client_given,
            configured_clients,
        ) == (ConnectPlan::Connect { evict: cached_alive == Some(false), client: ClientChoice::First }),
        connection_plan(cached_alive, client_given, configured_clients) is NoClient <==> (!client_given
            && configured_clients == 0),
{
}

/// What each answer leads to while subscribing through a remote relay: a
/// failed lookup answers with no track and connects nowhere; a found origin
/// is connected to; a reused or new connection is subscribed through; a
/// failed connection or subscription answers with the error; a track handed
/// out is answered with.
pub proof fn lemma_remote_actions<R>(url: String, remote: R, connected: bool, cache: Map<Seq<char>, R>)
    ensures
        RemoteSubscribe::Lookup.next_step(RemoteEvent::<R>::LookupFailed, cache) matches (
            RemoteSubscribe::Done,
            RemoteAction::ReturnNone,
        ),
        RemoteSubscribe::Lookup.next_step((RemoteEvent::<R>::LookupFound { url: url }), cache) matches (
            RemoteSubscribe::Connecting { url: u },
            RemoteAction::Connect { url: a },
        ) && u == url && a == url,
        (RemoteSubscribe::Connecting { url: url }).next_step(RemoteEvent::<R>::Reused, cache) matches (
            RemoteSubscribe::Subscribing { url: u },
            RemoteAction::Subscribe { url: a },
        ) && u == url && a == url,
        (RemoteSubscribe::Connecting { url: url }).next_step((RemoteEvent::Connected { remote: remote }), cache) matches (
            RemoteSubscribe::Subscribing { url: u },
            RemoteAction::Subscribe { url: a },
        ) && u == url && a == url,
        (RemoteSubscribe::Connecting { url: url }).next_step(RemoteEvent::<R>::ConnectFailed, cache) matches (
            RemoteSubscribe::Done,
            RemoteAction::ReturnError { .. },
        ),
        (RemoteSubscribe::Subscribing { url: url }).next_step(RemoteEvent::<R>::Subscribed, cache) matches (
            RemoteSubscribe::Done,
            RemoteAction::ReturnTrack,
        ),
        (RemoteSubscribe::Subscribing { url: url }).next_step(
            (RemoteEvent::<R>::SubscribeFailed { connected: connected }),
            cache,
        ) matches (RemoteSubscribe::Done, RemoteAction::ReturnError { .. }),
{
}

/// A live cached connection is always reused; a dead one is never reused
/// and is removed before anything else happens.
pub proof fn lemma_reuse_only_live(cached_alive: Option<bool>, client_given: bool, configured_clients: usize)
    ensures
        connection_plan(cached_alive, client_given, configured_clients) == ConnectPlan::Reuse
            <==> cached_alive == Some(true),
        cached_alive == Some(false) ==> match connection_plan(
            cached_alive,
            client_given,
            configured_clients,
        ) {
            ConnectPlan::Connect { evict, client: _ } => evict,
            ConnectPlan::NoClient { evict } => evict,
            ConnectPlan::Reuse => false,
        },
{
}

} // verus!

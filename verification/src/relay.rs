//! How the relay is put together from its configuration, and where a
//! subscription is served from.
use vstd::prelude::*;

use url::Url;

use crate::error::ServeError;

verus! {

/// The moq-api endpoints, when the relay runs in a cluster: the API's URL
/// and the URL this relay advertises. Both must be configured, else the
/// relay runs alone.
pub fn api_endpoints(api: Option<Url>, node: Option<Url>) -> (r: Option<(Url, Url)>)
    ensures
        r is Some <==> (api is Some && node is Some),
        r matches Some((a, n)) ==> api == Some(a) && node == Some(n),
{
    match (api, node) {
        (Some(url), Some(node)) => Some((url, node)),
        _ => None,
    }
}

/// Where a subscription is served from.
#[derive(Debug, Clone, Copy, PartialEq, Eq, Structural)]
pub enum SubscribeSource {
    /// A track announced to this relay.
    Local,
    /// A track on a remote relay known through the API.
    Remote,
    /// The upstream relay, asked for a track nobody here knows.
    Upstream,
}

/// Where a subscription is served from: local announcements first, then
/// remote relays, then the upstream relay when one is configured; with none
/// of them the track is not found.
pub fn choose_source(local: bool, remote: bool, upstream: bool) -> (r: Result<SubscribeSource, ServeError>)
    ensures
        local ==> r == Ok::<SubscribeSource, ServeError>(SubscribeSource::Local),
        !local && remote ==> r == Ok::<SubscribeSource, ServeError>(SubscribeSource::Remote),
        !local && !remote && upstream ==> r == Ok::<SubscribeSource, ServeError>(
            SubscribeSource::Upstream,
        ),
        !local && !remote && !upstream ==> r == Err::<SubscribeSource, ServeError>(
            ServeError::NotFound,
        ),
{
    if local {
        Ok(SubscribeSource::Local)
    } else if remote {
        Ok(SubscribeSource::Remote)
    } else if upstream {
        Ok(SubscribeSource::Upstream)
    } else {
        Err(ServeError::NotFound)
    }
}

/// Which kind of MoQ session the relay runs.
#[derive(Debug, Clone, Copy, PartialEq, Eq, Structural)]
pub enum SessionKind {
    /// A session accepted from a client (over QUIC or WebSocket).
    Accepted,
    /// The session to the upstream relay that announcements are forwarded
    /// to.
    Upstream,
}

/// What the producer and consumer halves of a session are given.
#[derive(Debug, Clone, Copy, PartialEq, Eq, Structural)]
pub struct SessionWiring {
    /// The producer may serve tracks from remote relays.
    pub producer_remotes: bool,
    /// The producer may ask the upstream relay for unknown tracks.
    pub producer_upstream: bool,
    /// The consumer registers announced namespaces with the API.
    pub consumer_api: bool,
    /// The consumer forwards announcements upstream.
    pub consumer_forward: bool,
}

/// How a session is wired, given what the relay has: remote relays known
/// through the API, an upstream session, the API, and a forwarding
/// producer. An accepted session gets all of them; the upstream session
/// gets only the remote relays, and never forwards, registers or asks
/// upstream itself, since it is the upstream.
pub fn session_wiring(
    kind: SessionKind,
    has_remotes: bool,
    has_upstream: bool,
    has_api: bool,
    has_forward: bool,
) -> (r: SessionWiring)
    ensures
        r.producer_remotes == has_remotes,
        kind == SessionKind::Accepted ==> r.producer_upstream == has_upstream && r.consumer_api
            == has_api && r.consumer_forward == has_forward,
        kind == SessionKind::Upstream ==> !r.producer_upstream && !r.consumer_api
            && !r.consumer_forward,
{
    match kind {
        SessionKind::Accepted => SessionWiring {
            producer_remotes: has_remotes,
            producer_upstream: has_upstream,
            consumer_api: has_api,
            consumer_forward: has_forward,
        },
        SessionKind::Upstream => SessionWiring {
            producer_remotes: has_remotes,
            producer_upstream: false,
            consumer_api: false,
            consumer_forward: false,
        },
    }
}

} // verus!

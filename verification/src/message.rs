//! Control messages that the serving logic receives and sends.
use vstd::prelude::*;

use crate::error::ServeError;

verus! {

/// The order in which groups are delivered.
#[derive(Debug, Clone, Copy, PartialEq, Eq, Structural)]
pub enum GroupOrder {
    Ascending,
    Descending,
}

/// A SUBSCRIBE request, as far as serving it needs.
pub struct Subscribe {
    pub id: u64,
    pub track_alias: u64,
    pub track_namespace: Vec<String>,
    pub track_name: String,
}

/// A TRACK_STATUS_REQUEST, as far as answering it needs.
pub struct TrackStatusRequest {
    pub track_namespace: Vec<String>,
    pub track_name: String,
}

/// A control message to send to the peer.
pub enum ControlMessage {
    /// Announce a namespace.
    Announce { namespace: Vec<String> },
    /// Withdraw an announced namespace.
    Unannounce { namespace: Vec<String> },
    /// Accept a subscription; `latest` is the newest (group, object) known.
    SubscribeOk { id: u64, expires: Option<u64>, group_order: GroupOrder, latest: Option<(u64, u64)> },
    /// End an accepted subscription; `last` is the newest (group, object) sent.
    SubscribeDone { id: u64, last: Option<(u64, u64)>, error: ServeError },
    /// Refuse a subscription.
    SubscribeError { id: u64, alias: u64, error: ServeError },
}

} // verus!

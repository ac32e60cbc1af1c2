//! A request from a peer for the status of a track.
use vstd::prelude::*;

use crate::message::TrackStatusRequest;

verus! {

/// Which track a status request is about.
pub struct TrackStatusRequestedInfo {
    pub namespace: Vec<String>,
    pub track: String,
}

/// A track status request received from a peer, to be answered.
pub struct TrackStatusRequested {
    pub info: TrackStatusRequestedInfo,
}

impl TrackStatusRequested {
    /// The request described by `msg`.
    pub fn new(msg: TrackStatusRequest) -> (r: Self)
        ensures
            r.info.namespace == msg.track_namespace,
            r.info.track == msg.track_name,
    {
        let TrackStatusRequest { track_namespace, track_name } = msg;
        TrackStatusRequested {
            info: TrackStatusRequestedInfo { namespace: track_namespace, track: track_name },
        }
    }
}

} // verus!

//! WebSocket transport: the rules that differ from QUIC.
use vstd::prelude::*;

verus! {

/// Error of a WebSocket transport operation.
#[derive(Debug, Clone)]
pub enum WsError {
    /// An error of the WebSocket layer, with its description.
    Ws(String),
    /// The connection is closed.
    Closed,
    /// WebSocket carries no datagrams.
    DatagramsNotSupported,
}

/// A WebSocket session.
pub struct WsSession<S>(pub S);

/// A WebSocket send stream.
pub struct WsSendStream<S>(pub S);

/// A WebSocket receive stream.
pub struct WsRecvStream<S>(pub S);

impl<S> WsSession<S> {
    /// Wrap a WebSocket session.
    pub fn new(session: S) -> (r: Self)
        ensures
            r.0 == session,
    {
        WsSession(session)
    }

    /// Sending a datagram always fails: WebSocket carries no datagrams, and
    /// the caller falls back to streams.
    pub fn send_datagram<P>(&mut self, payload: P) -> (r: Result<(), WsError>)
        ensures
            r matches Err(WsError::DatagramsNotSupported),
            final(self).0 == old(self).0,
    {
        Err(WsError::DatagramsNotSupported)
    }
}

/// The WebSocket stream priority for a stream priority: clamped to 0..=255.
pub fn ws_priority(order: i32) -> (r: u8)
    ensures
        order < 0 ==> r == 0,
        order > 255 ==> r == 255,
        0 <= order <= 255 ==> r == order,
{
    if order < 0 {
        0
    } else if order > 255 {
        255
    } else {
        order as u8
    }
}

} // verus!

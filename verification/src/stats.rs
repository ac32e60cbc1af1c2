//! Reporting relay statistics.
use vstd::prelude::*;

verus! {

/// A sink for relay statistics.
///
/// Implementors decide what to do when these methods are called: update
/// counters, send them on, log them, or do nothing at all.
pub trait Stats: Send + Sync + 'static {
    /// Called when a new session is established.
    fn session_created(&self);

    /// Called when a session is closed.
    fn session_dropped(&self);

    /// Called when a new publisher is added.
    fn publisher_created(&self);

    /// Called when a publisher is removed.
    fn publisher_dropped(&self);

    /// Called when a new subscriber is added.
    fn subscriber_created(&self);

    /// Called when a subscriber is removed.
    fn subscriber_dropped(&self);

    /// Called when a created namespace is announced.
    fn namespace_created(&self);

    /// Called when a namespace is removed.
    fn namespace_dropped(&self);

    /// Called when a created track is published.
    fn track_published(&self);

    /// Called when a track is removed.
    fn track_unpublished(&self);

    /// Called when a namespace is announced.
    fn namespace_announced(&self);

    /// Called when a namespace is unannounced.
    fn namespace_unannounced(&self);
}

/// A statistics sink that ignores everything.
#[derive(Clone, Default)]
pub struct NoopStatsCollector {}

impl Stats for NoopStatsCollector {
    fn session_created(&self) {
    }

    fn session_dropped(&self) {
    }

    fn publisher_created(&self) {
    }

    fn publisher_dropped(&self) {
    }

    fn subscriber_created(&self) {
    }

    fn subscriber_dropped(&self) {
    }

    fn namespace_created(&self) {
    }

    fn namespace_dropped(&self) {
    }

    fn track_published(&self) {
    }

    fn track_unpublished(&self) {
    }

    fn namespace_announced(&self) {
    }

    fn namespace_unannounced(&self) {
    }
}

} // verus!

//! Decision logic of a Media-over-QUIC relay: namespace and track
//! registration, session setup, subscription and announcement state, and the
//! retry and fallback rules used while serving media.
pub mod announce;
pub mod cache;
pub mod consumer;
pub mod coordinator;
pub mod coordinator_local;
pub mod drop_guard;
pub mod error;
pub mod message;
pub mod producer;
pub mod relay;
pub mod remote;
pub mod seq_facts;
pub mod serve;
pub mod session;
pub mod setup;
pub mod stats;
pub mod subscribed;
pub mod track_status_requested;
pub mod watch;
pub mod writer;
pub mod ws_adapter;

//! Rules used while a subscription is being served: when failing subgroup
//! tasks stop the serving, and when datagrams fall back to streams.
use vstd::prelude::*;

use crate::error::{ServeError, SessionError};

verus! {

/// Consecutive failed subgroups after which serving stops.
pub const MAX_CONSECUTIVE_FAILURES: usize = 3;

/// The run of failures after a subgroup task with `outcome` is accounted
/// for, starting from a run of `consecutive`.
pub open spec fn next_failures(consecutive: int, outcome: SubgroupOutcome) -> int {
    match outcome {
        SubgroupOutcome::Failed | SubgroupOutcome::Panicked => consecutive + 1,
        SubgroupOutcome::Finished | SubgroupOutcome::Running => 0,
    }
}

/// How a spawned subgroup task stood when it was checked shortly after
/// being started.
#[derive(Debug, Clone, Copy, PartialEq, Eq, Structural)]
pub enum SubgroupOutcome {
    /// It finished successfully.
    Finished,
    /// It finished with an error.
    Failed,
    /// It panicked.
    Panicked,
    /// It was still running.
    Running,
}

/// The run of consecutive subgroup failures (a likely sign that the
/// connection is gone).
pub struct SubgroupFailures {
    pub consecutive: usize,
}

impl SubgroupFailures {
    /// No failures yet.
    pub fn new() -> (r: Self)
        ensures
            r.consecutive == 0,
    {
        SubgroupFailures { consecutive: 0 }
    }

    /// Whether serving should stop before taking the next subgroup.
    pub fn should_stop(&self) -> (r: bool)
        ensures
            r == (self.consecutive >= MAX_CONSECUTIVE_FAILURES),
    {
        self.consecutive >= MAX_CONSECUTIVE_FAILURES
    }

    /// Account for a subgroup task: a failure or panic extends the run, a
    /// task that finished or is still running breaks it.
    pub fn record(&mut self, outcome: SubgroupOutcome)
        requires
            old(self).consecutive < MAX_CONSECUTIVE_FAILURES,
        ensures
            final(self).consecutive == next_failures(old(self).consecutive as int, outcome),
    {
        match outcome {
            SubgroupOutcome::Failed | SubgroupOutcome::Panicked => {
                self.consecutive += 1;
            },
            SubgroupOutcome::Finished | SubgroupOutcome::Running => {
                self.consecutive = 0;
            },
        }
    }
}

/// What serving subgroups waited for and got.
pub enum SubgroupsEvent {
    /// The reader handed out the next subgroup.
    Subgroup,
    /// The reader has no more subgroups.
    ReaderEnded,
    /// Reading the next subgroup failed.
    ReaderFailed(ServeError),
    /// The subscription was closed, with its closing outcome.
    Closed(Result<(), ServeError>),
}

/// What to do after an event while serving subgroups.
pub enum SubgroupsStep {
    /// Serve the subgroup on a task of its own and check on it.
    Serve,
    /// Abort every subgroup task started so far, then return `result`.
    Stop { result: Result<(), SessionError> },
}

/// How serving subgroups goes on: with three failed subgroups in a row it
/// stops without error whatever it waited for; otherwise a subgroup is
/// served, the end of the reader stops without error, a reader error or a
/// closing error stops with that error, and a close without error stops
/// without error.
pub open spec fn subgroups_step(consecutive: int, event: SubgroupsEvent) -> SubgroupsStep {
    if consecutive >= MAX_CONSECUTIVE_FAILURES {
        SubgroupsStep::Stop { result: Ok(()) }
    } else {
        match event {
            SubgroupsEvent::Subgroup => SubgroupsStep::Serve,
            SubgroupsEvent::ReaderEnded => SubgroupsStep::Stop { result: Ok(()) },
            SubgroupsEvent::ReaderFailed(e) => SubgroupsStep::Stop { result: Err(SessionError::Serve(e)) },
            SubgroupsEvent::Closed(Ok(())) => SubgroupsStep::Stop { result: Ok(()) },
            SubgroupsEvent::Closed(Err(e)) => SubgroupsStep::Stop { result: Err(SessionError::Serve(e)) },
        }
    }
}

impl SubgroupFailures {
    /// What serving subgroups does after `event`; see [`subgroups_step`].
    pub fn next_step(&self, event: SubgroupsEvent) -> (r: SubgroupsStep)
        ensures
            r == subgroups_step(self.consecutive as int, event),
    {
        if self.should_stop() {
            return SubgroupsStep::Stop { result: Ok(()) };
        }
        match event {
            SubgroupsEvent::Subgroup => SubgroupsStep::Serve,
            SubgroupsEvent::ReaderEnded => SubgroupsStep::Stop { result: Ok(()) },
            SubgroupsEvent::ReaderFailed(e) => SubgroupsStep::Stop { result: Err(SessionError::Serve(e)) },
            SubgroupsEvent::Closed(Ok(())) => SubgroupsStep::Stop { result: Ok(()) },
            SubgroupsEvent::Closed(Err(e)) => SubgroupsStep::Stop { result: Err(SessionError::Serve(e)) },
        }
    }
}

/// The error that an event carries: a reader error or a closing error.
pub open spec fn event_error(event: SubgroupsEvent) -> Option<ServeError> {
    match event {
        SubgroupsEvent::ReaderFailed(e) => Some(e),
        SubgroupsEvent::Closed(Err(e)) => Some(e),
        _ => None,
    }
}

/// Serving subgroups ends with an error only when reading subgroups fails
/// or the subscription is closed with an error, and then with that error;
/// every other way out (the reader ending, three failures in a row, a close
/// without error) ends without error.
pub proof fn lemma_subgroups_exit(consecutive: int, event: SubgroupsEvent)
    ensures
        (subgroups_step(consecutive, event) is Stop && subgroups_step(consecutive, event)->result is Err)
            <==> (consecutive < MAX_CONSECUTIVE_FAILURES && event_error(event) is Some),
        event_error(event) matches Some(e) ==> (consecutive < MAX_CONSECUTIVE_FAILURES
            ==> subgroups_step(consecutive, event) == (SubgroupsStep::Stop {
            result: Err(SessionError::Serve(e)),
        })),
        consecutive >= MAX_CONSECUTIVE_FAILURES ==> subgroups_step(consecutive, event) == (
        SubgroupsStep::Stop { result: Ok(()) }),
        subgroups_step(consecutive, event) is Serve <==> (consecutive < MAX_CONSECUTIVE_FAILURES
            && event is Subgroup),
{
}

/// The run of failures counts only consecutive failures: a subgroup that
/// finished or was still running resets it to nothing, whatever it was,
/// and a failed or panicked one extends it by exactly one.
pub proof fn lemma_success_resets_failures(consecutive: int)
    requires
        consecutive >= 0,
    ensures
        next_failures(consecutive, SubgroupOutcome::Finished) == 0,
        next_failures(consecutive, SubgroupOutcome::Running) == 0,
        next_failures(consecutive, SubgroupOutcome::Failed) == consecutive + 1,
        next_failures(consecutive, SubgroupOutcome::Panicked) == consecutive + 1,
        next_failures(
            next_failures(next_failures(consecutive, SubgroupOutcome::Finished), SubgroupOutcome::Failed),
            SubgroupOutcome::Failed,
        ) == 2,
{
}

/// Serving stops after three failed subgroups in a row, and never while the
/// last subgroup finished or was still running.
pub proof fn lemma_stop_after_consecutive_failures(outcome: SubgroupOutcome, consecutive: int)
    requires
        0 <= consecutive < MAX_CONSECUTIVE_FAILURES,
    ensures
        next_failures(
            next_failures(next_failures(0, SubgroupOutcome::Failed), SubgroupOutcome::Panicked),
            SubgroupOutcome::Failed,
        ) >= MAX_CONSECUTIVE_FAILURES,
        next_failures(next_failures(0, SubgroupOutcome::Failed), SubgroupOutcome::Failed)
            < MAX_CONSECUTIVE_FAILURES,
        (outcome == SubgroupOutcome::Finished || outcome == SubgroupOutcome::Running) ==> next_failures(
            consecutive,
            outcome,
        ) < MAX_CONSECUTIVE_FAILURES,
{
}

/// How a datagram is sent.
#[derive(Debug, Clone, Copy, PartialEq, Eq, Structural)]
pub enum DatagramSend {
    /// As a datagram.
    Datagram,
    /// As a single-object subgroup stream.
    Stream,
}

/// Whether datagrams go on streams after an attempt that the transport
/// `accepted` or not.
pub open spec fn next_fallback(use_stream_fallback: bool, accepted: bool) -> bool {
    use_stream_fallback || !accepted
}

/// Whether datagrams have been found unsupported by the transport, after
/// which every datagram is sent on a stream of its own.
pub struct DatagramFallback {
    pub use_stream_fallback: bool,
}

impl DatagramFallback {
    /// Datagrams are tried first.
    pub fn new() -> (r: Self)
        ensures
            !r.use_stream_fallback,
    {
        DatagramFallback { use_stream_fallback: false }
    }

    /// How the next datagram is to be sent first.
    pub fn next_send(&self) -> (r: DatagramSend)
        ensures
            r == (if self.use_stream_fallback {
                DatagramSend::Stream
            } else {
                DatagramSend::Datagram
            }),
    {
        if self.use_stream_fallback {
            DatagramSend::Stream
        } else {
            DatagramSend::Datagram
        }
    }

    /// Account for an attempt to send a datagram as a datagram. Returns
    /// whether the datagram still has to be sent, on a stream: when the
    /// transport refused it, from then on every datagram goes on a stream.
    pub fn datagram_sent(&mut self, accepted: bool) -> (r: bool)
        ensures
            r == !accepted,
            final(self).use_stream_fallback == next_fallback(old(self).use_stream_fallback, accepted),
    {
        if accepted {
            false
        } else {
            self.use_stream_fallback = true;
            true
        }
    }
}

/// Once the transport refuses a datagram, every later datagram goes on a
/// stream, whatever happens afterwards; as long as datagrams are accepted,
/// none goes on a stream.
pub proof fn lemma_fallback_is_permanent(accepted: Seq<bool>)
    ensures
        accepted.fold_left(true, |f: bool, a: bool| next_fallback(f, a)),
        (forall|i: int| 0 <= i < accepted.len() ==> accepted[i]) ==> !accepted.fold_left(
            false,
            |f: bool, a: bool| next_fallback(f, a),
        ),
    decreases accepted.len(),
{
    if accepted.len() > 0 {
        lemma_fallback_is_permanent(accepted.drop_last());
    }
}

/// Datagrams go on streams from the first attempt the transport refuses
/// on, and never before: an accepted attempt keeps them as datagrams while
/// no attempt has been refused.
pub proof fn lemma_fallback_on_refusal(use_stream_fallback: bool)
    ensures
        next_fallback(use_stream_fallback, false),
        next_fallback(false, true) == false,
        next_fallback(true, true),
{
}

/// Header of a subgroup stream.
#[derive(Debug, Clone, Copy, PartialEq, Eq, Structural)]
pub struct SubgroupHeader {
    pub subscribe_id: u64,
    pub track_alias: u64,
    pub group_id: u64,
    pub subgroup_id: u64,
    pub publisher_priority: u8,
}

/// Header of one object within a subgroup stream.
#[derive(Debug, Clone, Copy, PartialEq, Eq, Structural)]
pub struct SubgroupObject {
    pub object_id: u64,
    pub size: usize,
    pub status: u64,
}

/// Header of a stream that carries a whole track.
#[derive(Debug, Clone, Copy, PartialEq, Eq, Structural)]
pub struct TrackHeader {
    pub subscribe_id: u64,
    pub track_alias: u64,
    pub publisher_priority: u8,
}

/// Header of one object within a track stream.
#[derive(Debug, Clone, Copy, PartialEq, Eq, Structural)]
pub struct TrackObject {
    pub group_id: u64,
    pub object_id: u64,
    pub size: usize,
    pub status: u64,
}

/// An object as read from a track stream being served.
pub struct StreamObjectInfo {
    pub group_id: u64,
    pub object_id: u64,
    pub size: usize,
    pub status: u64,
}

/// The header sent before an object's payload on a track stream: its group,
/// its id, its size and its status.
pub fn track_object(object: &StreamObjectInfo) -> (r: TrackObject)
    ensures
        r == (TrackObject {
            group_id: object.group_id,
            object_id: object.object_id,
            size: object.size,
            status: object.status,
        }),
{
    TrackObject {
        group_id: object.group_id,
        object_id: object.object_id,
        size: object.size,
        status: object.status,
    }
}

/// A datagram as received from the track being served.
pub struct DatagramInfo {
    pub group_id: u64,
    pub object_id: u64,
    pub priority: u8,
    pub status: u64,
    pub payload_len: usize,
}

/// The stream headers that carry a datagram when datagrams are not
/// supported: the datagram becomes the only object of subgroup 0 of its
/// group, with the datagram's priority and its payload's size.
pub fn fallback_headers(subscribe_id: u64, track_alias: u64, datagram: &DatagramInfo) -> (r: (
    SubgroupHeader,
    SubgroupObject,
))
    ensures
        r.0 == (SubgroupHeader {
            subscribe_id,
            track_alias,
            group_id: datagram.group_id,
            subgroup_id: 0,
            publisher_priority: datagram.priority,
        }),
        r.1 == (SubgroupObject {
            object_id: datagram.object_id,
            size: datagram.payload_len,
            status: datagram.status,
        }),
{
    let header = SubgroupHeader {
        subscribe_id,
        track_alias,
        group_id: datagram.group_id,
        subgroup_id: 0,
        publisher_priority: datagram.priority,
    };
    let object = SubgroupObject {
        object_id: datagram.object_id,
        size: datagram.payload_len,
        status: datagram.status,
    };
    (header, object)
}

} // verus!

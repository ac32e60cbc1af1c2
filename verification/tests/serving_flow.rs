use moq_relay_ietf::cache::{KeyedCache, TrackKey};
use moq_relay_ietf::producer::{ProducerAction, ProducerEvent, ProducerPhase, ProducerServe};
use moq_relay_ietf::remote::{RemoteTrack, TrackAction, TrackEvent};
use moq_relay_ietf::serve::{SubgroupFailures, SubgroupOutcome, SubgroupsEvent, SubgroupsStep};
use moq_relay_ietf::consumer::{AnnounceAction, AnnounceEvent, AnnouncePhase, AnnounceServe};
use moq_relay_ietf::error::{ServeError, SessionError};
use moq_relay_ietf::message::Subscribe;
use moq_relay_ietf::remote::{ConnectionStatus, RemoteAction, RemoteEvent, RemoteSubscribe};
use moq_relay_ietf::serve::{track_object, StreamObjectInfo, TrackHeader, TrackObject};
use moq_relay_ietf::session::route_stream;
use moq_relay_ietf::setup::{ClientSetup, Role, DRAFT_07};
use moq_relay_ietf::subscribed::Subscribed;

#[test]
fn client_offers_its_role_and_draft_07_only() {
    for role in [Role::Publisher, Role::Subscriber, Role::Both] {
        let setup = ClientSetup::offer(role);
        assert_eq!(setup.role, role);
        assert_eq!(setup.versions, vec![DRAFT_07]);
        assert_eq!(setup.versions, vec![0xff00_0007]);
    }
}

#[test]
fn offered_setup_is_answered_and_understood() {
    let setup = ClientSetup::offer(Role::Publisher);
    let server = setup.answer(Role::Both).ok().unwrap();
    assert_eq!(server.version, DRAFT_07);
    assert_eq!(server.role, Role::Subscriber);
    assert_eq!(server.client_role(Role::Publisher).ok(), Some(Role::Publisher));
    assert!(matches!(
        ClientSetup::offer(Role::Publisher).answer(Role::Publisher),
        Err(SessionError::RoleIncompatible(Role::Publisher, Role::Publisher))
    ));
}

#[test]
fn stream_without_subscriber_is_role_violation() {
    assert!(route_stream(true).is_ok());
    assert!(matches!(route_stream(false), Err(SessionError::RoleViolation)));
}

fn run(serve: &mut AnnounceServe, events: &[AnnounceEvent]) -> Vec<AnnounceAction> {
    events.iter().map(|e| serve.step(*e)).collect()
}

#[test]
fn announce_with_api_sets_origin_then_registers_then_accepts() {
    let mut serve = AnnounceServe::new(true, false);
    let actions = run(
        &mut serve,
        &[
            AnnounceEvent::Begin,
            AnnounceEvent::Succeeded,
            AnnounceEvent::Succeeded,
            AnnounceEvent::Succeeded,
        ],
    );
    assert_eq!(
        actions,
        vec![
            AnnounceAction::SetOrigin,
            AnnounceAction::Register,
            AnnounceAction::SendOk,
            AnnounceAction::Wait
        ]
    );
    assert!(serve.origin_set && serve.registered && serve.ok_sent);
    assert_eq!(serve.phase, AnnouncePhase::Serving);
}

#[test]
fn announce_without_api_registers_first_and_forwards() {
    let mut serve = AnnounceServe::new(false, true);
    let actions = run(
        &mut serve,
        &[AnnounceEvent::Begin, AnnounceEvent::Succeeded, AnnounceEvent::Succeeded],
    );
    assert_eq!(
        actions,
        vec![AnnounceAction::Register, AnnounceAction::SendOk, AnnounceAction::Forward]
    );
    assert!(!serve.origin_set);
}

#[test]
fn failed_origin_ends_without_announce_ok() {
    let mut serve = AnnounceServe::new(true, false);
    let actions = run(&mut serve, &[AnnounceEvent::Begin, AnnounceEvent::Failed]);
    assert_eq!(actions, vec![AnnounceAction::SetOrigin, AnnounceAction::Fail]);
    assert!(!serve.ok_sent);
    assert_eq!(serve.phase, AnnouncePhase::Done);
}

#[test]
fn failed_registration_ends_without_announce_ok() {
    let mut serve = AnnounceServe::new(false, false);
    let actions = run(&mut serve, &[AnnounceEvent::Begin, AnnounceEvent::Failed]);
    assert_eq!(actions, vec![AnnounceAction::Register, AnnounceAction::Fail]);
    assert!(!serve.ok_sent && !serve.registered);
}

#[test]
fn serving_forwards_subscribes_until_closed() {
    let mut serve = AnnounceServe::new(false, false);
    run(
        &mut serve,
        &[AnnounceEvent::Begin, AnnounceEvent::Succeeded, AnnounceEvent::Succeeded],
    );
    assert_eq!(serve.step(AnnounceEvent::TrackRequested), AnnounceAction::ForwardSubscribe);
    assert_eq!(serve.step(AnnounceEvent::TaskFinished), AnnounceAction::Wait);
    assert_eq!(serve.step(AnnounceEvent::Failed), AnnounceAction::Fail);
    assert_eq!(serve.phase, AnnouncePhase::Done);
}

#[test]
fn serving_ends_cleanly_when_exhausted() {
    let mut serve = AnnounceServe::new(false, false);
    run(
        &mut serve,
        &[AnnounceEvent::Begin, AnnounceEvent::Succeeded, AnnounceEvent::Succeeded],
    );
    assert_eq!(serve.step(AnnounceEvent::Exhausted), AnnounceAction::Finish);
}

fn url(s: &str) -> String {
    s.to_string()
}

#[test]
fn failed_lookup_gives_no_track_and_keeps_cache() {
    let mut cache: KeyedCache<String, u32> = KeyedCache::new();
    cache.insert(url("https://a"), 1);
    let (state, action) = RemoteSubscribe::Lookup.step(RemoteEvent::LookupFailed, &mut cache);
    assert!(matches!(state, RemoteSubscribe::Done));
    assert!(matches!(action, RemoteAction::ReturnNone));
    assert!(cache.contains(&url("https://a")));
}

#[test]
fn new_connection_is_cached_and_used() {
    let mut cache: KeyedCache<String, u32> = KeyedCache::new();
    let (state, action) = RemoteSubscribe::Lookup
        .step(RemoteEvent::LookupFound { url: url("https://b") }, &mut cache);
    assert!(matches!(action, RemoteAction::Connect { ref url } if url == "https://b"));
    let (state, action) = state.step(RemoteEvent::Connected { remote: 7 }, &mut cache);
    assert!(matches!(action, RemoteAction::Subscribe { ref url } if url == "https://b"));
    assert_eq!(cache.get(&url("https://b")), Some(&7));
    let (state, action) = state.step(RemoteEvent::Subscribed, &mut cache);
    assert!(matches!(state, RemoteSubscribe::Done));
    assert!(matches!(action, RemoteAction::ReturnTrack));
}

#[test]
fn failed_connection_is_not_cached() {
    let mut cache: KeyedCache<String, u32> = KeyedCache::new();
    cache.insert(url("https://c"), 3);
    let state = RemoteSubscribe::Connecting { url: url("https://c") };
    let (_, action) = state.step(RemoteEvent::ConnectFailed, &mut cache);
    assert!(matches!(action, RemoteAction::ReturnError { removed: Some(3) }));
    assert!(!cache.contains(&url("https://c")));
}

#[test]
fn failed_subscription_evicts_only_dead_connection() {
    let mut cache: KeyedCache<String, u32> = KeyedCache::new();
    cache.insert(url("https://d"), 4);
    let alive = RemoteSubscribe::Subscribing { url: url("https://d") };
    let (_, action) = alive.step(RemoteEvent::SubscribeFailed { connected: true }, &mut cache);
    assert!(matches!(action, RemoteAction::ReturnError { removed: None }));
    assert!(cache.contains(&url("https://d")));
    let dead = RemoteSubscribe::Subscribing { url: url("https://d") };
    let (_, action) = dead.step(RemoteEvent::SubscribeFailed { connected: false }, &mut cache);
    assert!(matches!(action, RemoteAction::ReturnError { removed: Some(4) }));
    assert!(!cache.contains(&url("https://d")));
}

#[test]
fn reused_connection_leaves_cache() {
    let mut cache: KeyedCache<String, u32> = KeyedCache::new();
    cache.insert(url("https://e"), 5);
    let state = RemoteSubscribe::Connecting { url: url("https://e") };
    let (_, action) = state.step(RemoteEvent::Reused, &mut cache);
    assert!(matches!(action, RemoteAction::Subscribe { ref url } if url == "https://e"));
    assert_eq!(cache.get(&url("https://e")), Some(&5));
}

#[test]
fn connection_stays_dead() {
    let mut status = ConnectionStatus::new();
    assert!(status.is_connected());
    status.session_ended();
    assert!(!status.is_connected());
    status.shutdown();
    assert!(!status.is_connected());
    let mut other = ConnectionStatus::new();
    other.shutdown();
    assert!(!other.is_connected());
}

fn subscribe_msg() -> Subscribe {
    Subscribe {
        id: 9,
        track_alias: 4,
        track_namespace: vec!["live".to_string()],
        track_name: "video".to_string(),
    }
}

#[test]
fn track_stream_headers() {
    let (sub, _recv, _state) = Subscribed::new(subscribe_msg());
    assert_eq!(
        sub.track_header(3),
        TrackHeader { subscribe_id: 9, track_alias: 4, publisher_priority: 3 }
    );
    let object = StreamObjectInfo { group_id: 12, object_id: 5, size: 1200, status: 0 };
    assert_eq!(
        track_object(&object),
        TrackObject { group_id: 12, object_id: 5, size: 1200, status: 0 }
    );
}

#[test]
fn failed_serving_closes_and_returns_failure() {
    let (sub, _recv, mut state) = Subscribed::new(subscribe_msg());
    let r = sub.serve_outcome(&mut state, Err(SessionError::Closed), ServeError::Cancel);
    assert!(matches!(r, Err(SessionError::Closed)));
    assert_eq!(state.value.closed, Err(ServeError::Cancel));
}

#[test]
fn failed_serving_reports_close_error_when_already_closed() {
    let (sub, _recv, mut state) = Subscribed::new(subscribe_msg());
    assert_eq!(sub.close(&mut state, ServeError::NotFound), Ok(()));
    let r = sub.serve_outcome(&mut state, Err(SessionError::Closed), ServeError::Cancel);
    assert!(matches!(r, Err(SessionError::Serve(ServeError::NotFound))));
}

#[test]
fn successful_serving_leaves_subscription_open() {
    let (sub, _recv, mut state) = Subscribed::new(subscribe_msg());
    assert!(sub.serve_outcome(&mut state, Ok(()), ServeError::Done).is_ok());
    assert_eq!(state.value.closed, Ok(()));
}

fn track_key(name: &str) -> TrackKey {
    TrackKey { namespace: vec!["live".to_string()], name: name.to_string() }
}

#[test]
fn repeat_track_requests_share_one_subscription() {
    let mut tracks: KeyedCache<TrackKey, u32> = KeyedCache::new();
    let (state, action) =
        RemoteTrack::Requested.step(track_key("v"), TrackEvent::Request { connected: true }, &mut tracks);
    assert_eq!(action, TrackAction::Produce);
    let (running, action) = state.step(track_key("v"), TrackEvent::Produced { reader: 11 }, &mut tracks);
    assert_eq!(action, TrackAction::Subscribe);
    assert_eq!(running, RemoteTrack::Subscribed);
    assert_eq!(tracks.get(&track_key("v")), Some(&11));

    let (state, action) =
        RemoteTrack::Requested.step(track_key("v"), TrackEvent::Request { connected: true }, &mut tracks);
    assert_eq!(action, TrackAction::HandOutCached);
    assert_eq!(state, RemoteTrack::Ended);
    assert_eq!(tracks.len(), 1);

    let (state, action) = running.step(track_key("v"), TrackEvent::SubscriptionEnded, &mut tracks);
    assert_eq!(action, TrackAction::Finished);
    assert_eq!(state, RemoteTrack::Ended);
    assert!(!tracks.contains(&track_key("v")));

    let (_, action) =
        RemoteTrack::Requested.step(track_key("v"), TrackEvent::Request { connected: true }, &mut tracks);
    assert_eq!(action, TrackAction::Produce);
}

#[test]
fn track_request_on_closed_connection_changes_nothing() {
    let mut tracks: KeyedCache<TrackKey, u32> = KeyedCache::new();
    tracks.insert(track_key("a"), 1);
    let (state, action) =
        RemoteTrack::Requested.step(track_key("a"), TrackEvent::Request { connected: false }, &mut tracks);
    assert_eq!(action, TrackAction::Closed);
    assert_eq!(state, RemoteTrack::Ended);
    assert_eq!(tracks.get(&track_key("a")), Some(&1));
}

#[test]
fn producer_serves_local_first() {
    let mut p = ProducerServe::new(true, true);
    assert_eq!(p.step(ProducerEvent::LocalSearched { found: true }), ProducerAction::ServeLocal);
    assert_eq!(p.phase, ProducerPhase::Serving);
    assert_eq!(p.step(ProducerEvent::Served), ProducerAction::Finish);
    assert_eq!(p.phase, ProducerPhase::Done);
}

#[test]
fn producer_remote_lookup_failure_ends_serving() {
    let mut p = ProducerServe::new(true, true);
    assert_eq!(p.step(ProducerEvent::LocalSearched { found: false }), ProducerAction::RouteRemote);
    assert_eq!(p.step(ProducerEvent::Failed), ProducerAction::Fail);
    assert_eq!(p.phase, ProducerPhase::Done);
}

#[test]
fn producer_remote_then_upstream_then_not_found() {
    let mut p = ProducerServe::new(true, false);
    p.step(ProducerEvent::LocalSearched { found: false });
    assert_eq!(p.step(ProducerEvent::Found), ProducerAction::SubscribeRemote);
    assert_eq!(p.step(ProducerEvent::Found), ProducerAction::ServeRemote);

    let mut p = ProducerServe::new(true, true);
    p.step(ProducerEvent::LocalSearched { found: false });
    assert_eq!(p.step(ProducerEvent::NotFound), ProducerAction::ServeUpstream);

    let mut p = ProducerServe::new(true, false);
    p.step(ProducerEvent::LocalSearched { found: false });
    p.step(ProducerEvent::Found);
    assert_eq!(p.step(ProducerEvent::NotFound), ProducerAction::NotFound);

    let mut p = ProducerServe::new(false, false);
    assert_eq!(p.step(ProducerEvent::LocalSearched { found: false }), ProducerAction::NotFound);
}

#[test]
fn subgroups_exits() {
    let mut f = SubgroupFailures::new();
    assert!(matches!(f.next_step(SubgroupsEvent::Subgroup), SubgroupsStep::Serve));
    assert!(matches!(f.next_step(SubgroupsEvent::ReaderEnded), SubgroupsStep::Stop { result: Ok(()) }));
    assert!(matches!(
        f.next_step(SubgroupsEvent::ReaderFailed(ServeError::Cancel)),
        SubgroupsStep::Stop { result: Err(SessionError::Serve(ServeError::Cancel)) }
    ));
    assert!(matches!(
        f.next_step(SubgroupsEvent::Closed(Err(ServeError::Done))),
        SubgroupsStep::Stop { result: Err(SessionError::Serve(ServeError::Done)) }
    ));
    assert!(matches!(f.next_step(SubgroupsEvent::Closed(Ok(()))), SubgroupsStep::Stop { result: Ok(()) }));
    f.record(SubgroupOutcome::Failed);
    f.record(SubgroupOutcome::Panicked);
    f.record(SubgroupOutcome::Failed);
    assert!(matches!(f.next_step(SubgroupsEvent::Subgroup), SubgroupsStep::Stop { result: Ok(()) }));
    assert!(matches!(
        f.next_step(SubgroupsEvent::ReaderFailed(ServeError::Cancel)),
        SubgroupsStep::Stop { result: Ok(()) }
    ));
}

use moq_relay_ietf::announce::{Announce, AnnounceRecv, AnnounceState};
use moq_relay_ietf::error::{ServeError, SessionError};
use moq_relay_ietf::message::{ControlMessage, GroupOrder, Subscribe, TrackStatusRequest};
use moq_relay_ietf::session::{
    route_datagram, route_message, MessageKind, MessageTarget, StreamErrors,
    MAX_CONSECUTIVE_STREAM_ERRORS,
};
use moq_relay_ietf::setup::{negotiate_role, ClientSetup, Role, ServerSetup, DRAFT_07};
use moq_relay_ietf::subscribed::{Subscribed, SubscribedState, MAX_SUBSCRIBED_DROP_DEPTH};
use moq_relay_ietf::track_status_requested::TrackStatusRequested;
use moq_relay_ietf::watch::State;

fn ns(parts: &[&str]) -> Vec<String> {
    parts.iter().map(|s| s.to_string()).collect()
}

fn subscribe(id: u64) -> Subscribe {
    Subscribe {
        id,
        track_alias: id + 100,
        track_namespace: ns(&["live", "room"]),
        track_name: "video".to_string(),
    }
}

// Role negotiation.

#[test]
fn negotiation_keeps_role_against_both() {
    for role in [Role::Publisher, Role::Subscriber, Role::Both] {
        assert_eq!(negotiate_role(Role::Both, role).ok(), Some(role));
    }
}

#[test]
fn negotiation_takes_opposite_role() {
    assert_eq!(negotiate_role(Role::Publisher, Role::Both).ok(), Some(Role::Subscriber));
    assert_eq!(negotiate_role(Role::Subscriber, Role::Both).ok(), Some(Role::Publisher));
    assert_eq!(negotiate_role(Role::Publisher, Role::Subscriber).ok(), Some(Role::Subscriber));
    assert_eq!(negotiate_role(Role::Subscriber, Role::Publisher).ok(), Some(Role::Publisher));
}

#[test]
fn negotiation_refuses_same_single_role() {
    match negotiate_role(Role::Publisher, Role::Publisher) {
        Err(SessionError::RoleIncompatible(p, o)) => {
            assert_eq!(p, Role::Publisher);
            assert_eq!(o, Role::Publisher);
        }
        _ => panic!("expected RoleIncompatible"),
    }
    assert!(matches!(
        negotiate_role(Role::Subscriber, Role::Subscriber),
        Err(SessionError::RoleIncompatible(Role::Subscriber, Role::Subscriber))
    ));
}

#[test]
fn role_predicates() {
    assert!(Role::Publisher.is_publisher() && !Role::Publisher.is_subscriber());
    assert!(!Role::Subscriber.is_publisher() && Role::Subscriber.is_subscriber());
    assert!(Role::Both.is_publisher() && Role::Both.is_subscriber());
}

#[test]
fn draft_07_value() {
    assert_eq!(DRAFT_07, 0xff000007);
}

#[test]
fn server_answers_supported_client() {
    let client = ClientSetup { role: Role::Publisher, versions: vec![1, DRAFT_07] };
    let server = client.answer(Role::Both).ok().unwrap();
    assert_eq!(server.role, Role::Subscriber);
    assert_eq!(server.version, DRAFT_07);
}

#[test]
fn server_refuses_unknown_version() {
    let client = ClientSetup { role: Role::Both, versions: vec![1, 2] };
    match client.answer(Role::Both) {
        Err(SessionError::Version(offered, supported)) => {
            assert_eq!(offered, vec![1, 2]);
            assert_eq!(supported, vec![DRAFT_07]);
        }
        _ => panic!("expected a version error"),
    }
}

#[test]
fn server_refuses_incompatible_roles() {
    let client = ClientSetup { role: Role::Subscriber, versions: vec![DRAFT_07] };
    assert!(matches!(
        client.answer(Role::Subscriber),
        Err(SessionError::RoleIncompatible(Role::Subscriber, Role::Subscriber))
    ));
}

#[test]
fn client_role_from_server_setup() {
    let server = ServerSetup { role: Role::Publisher, version: DRAFT_07 };
    assert_eq!(server.client_role(Role::Both).ok(), Some(Role::Subscriber));
    assert!(server.client_role(Role::Publisher).is_err());
}

// Message routing and stream failures.

#[test]
fn messages_go_to_the_matching_half() {
    assert_eq!(
        route_message(MessageKind::FromPublisher, false, true).ok(),
        Some(MessageTarget::Subscriber)
    );
    assert_eq!(
        route_message(MessageKind::FromSubscriber, true, false).ok(),
        Some(MessageTarget::Publisher)
    );
    assert!(matches!(
        route_message(MessageKind::FromPublisher, true, false),
        Err(SessionError::RoleViolation)
    ));
    assert!(matches!(
        route_message(MessageKind::FromSubscriber, false, true),
        Err(SessionError::RoleViolation)
    ));
}

#[test]
fn datagram_routing() {
    assert_eq!(route_datagram(false, true).ok(), Some(false));
    assert_eq!(route_datagram(true, true).ok(), Some(true));
    assert!(matches!(route_datagram(true, false), Err(SessionError::RoleViolation)));
}

#[test]
fn stream_errors_end_session_at_limit() {
    let mut errors = StreamErrors::new();
    for _ in 0..MAX_CONSECUTIVE_STREAM_ERRORS - 1 {
        assert!(errors.record_failure().is_ok());
    }
    assert!(matches!(
        errors.record_failure(),
        Err(SessionError::Serve(ServeError::Done))
    ));
    assert_eq!(errors.consecutive, 50);
}

#[test]
fn stream_success_resets_errors() {
    let mut errors = StreamErrors::new();
    for _ in 0..10 {
        assert!(errors.record_failure().is_ok());
    }
    errors.record_success();
    assert_eq!(errors.consecutive, 0);
}

// Subscriptions.

#[test]
fn max_group_id_moves_only_forward() {
    let mut s = SubscribedState::default();
    assert!(s.update_max_group_id(5, 5).is_ok());
    assert_eq!(s.max_group_id, None);

    s.max_group_id = Some((2, 3));
    s.update_max_group_id(3, 4).unwrap();
    assert_eq!(s.max_group_id, Some((3, 4)));
    s.update_max_group_id(4, 1).unwrap();
    assert_eq!(s.max_group_id, Some((3, 4)));
    s.update_max_group_id(1, 9).unwrap();
    assert_eq!(s.max_group_id, Some((3, 4)));
    s.update_max_group_id(3, 4).unwrap();
    assert_eq!(s.max_group_id, Some((3, 4)));
}

#[test]
fn subscribed_new_copies_request() {
    let (sub, recv, state) = Subscribed::new(subscribe(7));
    assert_eq!(sub.id, 7);
    assert_eq!(sub.track_alias, 107);
    assert_eq!(sub.info.namespace, ns(&["live", "room"]));
    assert_eq!(sub.info.name, "video");
    assert!(!sub.ok);
    assert_eq!(recv.id, 7);
    assert_eq!(state.value.max_group_id, None);
    assert!(state.value.closed.is_ok());
    assert!(!state.dropped);
}

#[test]
fn start_sends_subscribe_ok() {
    let (mut sub, _recv, mut state) = Subscribed::new(subscribe(3));
    match sub.start(&mut state, Some((10, 2))) {
        Ok(ControlMessage::SubscribeOk { id, expires, group_order, latest }) => {
            assert_eq!(id, 3);
            assert_eq!(expires, None);
            assert_eq!(group_order, GroupOrder::Descending);
            assert_eq!(latest, Some((10, 2)));
        }
        _ => panic!("expected SUBSCRIBE_OK"),
    }
    assert!(sub.ok);
    assert_eq!(state.value.max_group_id, Some((10, 2)));
}

#[test]
fn start_after_drop_is_cancelled() {
    let (mut sub, _recv, mut state) = Subscribed::new(subscribe(3));
    state.mark_dropped();
    assert!(matches!(sub.start(&mut state, None), Err(ServeError::Cancel)));
    assert!(!sub.ok);
}

#[test]
fn record_object_updates_or_reports_done() {
    let (mut sub, _recv, mut state) = Subscribed::new(subscribe(1));
    sub.start(&mut state, Some((0, 0))).ok().unwrap();
    assert!(sub.record_object(&mut state, 1, 1).is_ok());
    assert_eq!(state.value.max_group_id, Some((1, 1)));
    state.mark_dropped();
    assert_eq!(sub.record_object(&mut state, 2, 2), Err(ServeError::Done));
    assert_eq!(state.value.max_group_id, Some((1, 1)));
}

#[test]
fn close_then_closed_reports_error() {
    let (sub, _recv, mut state) = Subscribed::new(subscribe(1));
    assert_eq!(sub.closed(&state), None);
    assert_eq!(sub.close(&mut state, ServeError::NotFound), Ok(()));
    assert_eq!(sub.closed(&state), Some(Err(ServeError::NotFound)));
    assert_eq!(sub.close(&mut state, ServeError::Cancel), Err(ServeError::NotFound));
}

#[test]
fn close_after_drop_is_done() {
    let (sub, _recv, mut state) = Subscribed::new(subscribe(1));
    state.mark_dropped();
    assert_eq!(sub.closed(&state), Some(Ok(())));
    assert_eq!(sub.close(&mut state, ServeError::NotFound), Err(ServeError::Done));
}

#[test]
fn unsubscribe_cancels() {
    let (sub, mut recv, mut state) = Subscribed::new(subscribe(1));
    assert_eq!(recv.recv_unsubscribe(&mut state), Ok(()));
    assert_eq!(sub.closed(&state), Some(Err(ServeError::Cancel)));
    assert_eq!(recv.recv_unsubscribe(&mut state), Err(ServeError::Cancel));
}

#[test]
fn drop_message_before_and_after_accepting() {
    let (mut sub, _recv, mut state) = Subscribed::new(subscribe(9));
    match sub.drop_message(&state, 0) {
        Some(ControlMessage::SubscribeError { id, alias, error }) => {
            assert_eq!(id, 9);
            assert_eq!(alias, 0);
            assert_eq!(error, ServeError::Done);
        }
        _ => panic!("expected SUBSCRIBE_ERROR"),
    }
    sub.start(&mut state, Some((4, 5))).ok().unwrap();
    sub.close(&mut state, ServeError::Cancel).unwrap();
    match sub.drop_message(&state, MAX_SUBSCRIBED_DROP_DEPTH) {
        Some(ControlMessage::SubscribeDone { id, last, error }) => {
            assert_eq!(id, 9);
            assert_eq!(last, Some((4, 5)));
            assert_eq!(error, ServeError::Cancel);
        }
        _ => panic!("expected SUBSCRIBE_DONE"),
    }
    assert!(sub.drop_message(&state, MAX_SUBSCRIBED_DROP_DEPTH + 1).is_none());
}

// Announcements.

type AnnounceCell = State<AnnounceState<u32, &'static str>>;

fn announce() -> (Announce, AnnounceRecv, AnnounceCell, ControlMessage) {
    Announce::new(ns(&["live"]))
}

#[test]
fn announce_new_sends_announce() {
    let (a, _recv, state, msg) = announce();
    assert_eq!(a.info.namespace, ns(&["live"]));
    match msg {
        ControlMessage::Announce { namespace } => assert_eq!(namespace, ns(&["live"])),
        _ => panic!("expected ANNOUNCE"),
    }
    assert!(state.value.subscribers.is_empty());
    assert!(!state.value.ok);
}

#[test]
fn announce_ok_once() {
    let (a, mut recv, mut state, _) = announce();
    assert_eq!(a.ok(&state), None);
    assert_eq!(recv.recv_ok(&mut state), Ok(()));
    assert_eq!(a.ok(&state), Some(Ok(())));
    assert_eq!(recv.recv_ok(&mut state), Err(ServeError::Duplicate));
}

#[test]
fn announce_ok_ignored_after_drop() {
    let (_a, mut recv, mut state, _) = announce();
    state.mark_dropped();
    assert_eq!(recv.recv_ok(&mut state), Ok(()));
    assert!(!state.value.ok);
}

#[test]
fn subscribers_come_out_in_order() {
    let (a, mut recv, mut state, _) = announce();
    assert_eq!(a.subscribed(&mut state), None);
    recv.recv_subscribe(&mut state, 1).unwrap();
    recv.recv_subscribe(&mut state, 2).unwrap();
    assert_eq!(a.subscribed(&mut state), Some(Ok(Some(1))));
    assert_eq!(a.subscribed(&mut state), Some(Ok(Some(2))));
    assert_eq!(a.subscribed(&mut state), None);
}

#[test]
fn track_status_requests_come_out_in_order() {
    let (a, mut recv, mut state, _) = announce();
    recv.recv_track_status_requested(&mut state, "a").unwrap();
    recv.recv_track_status_requested(&mut state, "b").unwrap();
    assert_eq!(a.track_status_requested(&mut state), Some(Ok(Some("a"))));
    assert_eq!(a.track_status_requested(&mut state), Some(Ok(Some("b"))));
    assert_eq!(a.track_status_requested(&mut state), None);
}

#[test]
fn announce_error_is_reported_and_kept() {
    let (a, recv, mut state, _) = announce();
    assert_eq!(recv.recv_error(&mut state, ServeError::NotFound), Ok(()));
    assert_eq!(a.closed(&state), Some(Err(ServeError::NotFound)));
    assert_eq!(a.ok(&state), Some(Err(ServeError::NotFound)));
    assert_eq!(a.subscribed(&mut state), Some(Err(ServeError::NotFound)));
    assert!(a.drop_message(&state).is_none());
    let again = AnnounceRecv {};
    assert_eq!(again.recv_error(&mut state, ServeError::Cancel), Err(ServeError::NotFound));
}

#[test]
fn announce_after_drop() {
    let (a, mut recv, mut state, _) = announce();
    recv.recv_subscribe(&mut state, 5).unwrap();
    state.mark_dropped();
    assert_eq!(a.subscribed(&mut state), Some(Ok(None)));
    assert_eq!(a.closed(&state), Some(Ok(())));
    assert_eq!(recv.recv_subscribe(&mut state, 6), Err(ServeError::Done));
    assert_eq!(
        recv.recv_track_status_requested(&mut state, "x"),
        Err(ServeError::Done)
    );
    assert_eq!(AnnounceRecv {}.recv_error(&mut state, ServeError::Cancel), Err(ServeError::Done));
}

#[test]
fn announce_drop_sends_unannounce() {
    let (a, _recv, state, _) = announce();
    match a.drop_message(&state) {
        Some(ControlMessage::Unannounce { namespace }) => assert_eq!(namespace, ns(&["live"])),
        _ => panic!("expected UNANNOUNCE"),
    }
}

#[test]
fn drained_subscribers_are_handed_out() {
    let (_a, mut recv, mut state, _) = announce();
    recv.recv_subscribe(&mut state, 1).unwrap();
    recv.recv_subscribe(&mut state, 2).unwrap();
    let drained = state.value.drain_subscribers();
    assert_eq!(drained.into_iter().collect::<Vec<_>>(), vec![1, 2]);
    assert!(state.value.subscribers.is_empty());
}

#[test]
fn track_status_requested_copies_request() {
    let req = TrackStatusRequested::new(TrackStatusRequest {
        track_namespace: ns(&["a", "b"]),
        track_name: "t".to_string(),
    });
    assert_eq!(req.info.namespace, ns(&["a", "b"]));
    assert_eq!(req.info.track, "t");
}

use moq_relay_ietf::coordinator::{NamespaceOrigin, TrackInfo};
use moq_relay_ietf::coordinator_local::LocalCoordinator;

fn create_coordinator() -> LocalCoordinator {
    LocalCoordinator::default()
}

fn track(namespace: &str, name: &str, alias: u64) -> TrackInfo {
    TrackInfo {
        namespace: namespace.to_string(),
        track_name: name.to_string(),
        track_alias: alias,
    }
}

#[test]
fn test_register_namespace() {
    let mut coord = create_coordinator();

    let _reg = coord.register_namespace("live/stream");

    assert!(coord.has_namespace("live/stream"));
    assert_eq!(coord.namespace_count(), 1);
}

#[test]
fn test_unregister_namespace() {
    let mut coord = create_coordinator();

    let _reg = coord.register_namespace("live/stream");
    assert!(coord.has_namespace("live/stream"));

    coord.unregister_namespace("live/stream");
    assert!(!coord.has_namespace("live/stream"));
    assert_eq!(coord.namespace_count(), 0);
}

#[test]
fn test_register_track() {
    let mut coord = create_coordinator();

    let _ns_reg = coord.register_namespace("live/stream");

    let _track_reg = coord.register_track(track("live/stream", "audio", 1));

    assert!(coord.has_track("live/stream", "audio"));
    assert_eq!(coord.track_count("live/stream"), 1);
}

#[test]
fn test_unregister_track_keeps_namespace() {
    let mut coord = create_coordinator();

    let _ns_reg = coord.register_namespace("live/stream");
    let _track_reg = coord.register_track(track("live/stream", "audio", 1));

    coord.unregister_track("live/stream", "audio");

    assert!(!coord.has_track("live/stream", "audio"));
    assert!(coord.has_namespace("live/stream"));
}

#[test]
fn test_unregister_namespace_removes_tracks() {
    let mut coord = create_coordinator();

    let _ns_reg = coord.register_namespace("live/stream");
    let _track_reg = coord.register_track(track("live/stream", "audio", 1));

    coord.unregister_namespace("live/stream");

    assert!(!coord.has_namespace("live/stream"));
    assert_eq!(coord.track_count("live/stream"), 0);
}

#[test]
fn test_lookup_local() {
    let mut coord = create_coordinator();

    let _reg = coord.register_namespace("live/stream");

    let result = coord.lookup("live/stream");
    assert_eq!(result, Some(NamespaceOrigin::Local));
}

#[test]
fn test_lookup_not_found() {
    let coord = create_coordinator();

    let result = coord.lookup("unknown/stream");
    assert_eq!(result, None);
}

#[test]
fn test_shutdown_clears_all() {
    let mut coord = create_coordinator();

    let _ns1_reg = coord.register_namespace("ns1");
    let _ns2_reg = coord.register_namespace("ns2");
    let _track_reg = coord.register_track(track("ns1", "track1", 1));

    coord.shutdown();

    assert_eq!(coord.namespace_count(), 0);
    assert_eq!(coord.track_count("ns1"), 0);
}

#[test]
fn test_multiple_tracks_per_namespace() {
    let mut coord = create_coordinator();

    let _ns_reg = coord.register_namespace("live/stream");

    let mut _track_regs = Vec::new();
    for (i, name) in ["audio", "video", "data"].iter().enumerate() {
        _track_regs.push(coord.register_track(track("live/stream", name, i as u64)));
    }

    assert_eq!(coord.track_count("live/stream"), 3);
    assert!(coord.has_track("live/stream", "audio"));
    assert!(coord.has_track("live/stream", "video"));
    assert!(coord.has_track("live/stream", "data"));
}

#[test]
fn test_drop_unregisters_namespace() {
    let mut coord = create_coordinator();

    {
        let reg = coord.register_namespace("live/stream");
        assert!(coord.has_namespace("live/stream"));
        // the registration ends here
        reg.into_inner().release(&mut coord);
    }

    assert!(!coord.has_namespace("live/stream"));
    assert_eq!(coord.namespace_count(), 0);
}

#[test]
fn test_drop_unregisters_track() {
    let mut coord = create_coordinator();

    let _ns_reg = coord.register_namespace("live/stream");

    {
        let track_reg = coord.register_track(track("live/stream", "audio", 1));
        assert!(coord.has_track("live/stream", "audio"));
        // the registration ends here
        track_reg.into_inner().release(&mut coord);
    }

    assert!(!coord.has_track("live/stream", "audio"));
    assert!(coord.has_namespace("live/stream"));
}

// Further properties of the coordinator.

#[test]
fn register_namespace_twice_counts_once() {
    let mut coord = LocalCoordinator::new();
    let _a = coord.register_namespace("a");
    let _b = coord.register_namespace("a");
    assert_eq!(coord.namespace_count(), 1);
}

#[test]
fn register_track_twice_counts_once() {
    let mut coord = LocalCoordinator::new();
    let _a = coord.register_track(track("ns", "t", 1));
    let _b = coord.register_track(track("ns", "t", 2));
    assert_eq!(coord.track_count("ns"), 1);
}

#[test]
fn register_track_does_not_register_namespace() {
    let mut coord = LocalCoordinator::new();
    let _t = coord.register_track(track("ns", "t", 1));
    assert!(!coord.has_namespace("ns"));
    assert_eq!(coord.lookup("ns"), None);
    assert!(coord.has_track("ns", "t"));
}

#[test]
fn unregister_namespace_keeps_other_namespaces() {
    let mut coord = LocalCoordinator::new();
    let _a = coord.register_namespace("a");
    let _b = coord.register_namespace("b");
    let _ta = coord.register_track(track("a", "x", 1));
    let _tb = coord.register_track(track("b", "x", 2));
    let _tb2 = coord.register_track(track("b", "y", 3));
    coord.unregister_namespace("a");
    assert!(!coord.has_namespace("a"));
    assert!(coord.has_namespace("b"));
    assert_eq!(coord.track_count("a"), 0);
    assert_eq!(coord.track_count("b"), 2);
    assert_eq!(coord.lookup("b"), Some(NamespaceOrigin::Local));
}

#[test]
fn registration_handle_names_what_it_registered() {
    let mut coord = LocalCoordinator::new();
    let reg = coord.register_namespace("live");
    assert_eq!(reg.inner().namespace, "live");
    let treg = coord.register_track(track("live", "audio", 7));
    assert_eq!(treg.inner().namespace, "live");
    assert_eq!(treg.inner().track_name, "audio");
}

#[test]
fn unregister_unknown_is_harmless() {
    let mut coord = LocalCoordinator::new();
    let _a = coord.register_namespace("a");
    coord.unregister_namespace("zzz");
    coord.unregister_track("a", "missing");
    assert_eq!(coord.namespace_count(), 1);
}

#[test]
fn releasing_one_of_two_registrations_keeps_namespace() {
    let mut coord = LocalCoordinator::new();
    let first = coord.register_namespace("a");
    let second = coord.register_namespace("a");
    assert_ne!(first.inner().id, second.inner().id);
    first.into_inner().release(&mut coord);
    assert!(coord.has_namespace("a"));
    assert_eq!(coord.lookup("a"), Some(NamespaceOrigin::Local));
    second.into_inner().release(&mut coord);
    assert!(!coord.has_namespace("a"));
    assert_eq!(coord.lookup("a"), None);
}

#[test]
fn releasing_one_of_two_track_registrations_keeps_track() {
    let mut coord = LocalCoordinator::new();
    let first = coord.register_track(track("ns", "t", 1));
    let second = coord.register_track(track("ns", "t", 2));
    first.into_inner().release(&mut coord);
    assert!(coord.has_track("ns", "t"));
    second.into_inner().release(&mut coord);
    assert!(!coord.has_track("ns", "t"));
    assert_eq!(coord.track_count("ns"), 0);
}

#[test]
fn stale_handle_does_not_unregister_new_registration() {
    let mut coord = LocalCoordinator::new();
    let old = coord.register_namespace("a");
    coord.unregister_namespace("a");
    let _new = coord.register_namespace("a");
    old.into_inner().release(&mut coord);
    assert!(coord.has_namespace("a"));
}

#[test]
fn releasing_namespace_drops_its_tracks() {
    let mut coord = LocalCoordinator::new();
    let reg = coord.register_namespace("a");
    let _t = coord.register_track(track("a", "x", 1));
    reg.into_inner().release(&mut coord);
    assert!(!coord.has_track("a", "x"));
    assert_eq!(coord.track_count("a"), 0);
}

#[test]
fn handle_ids_count_up_and_survive_shutdown() {
    let mut coord = LocalCoordinator::new();
    assert!(coord.can_register());
    let a = coord.register_namespace("a");
    let b = coord.register_track(track("a", "x", 1));
    assert_eq!(a.inner().id, 0);
    assert_eq!(b.inner().id, 1);
    coord.shutdown();
    let c = coord.register_namespace("a");
    assert_eq!(c.inner().id, 2);
    a.into_inner().release(&mut coord);
    assert!(coord.has_namespace("a"));
}

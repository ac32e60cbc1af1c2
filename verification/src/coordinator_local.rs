//! In-memory coordinator for single-relay deployments.
//!
//! It tracks local namespaces and the tracks registered under them, and
//! answers lookups from that state alone: a namespace that is not local does
//! not exist. Every registration hands out a handle with an id of its own;
//! a namespace (or track) stays registered while any of its handles is held,
//! until it is unregistered explicitly.
use vstd::prelude::*;

use crate::cache::KeyedCache;
use crate::coordinator::{NamespaceOrigin, NamespaceRegistration, TrackInfo, TrackRegistration};
use crate::seq_facts::{lemma_push_fresh, lemma_remove_at};

verus! {

/// What a coordinator knows: for each registered namespace and each
/// registered (namespace, track name) pair, the ids of the registration
/// handles held for it; and the id the next handle gets.
pub struct CoordinatorView {
    pub namespaces: Map<Seq<char>, Set<u64>>,
    pub tracks: Map<(Seq<char>, Seq<char>), Set<u64>>,
    pub next_id: u64,
}

impl CoordinatorView {
    /// The names of the tracks registered under `namespace`.
    pub open spec fn tracks_under(self, namespace: Seq<char>) -> Set<Seq<char>> {
        Set::new(|t: Seq<char>| self.tracks.contains_key((namespace, t)))
    }

    /// The handles held for a namespace (none when it is not registered).
    pub open spec fn namespace_holders(self, namespace: Seq<char>) -> Set<u64> {
        if self.namespaces.contains_key(namespace) {
            self.namespaces[namespace]
        } else {
            Set::empty()
        }
    }

    /// The handles held for a track (none when it is not registered).
    pub open spec fn track_holders(self, namespace: Seq<char>, track: Seq<char>) -> Set<u64> {
        if self.tracks.contains_key((namespace, track)) {
            self.tracks[(namespace, track)]
        } else {
            Set::empty()
        }
    }

    /// The state with nothing registered, handing out ids from `next_id`.
    pub open spec fn empty(next_id: u64) -> CoordinatorView {
        CoordinatorView { namespaces: Map::empty(), tracks: Map::empty(), next_id }
    }

    /// Registering a namespace adds it, held by a new handle whose id is
    /// `next_id`; its tracks are kept.
    pub open spec fn after_register_namespace(self, namespace: Seq<char>) -> CoordinatorView {
        CoordinatorView {
            namespaces: self.namespaces.insert(
                namespace,
                self.namespace_holders(namespace).insert(self.next_id),
            ),
            tracks: self.tracks,
            next_id: (self.next_id + 1) as u64,
        }
    }

    /// Unregistering a namespace removes it together with all its tracks,
    /// whatever handles are held.
    pub open spec fn after_unregister_namespace(self, namespace: Seq<char>) -> CoordinatorView {
        CoordinatorView {
            namespaces: self.namespaces.remove(namespace),
            tracks: Map::new(
                |p: (Seq<char>, Seq<char>)| self.tracks.contains_key(p) && p.0 != namespace,
                |p: (Seq<char>, Seq<char>)| self.tracks[p],
            ),
            next_id: self.next_id,
        }
    }

    /// Registering a track adds it under its namespace, held by a new
    /// handle whose id is `next_id`; the namespaces are unchanged.
    pub open spec fn after_register_track(self, namespace: Seq<char>, track: Seq<char>) -> CoordinatorView {
        CoordinatorView {
            namespaces: self.namespaces,
            tracks: self.tracks.insert(
                (namespace, track),
                self.track_holders(namespace, track).insert(self.next_id),
            ),
            next_id: (self.next_id + 1) as u64,
        }
    }

    /// Unregistering a track removes only that track; its namespace stays.
    pub open spec fn after_unregister_track(self, namespace: Seq<char>, track: Seq<char>) -> CoordinatorView {
        CoordinatorView {
            namespaces: self.namespaces,
            tracks: self.tracks.remove((namespace, track)),
            next_id: self.next_id,
        }
    }

    /// Releasing the namespace handle `id`: when it is held, it is dropped,
    /// and the namespace is unregistered if it was the last one held;
    /// otherwise nothing changes.
    pub open spec fn after_release_namespace(self, namespace: Seq<char>, id: u64) -> CoordinatorView {
        if self.namespace_holders(namespace).contains(id) {
            let left = self.namespace_holders(namespace).remove(id);
            if left == Set::<u64>::empty() {
                self.after_unregister_namespace(namespace)
            } else {
                CoordinatorView { namespaces: self.namespaces.insert(namespace, left), ..self }
            }
        } else {
            self
        }
    }

    /// Releasing the track handle `id`: when it is held, it is dropped, and
    /// the track is unregistered if it was the last one held; otherwise
    /// nothing changes.
    pub open spec fn after_release_track(self, namespace: Seq<char>, track: Seq<char>, id: u64) -> CoordinatorView {
        if self.track_holders(namespace, track).contains(id) {
            let left = self.track_holders(namespace, track).remove(id);
            if left == Set::<u64>::empty() {
                self.after_unregister_track(namespace, track)
            } else {
                CoordinatorView { tracks: self.tracks.insert((namespace, track), left), ..self }
            }
        } else {
            self
        }
    }

    /// Where a namespace is served from: locally if registered, else nowhere.
    pub open spec fn lookup(self, namespace: Seq<char>) -> Option<NamespaceOrigin> {
        if self.namespaces.contains_key(namespace) {
            Some(NamespaceOrigin::Local)
        } else {
            None
        }
    }
}

/// The ids of the registration handles held for one namespace or track.
pub struct HandleSet {
    ids: Vec<u64>,
}

impl View for HandleSet {
    type V = Set<u64>;

    closed spec fn view(&self) -> Set<u64> {
        self.ids@.to_set()
    }
}

impl HandleSet {
    #[verifier::type_invariant]
    closed spec fn wf(self) -> bool {
        self.ids@.no_duplicates()
    }

    /// The set holding only `id`.
    pub fn single(id: u64) -> (r: Self)
        ensures
            r@ == set![id],
    {
        let r = HandleSet { ids: vec![id] };
        assert(r.ids@.to_set() =~= set![id]) by {
            assert(r.ids@[0] == id);
        }
        r
    }

    fn find(&self, id: u64) -> (r: Option<usize>)
        ensures
            match r {
                Some(i) => i < self.ids@.len() && self.ids@[i as int] == id,
                None => !self.ids@.contains(id),
            },
    {
        let mut i: usize = 0;
        while i < self.ids.len()
            invariant
                i <= self.ids@.len(),
                forall|j: int| 0 <= j < i ==> self.ids@[j] != id,
            decreases self.ids@.len() - i,
        {
            if self.ids[i] == id {
                return Some(i);
            }
            i += 1;
        }
        None
    }

    /// Whether `id` is held.
    pub fn contains(&self, id: u64) -> (r: bool)
        ensures
            r == self@.contains(id),
    {
        self.find(id).is_some()
    }

    /// Whether no handle is held.
    pub fn is_empty(&self) -> (r: bool)
        ensures
            r == (self@ == Set::<u64>::empty()),
    {
        if self.ids.len() == 0 {
            assert(self@ =~= Set::<u64>::empty());
            true
        } else {
            assert(self@.contains(self.ids@[0]));
            false
        }
    }

    /// Hold `id` too.
    pub fn insert(&mut self, id: u64)
        ensures
            final(self)@ == old(self)@.insert(id),
    {
        proof {
            use_type_invariant(&*self);
        }
        if self.find(id).is_some() {
            assert(self@.insert(id) =~= self@);
            return;
        }
        let ghost before = self.ids@;
        proof {
            lemma_push_fresh(before, id);
        }
        let mut ids: Vec<u64> = Vec::new();
        std::mem::swap(&mut ids, &mut self.ids);
        ids.push(id);
        self.ids = ids;
    }

    /// Stop holding `id`.
    pub fn remove(&mut self, id: u64)
        ensures
            final(self)@ == old(self)@.remove(id),
    {
        proof {
            use_type_invariant(&*self);
        }
        match self.find(id) {
            Some(i) => {
                let ghost before = self.ids@;
                proof {
                    lemma_remove_at(before, i as int);
                }
                let mut ids: Vec<u64> = Vec::new();
                std::mem::swap(&mut ids, &mut self.ids);
                ids.remove(i);
                self.ids = ids;
            },
            None => {
                assert(self@.remove(id) =~= self@);
            },
        }
    }
}

/// The (namespace, track) pairs of a map from namespaces to the handles
/// held for each of their tracks.
pub open spec fn flatten(
    outer: Map<Seq<char>, KeyedCache<String, HandleSet>>,
) -> Map<(Seq<char>, Seq<char>), Set<u64>> {
    Map::new(
        |p: (Seq<char>, Seq<char>)| outer.contains_key(p.0) && outer[p.0]@.contains_key(p.1),
        |p: (Seq<char>, Seq<char>)| outer[p.0]@[p.1]@,
    )
}

/// Released when a namespace registration ends: drops its handle, and
/// unregisters the namespace if no other handle for it is held.
pub struct NamespaceDropGuard {
    pub namespace: String,
    pub id: u64,
}

/// Released when a track registration ends: drops its handle, and
/// unregisters the track if no other handle for it is held.
pub struct TrackDropGuard {
    pub namespace: String,
    pub track_name: String,
    pub id: u64,
}

/// Local coordinator for single-relay deployments.
///
/// It keeps local namespaces and tracks in memory and does not advertise
/// them to other relays.
pub struct LocalCoordinator {
    namespaces: KeyedCache<String, HandleSet>,
    tracks: KeyedCache<String, KeyedCache<String, HandleSet>>,
    next_id: u64,
}

impl View for LocalCoordinator {
    type V = CoordinatorView;

    closed spec fn view(&self) -> CoordinatorView {
        CoordinatorView {
            namespaces: self.namespaces@.map_values(|h: HandleSet| h@),
            tracks: flatten(self.tracks@),
            next_id: self.next_id,
        }
    }
}

impl LocalCoordinator {
    /// Create a new local coordinator with nothing registered.
    pub fn new() -> (r: Self)
        ensures
            r@ == CoordinatorView::empty(0),
    {
        let r = LocalCoordinator { namespaces: KeyedCache::new(), tracks: KeyedCache::new(), next_id: 0 };
        assert(r@.namespaces =~= Map::empty());
        assert(r@.tracks =~= Map::empty());
        r
    }

    /// Whether another registration can be made: each one takes a fresh id.
    pub fn can_register(&self) -> (r: bool)
        ensures
            r == (self@.next_id < u64::MAX),
    {
        self.next_id < u64::MAX
    }

    /// The number of registered namespaces.
    pub fn namespace_count(&self) -> (r: usize)
        ensures
            self@.namespaces.dom().finite(),
            r == self@.namespaces.dom().len(),
    {
        assert(self@.namespaces.dom() =~= self.namespaces@.dom());
        self.namespaces.len()
    }

    /// The number of tracks registered under a namespace.
    pub fn track_count(&self, namespace: &str) -> (r: usize)
        ensures
            self@.tracks_under(namespace@).finite(),
            r == self@.tracks_under(namespace@).len(),
    {
        let key = namespace.to_owned();
        match self.tracks.get(&key) {
            Some(inner) => {
                assert(self@.tracks_under(namespace@) =~= inner@.dom());
                inner.len()
            },
            None => {
                assert(self@.tracks_under(namespace@) =~= Set::empty());
                0
            },
        }
    }

    /// Whether a namespace is registered.
    pub fn has_namespace(&self, namespace: &str) -> (r: bool)
        ensures
            r == self@.namespaces.contains_key(namespace@),
    {
        self.namespaces.contains(&namespace.to_owned())
    }

    /// Whether a track is registered under a namespace.
    pub fn has_track(&self, namespace: &str, track_name: &str) -> (r: bool)
        ensures
            r == self@.tracks.contains_key((namespace@, track_name@)),
    {
        match self.tracks.get(&namespace.to_owned()) {
            Some(inner) => inner.contains(&track_name.to_owned()),
            None => false,
        }
    }

    fn hold_namespace(&mut self, key: String, id: u64)
        ensures
            final(self)@.namespaces == old(self)@.namespaces.insert(
                key@,
                old(self)@.namespace_holders(key@).insert(id),
            ),
            final(self)@.tracks == old(self)@.tracks,
            final(self)@.next_id == old(self)@.next_id,
    {
        let ghost before = self.namespaces@;
        let holders = match self.namespaces.remove(&key) {
            Some(mut h) => {
                h.insert(id);
                h
            },
            None => HandleSet::single(id),
        };
        self.namespaces.insert(key, holders);
        assert(self@.namespaces =~= old(self)@.namespaces.insert(
            key@,
            old(self)@.namespace_holders(key@).insert(id),
        ));
    }

    /// Register a namespace as locally available on this relay.
    ///
    /// The namespace stays registered while the returned handle (or any
    /// other handle for it) is held, until it is unregistered explicitly.
    pub fn register_namespace(&mut self, namespace: &str) -> (r: NamespaceRegistration<
        NamespaceDropGuard,
    >)
        requires
            old(self)@.next_id < u64::MAX,
        ensures
            final(self)@ == old(self)@.after_register_namespace(namespace@),
            r.held().namespace@ == namespace@,
            r.held().id == old(self)@.next_id,
    {
        let id = self.next_id;
        self.hold_namespace(namespace.to_owned(), id);
        self.next_id = id + 1;
        NamespaceRegistration::new(NamespaceDropGuard { namespace: namespace.to_owned(), id })
    }

    /// Unregister a namespace and every track registered under it, whatever
    /// handles are held.
    pub fn unregister_namespace(&mut self, namespace: &str)
        ensures
            final(self)@ == old(self)@.after_unregister_namespace(namespace@),
    {
        let key = namespace.to_owned();
        self.namespaces.remove(&key);
        self.tracks.remove(&key);
        assert(self@.namespaces =~= old(self)@.namespaces.remove(namespace@));
        assert(self@.tracks =~= old(self)@.after_unregister_namespace(namespace@).tracks);
    }

    fn hold_track(&mut self, namespace: String, track_name: String, id: u64)
        ensures
            final(self)@.tracks == old(self)@.tracks.insert(
                (namespace@, track_name@),
                old(self)@.track_holders(namespace@, track_name@).insert(id),
            ),
            final(self)@.namespaces == old(self)@.namespaces,
            final(self)@.next_id == old(self)@.next_id,
    {
        let mut inner = match self.tracks.remove(&namespace) {
            Some(inner) => inner,
            None => KeyedCache::new(),
        };
        let holders = match inner.remove(&track_name) {
            Some(mut h) => {
                h.insert(id);
                h
            },
            None => HandleSet::single(id),
        };
        inner.insert(track_name, holders);
        self.tracks.insert(namespace, inner);
        assert(self@.tracks =~= old(self)@.tracks.insert(
            (namespace@, track_name@),
            old(self)@.track_holders(namespace@, track_name@).insert(id),
        ));
    }

    /// Register a track as available under its namespace.
    ///
    /// The track stays registered while the returned handle (or any other
    /// handle for it) is held, until it is unregistered explicitly.
    pub fn register_track(&mut self, track_info: TrackInfo) -> (r: TrackRegistration<
        TrackDropGuard,
    >)
        requires
            old(self)@.next_id < u64::MAX,
        ensures
            final(self)@ == old(self)@.after_register_track(
                track_info.namespace@,
                track_info.track_name@,
            ),
            r.held().namespace@ == track_info.namespace@,
            r.held().track_name@ == track_info.track_name@,
            r.held().id == old(self)@.next_id,
    {
        let TrackInfo { namespace, track_name, track_alias: _ } = track_info;
        let id = self.next_id;
        self.hold_track(namespace.clone(), track_name.clone(), id);
        self.next_id = id + 1;
        TrackRegistration::new(TrackDropGuard { namespace, track_name, id })
    }

    /// Unregister a single track, whatever handles are held; its namespace
    /// stays registered.
    pub fn unregister_track(&mut self, namespace: &str, track_name: &str)
        ensures
            final(self)@ == old(self)@.after_unregister_track(namespace@, track_name@),
    {
        let ns = namespace.to_owned();
        if let Some(mut inner) = self.tracks.remove(&ns) {
            inner.remove(&track_name.to_owned());
            self.tracks.insert(ns, inner);
        }
        assert(self@.tracks =~= old(self)@.tracks.remove((namespace@, track_name@)));
    }

    /// Where a namespace is served from: `Local` when it is registered here,
    /// `None` otherwise.
    pub fn lookup(&self, namespace: &str) -> (r: Option<NamespaceOrigin>)
        ensures
            r == self@.lookup(namespace@),
    {
        if self.has_namespace(namespace) {
            Some(NamespaceOrigin::Local)
        } else {
            None
        }
    }

    /// Forget every namespace and track. Handles issued before stay void:
    /// ids are never handed out twice.
    pub fn shutdown(&mut self)
        ensures
            final(self)@ == CoordinatorView::empty(old(self)@.next_id),
    {
        self.namespaces = KeyedCache::new();
        self.tracks = KeyedCache::new();
        assert(self@.namespaces =~= Map::empty());
        assert(self@.tracks =~= Map::empty());
    }
}

impl Default for LocalCoordinator {
    fn default() -> (r: Self)
        ensures
            r@ == CoordinatorView::empty(0),
    {
        LocalCoordinator::new()
    }
}

impl NamespaceDropGuard {
    /// The end of a namespace registration: the handle is dropped, and the
    /// namespace and its tracks are unregistered if it was the last handle
    /// held for it.
    pub fn release(&self, coordinator: &mut LocalCoordinator)
        ensures
            final(coordinator)@ == old(coordinator)@.after_release_namespace(
                self.namespace@,
                self.id,
            ),
    {
        let key = self.namespace.clone();
        let ghost v = coordinator@;
        let ghost ns = self.namespace@;
        match coordinator.namespaces.remove(&key) {
            Some(mut holders) => {
                assert(holders@ == v.namespace_holders(ns));
                if holders.contains(self.id) {
                    holders.remove(self.id);
                    if holders.is_empty() {
                        coordinator.tracks.remove(&key);
                        assert(coordinator@.namespaces =~= v.namespaces.remove(ns));
                        assert(coordinator@.tracks =~= v.after_unregister_namespace(ns).tracks);
                        assert(coordinator@ == v.after_unregister_namespace(ns));
                    } else {
                        coordinator.namespaces.insert(key, holders);
                        assert(coordinator@.namespaces =~= v.namespaces.insert(
                            ns,
                            v.namespace_holders(ns).remove(self.id),
                        ));
                    }
                } else {
                    coordinator.namespaces.insert(key, holders);
                    assert(coordinator@.namespaces =~= v.namespaces);
                }
            },
            None => {
                assert(coordinator@.namespaces =~= v.namespaces);
            },
        }
    }
}

impl TrackDropGuard {
    /// The end of a track registration: the handle is dropped, and the
    /// track is unregistered if it was the last handle held for it; its
    /// namespace stays.
    pub fn release(&self, coordinator: &mut LocalCoordinator)
        ensures
            final(coordinator)@ == old(coordinator)@.after_release_track(
                self.namespace@,
                self.track_name@,
                self.id,
            ),
    {
        let ns = self.namespace.clone();
        let name = self.track_name.clone();
        let ghost v = coordinator@;
        let ghost key = (self.namespace@, self.track_name@);
        match coordinator.tracks.remove(&ns) {
            Some(mut inner) => {
                match inner.remove(&name) {
                    Some(mut holders) => {
                        assert(holders@ == v.track_holders(key.0, key.1));
                        if holders.contains(self.id) {
                            holders.remove(self.id);
                            if !holders.is_empty() {
                                inner.insert(name, holders);
                                coordinator.tracks.insert(ns, inner);
                                assert(coordinator@.tracks =~= v.tracks.insert(
                                    key,
                                    v.track_holders(key.0, key.1).remove(self.id),
                                ));
                            } else {
                                coordinator.tracks.insert(ns, inner);
                                assert(coordinator@.tracks =~= v.tracks.remove(key));
                            }
                        } else {
                            inner.insert(name, holders);
                            coordinator.tracks.insert(ns, inner);
                            assert(coordinator@.tracks =~= v.tracks);
                        }
                    },
                    None => {
                        coordinator.tracks.insert(ns, inner);
                        assert(coordinator@.tracks =~= v.tracks);
                    },
                }
            },
            None => {
                assert(coordinator@.tracks =~= v.tracks);
            },
        }
    }
}

/// A namespace that has just been registered is found locally, and the new
/// handle's id was never handed out before.
pub proof fn lemma_register_then_lookup(v: CoordinatorView, namespace: Seq<char>)
    requires
        v.next_id < u64::MAX,
    ensures
        v.after_register_namespace(namespace).lookup(namespace) == Some(NamespaceOrigin::Local),
        v.after_register_namespace(namespace).namespaces[namespace].contains(v.next_id),
        v.after_register_namespace(namespace).next_id > v.next_id,
{
}

/// Registering a namespace makes it found, counts it once whether or not it
/// was already registered, keeps the tracks already under it, and leaves
/// every other namespace and its tracks as they were.
pub proof fn lemma_register_namespace_frame(v: CoordinatorView, namespace: Seq<char>, other: Seq<char>)
    requires
        v.namespaces.dom().finite(),
        other != namespace,
    ensures
        v.after_register_namespace(namespace).namespaces.contains_key(namespace),
        v.after_register_namespace(namespace).namespaces.dom().finite(),
        v.after_register_namespace(namespace).namespaces.dom().len() == v.namespaces.dom().len() + (
        if v.namespaces.contains_key(namespace) {
            0int
        } else {
            1int
        }),
        v.after_register_namespace(namespace).tracks_under(namespace) == v.tracks_under(namespace),
        v.after_register_namespace(namespace).namespaces.contains_key(other)
            == v.namespaces.contains_key(other),
        v.after_register_namespace(namespace).tracks_under(other) == v.tracks_under(other),
{
    let w = v.after_register_namespace(namespace);
    assert(w.namespaces.dom() =~= v.namespaces.dom().insert(namespace));
    assert(w.tracks_under(namespace) =~= v.tracks_under(namespace));
    assert(w.tracks_under(other) =~= v.tracks_under(other));
}

/// While another handle for a namespace is held, releasing one handle keeps
/// the namespace registered; only its own id is dropped.
pub proof fn lemma_release_keeps_other_holders(
    v: CoordinatorView,
    namespace: Seq<char>,
    released: u64,
    kept: u64,
)
    requires
        v.namespace_holders(namespace).contains(kept),
        released != kept,
    ensures
        v.after_release_namespace(namespace, released).lookup(namespace) == Some(
            NamespaceOrigin::Local,
        ),
        v.after_release_namespace(namespace, released).namespace_holders(namespace) == v.namespace_holders(
            namespace,
        ).remove(released),
        v.after_release_namespace(namespace, released).tracks == v.tracks,
{
    if v.namespace_holders(namespace).contains(released) {
        assert(v.namespace_holders(namespace).remove(released).contains(kept));
    } else {
        assert(v.namespace_holders(namespace).remove(released) =~= v.namespace_holders(namespace));
    }
}

/// A namespace registered twice stays registered when the first handle is
/// released, and is unregistered with its tracks when the second is.
pub proof fn lemma_two_registrations(v: CoordinatorView, namespace: Seq<char>)
    requires
        v.next_id < u64::MAX - 1,
    ensures
        ({
            let first = v.next_id;
            let v1 = v.after_register_namespace(namespace);
            let second = v1.next_id;
            let v2 = v1.after_register_namespace(namespace);
            let v3 = v2.after_release_namespace(namespace, first);
            let v4 = v3.after_release_namespace(namespace, second);
            &&& v3.lookup(namespace) == Some(NamespaceOrigin::Local)
            &&& (v.namespace_holders(namespace) == Set::<u64>::empty() ==> v4.lookup(namespace)
                is None && v4.tracks_under(namespace) == Set::<Seq<char>>::empty())
        }),
{
    let first = v.next_id;
    let v1 = v.after_register_namespace(namespace);
    let second = v1.next_id;
    let v2 = v1.after_register_namespace(namespace);
    let v3 = v2.after_release_namespace(namespace, first);
    lemma_release_keeps_other_holders(v2, namespace, first, second);
    if v.namespace_holders(namespace) == Set::<u64>::empty() {
        assert(v3.namespace_holders(namespace) =~= set![second]);
        assert(v3.namespace_holders(namespace).remove(second) =~= Set::<u64>::empty());
        let v4 = v3.after_release_namespace(namespace, second);
        assert(v4.tracks_under(namespace) =~= Set::<Seq<char>>::empty());
    }
}

/// A handle from before a namespace was unregistered and registered again
/// does not unregister the new registration: its id is not held any more.
pub proof fn lemma_stale_handle_is_void(v: CoordinatorView, namespace: Seq<char>)
    requires
        v.next_id < u64::MAX - 1,
    ensures
        ({
            let stale = v.next_id;
            let v1 = v.after_register_namespace(namespace).after_unregister_namespace(namespace);
            let v2 = v1.after_register_namespace(namespace);
            v2.after_release_namespace(namespace, stale) == v2
        }),
{
    let stale = v.next_id;
    let v1 = v.after_register_namespace(namespace).after_unregister_namespace(namespace);
    let v2 = v1.after_register_namespace(namespace);
    assert(v2.namespace_holders(namespace) =~= set![v1.next_id]);
}

/// Releasing the last handle held for a namespace is the same as
/// unregistering it.
pub proof fn lemma_release_last_unregisters(v: CoordinatorView, namespace: Seq<char>, id: u64)
    requires
        v.namespace_holders(namespace) == set![id],
    ensures
        v.after_release_namespace(namespace, id) == v.after_unregister_namespace(namespace),
{
    assert(v.namespace_holders(namespace).remove(id) =~= Set::<u64>::empty());
}

/// After a namespace is unregistered it is not found, and no track is left
/// under it; other namespaces and their tracks are untouched.
pub proof fn lemma_unregister_namespace_removes_tracks(
    v: CoordinatorView,
    namespace: Seq<char>,
    other: Seq<char>,
)
    requires
        other != namespace,
    ensures
        v.after_unregister_namespace(namespace).lookup(namespace) is None,
        v.after_unregister_namespace(namespace).tracks_under(namespace) == Set::<Seq<char>>::empty(),
        v.after_unregister_namespace(namespace).lookup(other) == v.lookup(other),
        v.after_unregister_namespace(namespace).tracks_under(other) == v.tracks_under(other),
{
    assert(v.after_unregister_namespace(namespace).tracks_under(namespace) =~= Set::empty());
    assert(v.after_unregister_namespace(namespace).tracks_under(other) =~= v.tracks_under(other));
}

/// Unregistering a track removes that track only; the namespace stays
/// registered and keeps its other tracks.
pub proof fn lemma_unregister_track_keeps_namespace(
    v: CoordinatorView,
    namespace: Seq<char>,
    track: Seq<char>,
)
    ensures
        v.after_unregister_track(namespace, track).namespaces == v.namespaces,
        v.after_unregister_track(namespace, track).lookup(namespace) == v.lookup(namespace),
        v.after_unregister_track(namespace, track).tracks_under(namespace) == v.tracks_under(
            namespace,
        ).remove(track),
{
    assert(v.after_unregister_track(namespace, track).tracks_under(namespace) =~= v.tracks_under(
        namespace,
    ).remove(track));
}

/// Releasing a track handle never changes the namespaces; while another
/// handle for the track is held, the track stays registered.
pub proof fn lemma_release_track_keeps_namespace(
    v: CoordinatorView,
    namespace: Seq<char>,
    track: Seq<char>,
    released: u64,
    kept: u64,
)
    requires
        v.track_holders(namespace, track).contains(kept),
        released != kept,
    ensures
        v.after_release_track(namespace, track, released).namespaces == v.namespaces,
        v.after_release_track(namespace, track, released).tracks.contains_key((namespace, track)),
{
    if v.track_holders(namespace, track).contains(released) {
        assert(v.track_holders(namespace, track).remove(released).contains(kept));
    }
}

/// Registering a track does not register its namespace, and adds exactly
/// that track under it.
pub proof fn lemma_register_track_adds_one(v: CoordinatorView, namespace: Seq<char>, track: Seq<char>)
    ensures
        v.after_register_track(namespace, track).namespaces == v.namespaces,
        v.after_register_track(namespace, track).tracks_under(namespace) == v.tracks_under(
            namespace,
        ).insert(track),
{
    assert(v.after_register_track(namespace, track).tracks_under(namespace) =~= v.tracks_under(
        namespace,
    ).insert(track));
}

/// Registering a namespace that was unknown (not registered, no tracks) and
/// releasing that registration, or unregistering it, gives back the state
/// from before, apart from the id counter.
pub proof fn lemma_register_release_round_trip(v: CoordinatorView, namespace: Seq<char>)
    requires
        !v.namespaces.contains_key(namespace),
        v.tracks_under(namespace) == Set::<Seq<char>>::empty(),
    ensures
        v.after_register_namespace(namespace).after_release_namespace(namespace, v.next_id)
            == (CoordinatorView { next_id: (v.next_id + 1) as u64, ..v }),
        v.after_register_namespace(namespace).after_unregister_namespace(namespace)
            == (CoordinatorView { next_id: (v.next_id + 1) as u64, ..v }),
{
    let v1 = v.after_register_namespace(namespace);
    assert(v1.namespace_holders(namespace) =~= set![v.next_id]);
    assert(v1.namespace_holders(namespace).remove(v.next_id) =~= Set::<u64>::empty());
    let w = v1.after_unregister_namespace(namespace);
    assert(w.namespaces =~= v.namespaces);
    assert forall|p: (Seq<char>, Seq<char>)| w.tracks.contains_key(p) <==> v.tracks.contains_key(p) by {
        if v.tracks.contains_key(p) && p.0 == namespace {
            assert(v.tracks_under(namespace).contains(p.1));
        }
    }
    assert(w.tracks =~= v.tracks);
}

/// Registering a track that was not registered and releasing that
/// registration, or unregistering it, gives back the state from before,
/// apart from the id counter.
pub proof fn lemma_register_release_track_round_trip(
    v: CoordinatorView,
    namespace: Seq<char>,
    track: Seq<char>,
)
    requires
        !v.tracks.contains_key((namespace, track)),
    ensures
        v.after_register_track(namespace, track).after_release_track(namespace, track, v.next_id)
            == (CoordinatorView { next_id: (v.next_id + 1) as u64, ..v }),
        v.after_register_track(namespace, track).after_unregister_track(namespace, track)
            == (CoordinatorView { next_id: (v.next_id + 1) as u64, ..v }),
{
    let v1 = v.after_register_track(namespace, track);
    assert(v1.track_holders(namespace, track) =~= set![v.next_id]);
    assert(v1.track_holders(namespace, track).remove(v.next_id) =~= Set::<u64>::empty());
    assert(v1.after_unregister_track(namespace, track).tracks =~= v.tracks);
}

/// After a shutdown nothing is found and no track is registered.
pub proof fn lemma_shutdown_clears(next_id: u64, namespace: Seq<char>)
    ensures
        CoordinatorView::empty(next_id).lookup(namespace) is None,
        CoordinatorView::empty(next_id).tracks_under(namespace) == Set::<Seq<char>>::empty(),
{
    assert(CoordinatorView::empty(next_id).tracks_under(namespace) =~= Set::empty());
}

} // verus!

//! Registration handles and lookup results shared by coordinators.
use vstd::prelude::*;

use url::Url;

verus! {

/// Makes `url::Url` usable in signatures here. The type is opaque: nothing
/// is assumed of its contents, a URL is only carried.
#[verifier::external_type_specification]
#[verifier::external_body]
pub struct ExUrl(Url);

/// `Url::clone`, which the url crate derives: the clone is the same URL.
pub assume_specification[ <Url as Clone>::clone ](url: &Url) -> (r: Url)
    ensures
        r == *url,
;

/// Handle returned when a namespace is registered with a coordinator.
///
/// The handle owns the value whose release ends this registration; the
/// namespace stays registered for as long as this handle, or any other
/// handle for the same namespace, is held.
pub struct NamespaceRegistration<T> {
    inner: T,
}

impl<T> NamespaceRegistration<T> {
    /// The value that this handle keeps alive.
    pub closed spec fn held(self) -> T {
        self.inner
    }

    /// Create a new registration handle wrapping `inner`.
    pub fn new(inner: T) -> (r: Self)
        ensures
            r.held() == inner,
    {
        Self { inner }
    }

    /// The wrapped value, handed back for release.
    pub fn into_inner(self) -> (r: T)
        ensures
            r == self.held(),
    {
        self.inner
    }

    /// A reference to the wrapped value.
    pub fn inner(&self) -> (r: &T)
        ensures
            *r == self.held(),
    {
        &self.inner
    }
}

/// Handle returned when a track is registered under a namespace.
///
/// The track stays registered for as long as this handle, or any other
/// handle for the same track, is held; the namespace remains registered
/// after all its tracks are released.
pub struct TrackRegistration<T> {
    inner: T,
}

impl<T> TrackRegistration<T> {
    /// The value that this handle keeps alive.
    pub closed spec fn held(self) -> T {
        self.inner
    }

    /// Create a new track registration handle.
    pub fn new(inner: T) -> (r: Self)
        ensures
            r.held() == inner,
    {
        Self { inner }
    }

    /// The wrapped value, handed back for release.
    pub fn into_inner(self) -> (r: T)
        ensures
            r == self.held(),
    {
        self.inner
    }

    /// A reference to the wrapped value.
    pub fn inner(&self) -> (r: &T)
        ensures
            *r == self.held(),
    {
        &self.inner
    }
}

/// Result of a namespace lookup.
#[derive(Debug, Clone, PartialEq, Eq)]
pub enum NamespaceOrigin {
    /// Namespace is served locally by this relay.
    Local,
    /// Namespace is served by a remote relay at the given URL.
    Remote(Url),
}

/// Information about a track within a namespace.
#[derive(Debug, Clone)]
pub struct TrackInfo {
    /// The track namespace
    pub namespace: String,
    /// The track name within the namespace
    pub track_name: String,
    /// Track alias for quick lookup
    pub track_alias: u64,
}

} // verus!

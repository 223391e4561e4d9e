//! Settings of the HTTPS layer.

use crate::cache::SessionCache;
use crate::cache::SessionKeyView;
use vstd::prelude::*;

verus! {

/// Sessions cached per session key unless the builder says otherwise.
pub const DEFAULT_SESSION_CACHE_CAPACITY: usize = 8;

/// Settings for the HTTPS layer: whether TLS sessions are cached, and how
/// many are kept per session key.
pub struct HttpsLayerSettings {
    session_cache_capacity: usize,
    session_cache: bool,
}

impl HttpsLayerSettings {
    /// Sessions kept per session key.
    pub closed spec fn spec_capacity(&self) -> usize {
        self.session_cache_capacity
    }

    /// Whether session caching is enabled.
    pub closed spec fn spec_cache_enabled(&self) -> bool {
        self.session_cache
    }

    /// Constructs a builder that starts from the default settings.
    pub fn builder() -> (b: HttpsLayerSettingsBuilder)
        ensures
            b.settings().spec_capacity() == DEFAULT_SESSION_CACHE_CAPACITY,
            b.settings().spec_cache_enabled(),
    {
        HttpsLayerSettingsBuilder(HttpsLayerSettings::default())
    }

    /// Sessions kept per session key.
    #[verifier::when_used_as_spec(spec_capacity)]
    pub fn capacity(&self) -> (n: usize)
        ensures
            n == self.spec_capacity(),
    {
        self.session_cache_capacity
    }

    /// Whether session caching is enabled.
    #[verifier::when_used_as_spec(spec_cache_enabled)]
    pub fn cache_enabled(&self) -> (b: bool)
        ensures
            b == self.spec_cache_enabled(),
    {
        self.session_cache
    }

    /// The session cache that a layer with these settings starts with: none
    /// when caching is disabled, else an empty cache of the configured
    /// capacity.
    pub fn new_cache<S>(&self) -> (cache: Option<SessionCache<S>>)
        ensures
            cache is Some <==> self.spec_cache_enabled(),
            cache matches Some(c) ==> c.wf() && c@ == Map::<SessionKeyView, Seq<S>>::empty()
                && c.spec_capacity() == self.spec_capacity(),
    {
        if self.session_cache {
            Some(SessionCache::with_capacity(self.session_cache_capacity))
        } else {
            None
        }
    }
}

impl Default for HttpsLayerSettings {
    /// Caching enabled, eight sessions per key.
    fn default() -> (s: Self)
        ensures
            s.spec_capacity() == DEFAULT_SESSION_CACHE_CAPACITY,
            s.spec_cache_enabled(),
    {
        Self { session_cache_capacity: DEFAULT_SESSION_CACHE_CAPACITY, session_cache: true }
    }
}

/// Builder for [`HttpsLayerSettings`].
pub struct HttpsLayerSettingsBuilder(HttpsLayerSettings);

impl HttpsLayerSettingsBuilder {
    /// The settings as they stand in the builder.
    pub closed spec fn settings(&self) -> HttpsLayerSettings {
        self.0
    }

    /// Sets the maximum number of sessions to cache per session key.
    pub fn session_cache_capacity(self, capacity: usize) -> (b: Self)
        ensures
            b.settings().spec_capacity() == capacity,
            b.settings().spec_cache_enabled() == self.settings().spec_cache_enabled(),
    {
        let mut this = self;
        this.0.session_cache_capacity = capacity;
        this
    }

    /// Sets whether session caching is enabled.
    pub fn session_cache(self, enable: bool) -> (b: Self)
        ensures
            b.settings().spec_cache_enabled() == enable,
            b.settings().spec_capacity() == self.settings().spec_capacity(),
    {
        let mut this = self;
        this.0.session_cache = enable;
        this
    }

    /// Consumes the builder, returning the settings.
    pub fn build(self) -> (s: HttpsLayerSettings)
        ensures
            s == self.settings(),
    {
        self.0
    }
}

} // verus!

use rquest::cache::SessionCache;
use rquest::cache::SessionKey;
use rquest::settings::HttpsLayerSettings;
use rquest::settings::DEFAULT_SESSION_CACHE_CAPACITY;

#[test]
fn default_settings_cache_eight_sessions() {
    let settings = HttpsLayerSettings::default();
    assert_eq!(settings.capacity(), 8);
    assert!(settings.cache_enabled());
    assert_eq!(DEFAULT_SESSION_CACHE_CAPACITY, 8);
}

#[test]
fn builder_starts_from_the_defaults() {
    let settings = HttpsLayerSettings::builder().build();
    assert_eq!(settings.capacity(), 8);
    assert!(settings.cache_enabled());
}

#[test]
fn builder_sets_the_capacity() {
    let settings = HttpsLayerSettings::builder().session_cache_capacity(3).build();
    assert_eq!(settings.capacity(), 3);
    assert!(settings.cache_enabled());
}

#[test]
fn builder_disables_the_cache() {
    let settings = HttpsLayerSettings::builder().session_cache(false).build();
    assert_eq!(settings.capacity(), 8);
    assert!(!settings.cache_enabled());
}

#[test]
fn builder_keeps_what_was_set_before() {
    let settings =
        HttpsLayerSettings::builder().session_cache(false).session_cache_capacity(0).build();
    assert_eq!(settings.capacity(), 0);
    assert!(!settings.cache_enabled());
    let settings = HttpsLayerSettings::builder()
        .session_cache_capacity(5)
        .session_cache(false)
        .session_cache(true)
        .build();
    assert_eq!(settings.capacity(), 5);
    assert!(settings.cache_enabled());
}

#[test]
fn enabled_settings_make_an_empty_cache_of_their_capacity() {
    let settings = HttpsLayerSettings::builder().session_cache_capacity(2).build();
    let cache: Option<SessionCache<u32>> = settings.new_cache();
    let mut cache = cache.expect("caching is enabled");
    assert_eq!(cache.capacity(), 2);
    let k = SessionKey::new("example.com", None);
    assert_eq!(cache.cached(&k), 0);
    cache.insert(k.duplicate(), 1);
    cache.insert(k.duplicate(), 2);
    cache.insert(k.duplicate(), 3);
    assert_eq!(cache.cached(&k), 2);
}

#[test]
fn disabled_settings_make_no_cache() {
    let settings = HttpsLayerSettings::builder().session_cache(false).build();
    let cache: Option<SessionCache<u32>> = settings.new_cache();
    assert!(cache.is_none());
}

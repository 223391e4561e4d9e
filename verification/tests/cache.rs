use rquest::cache::SessionCache;
use rquest::cache::SessionKey;
use rquest::connector::Hooks;
use rquest::connector::Outcome;
use rquest::connector::SetupAction;
use rquest::connector::SetupStage;
use rquest::connector::SslSetup;

fn key(host: &str, port: u16) -> SessionKey {
    SessionKey::new(host, Some(port))
}

#[test]
fn take_after_insert_yields_the_session() {
    let mut cache: SessionCache<String> = SessionCache::with_capacity(8);
    cache.insert(key("example.com", 443), "s".to_string());
    assert_eq!(cache.take(&key("example.com", 443)), Some("s".to_string()));
}

#[test]
fn second_take_yields_none() {
    let mut cache: SessionCache<u32> = SessionCache::with_capacity(8);
    cache.insert(key("example.com", 443), 7);
    assert_eq!(cache.take(&key("example.com", 443)), Some(7));
    assert_eq!(cache.take(&key("example.com", 443)), None);
}

#[test]
fn take_from_empty_cache_yields_none() {
    let mut cache: SessionCache<u32> = SessionCache::with_capacity(8);
    assert_eq!(cache.take(&key("example.com", 443)), None);
    assert_eq!(cache.cached(&key("example.com", 443)), 0);
}

#[test]
fn take_hands_out_the_most_recent_first() {
    let mut cache: SessionCache<u32> = SessionCache::with_capacity(8);
    let k = key("example.com", 443);
    cache.insert(k.duplicate(), 1);
    cache.insert(k.duplicate(), 2);
    cache.insert(k.duplicate(), 3);
    assert_eq!(cache.cached(&k), 3);
    assert_eq!(cache.take(&k), Some(3));
    assert_eq!(cache.take(&k), Some(2));
    assert_eq!(cache.take(&k), Some(1));
    assert_eq!(cache.take(&k), None);
}

#[test]
fn first_session_is_evicted_after_capacity_plus_one_inserts() {
    let capacity = 3usize;
    let mut cache: SessionCache<u32> = SessionCache::with_capacity(capacity);
    let k = key("example.com", 443);
    for s in 0..=(capacity as u32) {
        cache.insert(k.duplicate(), s);
    }
    assert_eq!(cache.cached(&k), capacity);
    let mut handed = Vec::new();
    while let Some(s) = cache.take(&k) {
        handed.push(s);
    }
    assert_eq!(handed, vec![3, 2, 1]);
    assert!(!handed.contains(&0));
}

#[test]
fn default_capacity_keeps_eight_sessions() {
    let mut cache: SessionCache<u32> = SessionCache::with_capacity(8);
    let k = key("example.com", 443);
    for s in 0..20u32 {
        cache.insert(k.duplicate(), s);
    }
    assert_eq!(cache.cached(&k), 8);
    assert_eq!(cache.take(&k), Some(19));
    let mut last = None;
    while let Some(s) = cache.take(&k) {
        last = Some(s);
    }
    assert_eq!(last, Some(12));
}

#[test]
fn capacity_one_keeps_the_newest() {
    let mut cache: SessionCache<u32> = SessionCache::with_capacity(1);
    let k = key("example.com", 443);
    cache.insert(k.duplicate(), 1);
    cache.insert(k.duplicate(), 2);
    assert_eq!(cache.take(&k), Some(2));
    assert_eq!(cache.take(&k), None);
}

#[test]
fn capacity_zero_keeps_nothing() {
    let mut cache: SessionCache<u32> = SessionCache::with_capacity(0);
    let k = key("example.com", 443);
    cache.insert(k.duplicate(), 1);
    assert_eq!(cache.capacity(), 0);
    assert_eq!(cache.cached(&k), 0);
    assert_eq!(cache.take(&k), None);
}

#[test]
fn keys_do_not_share_sessions() {
    let mut cache: SessionCache<u32> = SessionCache::with_capacity(2);
    cache.insert(key("a.example", 443), 1);
    cache.insert(key("b.example", 443), 2);
    cache.insert(key("a.example", 8443), 3);
    cache.insert(key("a.example", 443), 4);
    cache.insert(key("a.example", 443), 5);
    assert_eq!(cache.take(&key("b.example", 443)), Some(2));
    assert_eq!(cache.take(&key("b.example", 443)), None);
    assert_eq!(cache.take(&key("a.example", 8443)), Some(3));
    assert_eq!(cache.take(&key("a.example", 443)), Some(5));
    assert_eq!(cache.take(&key("a.example", 443)), Some(4));
    assert_eq!(cache.take(&key("a.example", 443)), None);
}

#[test]
fn insert_then_take_restores_the_queue() {
    let mut cache: SessionCache<u32> = SessionCache::with_capacity(4);
    let k = key("example.com", 443);
    cache.insert(k.duplicate(), 1);
    cache.insert(k.duplicate(), 2);
    cache.insert(k.duplicate(), 9);
    assert_eq!(cache.take(&k), Some(9));
    assert_eq!(cache.cached(&k), 2);
    assert_eq!(cache.take(&k), Some(2));
    assert_eq!(cache.take(&k), Some(1));
}

#[test]
fn key_holds_the_host_in_lower_case() {
    let k = SessionKey::new("ExAmPle.COM", Some(8443));
    assert_eq!(k.host(), "example.com");
    assert_eq!(k.port(), 8443);
    assert!(k.same(&SessionKey::new("example.com", Some(8443))));
}

#[test]
fn key_keeps_what_is_no_ascii_upper_case_letter() {
    let k = SessionKey::new("[Z@`{-09É", Some(1));
    assert_eq!(k.host(), "[z@`{-09É");
}

#[test]
fn key_port_defaults_to_443() {
    let k = SessionKey::new("example.com", None);
    assert_eq!(k.port(), 443);
    assert!(k.same(&SessionKey::new("EXAMPLE.com", Some(443))));
    assert!(!k.same(&SessionKey::new("example.com", Some(80))));
    assert!(!k.same(&SessionKey::new("example.org", None)));
}

#[test]
fn duplicate_key_is_the_same_key() {
    let k = SessionKey::new("example.com", Some(444));
    let d = k.duplicate();
    assert!(k.same(&d));
    assert_eq!(d.host(), "example.com");
    assert_eq!(d.port(), 444);
}

#[test]
fn sessions_under_upper_case_host_are_found_in_lower_case() {
    let mut cache: SessionCache<u32> = SessionCache::with_capacity(2);
    cache.insert(SessionKey::new("Example.COM", None), 5);
    assert_eq!(cache.take(&SessionKey::new("example.com", Some(443))), Some(5));
}

#[test]
fn new_session_is_recorded_under_the_attached_key() {
    let mut cache: SessionCache<u32> = SessionCache::with_capacity(2);
    let k = key("example.com", 443);
    cache.record_new_session(Some(&k), 11);
    assert_eq!(cache.cached(&k), 1);
    assert_eq!(cache.take(&k), Some(11));
}

#[test]
fn new_session_without_a_key_is_dropped() {
    let mut cache: SessionCache<u32> = SessionCache::with_capacity(2);
    let k = key("example.com", 443);
    cache.insert(k.duplicate(), 1);
    cache.record_new_session(None, 11);
    assert_eq!(cache.cached(&k), 1);
    assert_eq!(cache.take(&k), Some(1));
    assert_eq!(cache.take(&k), None);
}

/// Runs the preparation of one TLS handle against the cache and says
/// whether a cached session was set on it.
fn prepare(cache: &mut SessionCache<u32>, k: &SessionKey) -> bool {
    let hooks = Hooks { session_cache: true, callback: false, ssl_callback: false };
    let mut setup = SslSetup::begin(hooks);
    let mut reused = false;
    loop {
        let outcome = match setup.action() {
            SetupAction::Run(SetupStage::TakeSession) => match cache.take(k) {
                Some(_) => Outcome::Done,
                None => Outcome::Nothing,
            },
            SetupAction::Run(SetupStage::SetSession) => {
                reused = true;
                Outcome::Done
            }
            SetupAction::Run(_) => Outcome::Done,
            SetupAction::Finish => return reused,
            SetupAction::Abort(_) => panic!("nothing fails here"),
        };
        setup.advance(outcome);
    }
}

#[test]
fn second_connection_reuses_the_session_and_third_does_not() {
    let mut cache: SessionCache<u32> = SessionCache::with_capacity(8);
    let k = key("example.com", 443);
    assert!(!prepare(&mut cache, &k));
    cache.record_new_session(Some(&k), 1);
    assert!(prepare(&mut cache, &k));
    assert!(!prepare(&mut cache, &k));
}

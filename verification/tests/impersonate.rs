use http::HeaderMap;
use http::HeaderValue;
use rquest::headers::SURE_ROOM;
use rquest::http2::PseudoHeader;
use rquest::http2::SettingId;
use rquest::impersonate::default_headers;
use rquest::impersonate::get_settings;
use rquest::impersonate::header_initializer;
use rquest::impersonate::Family;
use rquest::impersonate::ImpersonateOptions;
use rquest::impersonate::ImpersonationId;
use rquest::impersonate::ProfileError;
use rquest::tls::AlpnProtocol;

const ALL: [ImpersonationId; 4] = [
    ImpersonationId::Chrome117,
    ImpersonationId::SafariIos17_4_1,
    ImpersonationId::OkHttp5,
    ImpersonationId::Firefox117,
];

fn entries(map: &HeaderMap) -> Vec<(String, String)> {
    map.iter().map(|(k, v)| (k.as_str().to_string(), v.to_str().unwrap().to_string())).collect()
}

fn names(map: &HeaderMap) -> Vec<String> {
    map.iter().map(|(k, _)| k.as_str().to_string()).collect()
}

#[test]
fn every_profile_has_ciphers_alpn_and_a_valid_order() {
    for id in ALL {
        for skip in [false, true] {
            let mut options = ImpersonateOptions::default();
            options.skip_http2 = skip;
            let profile = get_settings(id, options).unwrap();
            assert_eq!(profile.id, id);
            assert!(!profile.tls.cipher_list.is_empty());
            assert!(!profile.tls.tls13_cipher_list.is_empty());
            assert!(!profile.tls.alpn_protocols.is_empty());
            for setting in &profile.http2.settings_order {
                assert!(profile.http2.value(*setting).is_some());
            }
            assert_eq!(
                profile.http2.emitted_settings().len(),
                profile.http2.settings_order.len()
            );
            assert!(profile.http2.accepts_settings_order(&profile.http2.settings_order));
            assert!(rquest::http2::accepts_pseudo_order(&profile.http2.headers_pseudo_order));
        }
    }
}

#[test]
fn same_id_and_flags_give_equal_profiles() {
    for id in ALL {
        let mut first = ImpersonateOptions::default();
        first.skip_http2 = true;
        first.permute_extensions = Some(true);
        first.permutation_seed = Some(42);
        let mut second = ImpersonateOptions::default();
        second.skip_http2 = true;
        second.permute_extensions = Some(true);
        second.permutation_seed = Some(42);
        let a = get_settings(id, first).unwrap();
        let b = get_settings(id, second).unwrap();
        assert_eq!(format!("{:?}", a), format!("{:?}", b));
    }
}

#[test]
fn okhttp_5_advertises_http11_only() {
    let profile = get_settings(ImpersonationId::OkHttp5, ImpersonateOptions::default()).unwrap();
    assert!(profile.skip_http2);
    assert_eq!(profile.tls.alpn_protocols, vec![AlpnProtocol::Http11]);
    assert_eq!(profile.tls.alpn_wire(), b"\x08http/1.1".to_vec());
    assert_eq!(profile.tls.alps, None);
}

#[test]
fn skip_http2_leaves_h2_out_of_alpn_and_alps() {
    let mut options = ImpersonateOptions::default();
    options.skip_http2 = true;
    let profile = get_settings(ImpersonationId::Chrome117, options).unwrap();
    assert!(profile.skip_http2);
    assert_eq!(profile.tls.alpn_protocols, vec![AlpnProtocol::Http11]);
    assert_eq!(profile.tls.alps, None);
    let plain = get_settings(ImpersonationId::Chrome117, ImpersonateOptions::default()).unwrap();
    assert!(!plain.skip_http2);
    assert_eq!(plain.tls.alpn_protocols, vec![AlpnProtocol::H2, AlpnProtocol::Http11]);
    assert_eq!(plain.tls.alps, Some(AlpnProtocol::H2));
}

#[test]
fn flags_reach_the_tls_parameters() {
    let mut options = ImpersonateOptions::default();
    options.enable_ech_grease = true;
    options.accept_invalid_certs = true;
    options.permute_extensions = Some(false);
    options.permutation_seed = Some(7);
    options.skip_headers = true;
    let profile = get_settings(ImpersonationId::Chrome117, options).unwrap();
    assert!(profile.tls.enable_ech_grease);
    assert!(profile.tls.accept_invalid_certs);
    assert!(!profile.tls.permute_extensions);
    assert_eq!(profile.tls.permutation_seed, Some(7));
    assert!(profile.skip_headers);
    let mut options = ImpersonateOptions::default();
    options.permute_extensions = Some(true);
    let profile = get_settings(ImpersonationId::SafariIos17_4_1, options).unwrap();
    assert!(profile.tls.permute_extensions);
    let profile =
        get_settings(ImpersonationId::SafariIos17_4_1, ImpersonateOptions::default()).unwrap();
    assert!(!profile.tls.permute_extensions);
    assert!(!profile.tls.enable_ech_grease);
    assert!(!profile.skip_headers);
}

#[test]
fn settings_order_of_the_caller_replaces_that_of_the_build() {
    let mut options = ImpersonateOptions::default();
    options.settings_order = Some(vec![SettingId::InitialWindowSize, SettingId::EnablePush]);
    let profile = get_settings(ImpersonationId::Chrome117, options).unwrap();
    assert_eq!(
        profile.http2.emitted_settings(),
        vec![(SettingId::InitialWindowSize, 6291456), (SettingId::EnablePush, 0)]
    );
}

#[test]
fn pseudo_order_of_the_caller_replaces_that_of_the_family() {
    let mut options = ImpersonateOptions::default();
    options.headers_pseudo_order = Some(vec![
        PseudoHeader::Path,
        PseudoHeader::Scheme,
        PseudoHeader::Authority,
        PseudoHeader::Method,
    ]);
    let profile = get_settings(ImpersonationId::Firefox117, options).unwrap();
    assert_eq!(
        profile.http2.headers_pseudo_order,
        vec![
            PseudoHeader::Path,
            PseudoHeader::Scheme,
            PseudoHeader::Authority,
            PseudoHeader::Method,
        ]
    );
}

#[test]
fn settings_order_with_a_setting_that_has_no_value_is_malformed() {
    let mut options = ImpersonateOptions::default();
    options.settings_order = Some(vec![SettingId::MaxConcurrentStreams]);
    let r = get_settings(ImpersonationId::Chrome117, options);
    assert_eq!(r.err(), Some(ProfileError::MalformedOverride));
    let mut options = ImpersonateOptions::default();
    options.settings_order = Some(vec![SettingId::MaxConcurrentStreams]);
    assert!(get_settings(ImpersonationId::SafariIos17_4_1, options).is_ok());
}

#[test]
fn settings_order_with_a_setting_twice_is_malformed() {
    let mut options = ImpersonateOptions::default();
    options.settings_order = Some(vec![SettingId::EnablePush, SettingId::EnablePush]);
    let r = get_settings(ImpersonationId::Chrome117, options);
    assert_eq!(r.err(), Some(ProfileError::MalformedOverride));
}

#[test]
fn pseudo_order_that_misses_a_header_is_malformed() {
    let mut options = ImpersonateOptions::default();
    options.headers_pseudo_order =
        Some(vec![PseudoHeader::Path, PseudoHeader::Scheme, PseudoHeader::Method]);
    let r = get_settings(ImpersonationId::Chrome117, options);
    assert_eq!(r.err(), Some(ProfileError::MalformedOverride));
    let mut options = ImpersonateOptions::default();
    options.headers_pseudo_order = Some(vec![
        PseudoHeader::Path,
        PseudoHeader::Scheme,
        PseudoHeader::Method,
        PseudoHeader::Method,
    ]);
    let r = get_settings(ImpersonationId::OkHttp5, options);
    assert_eq!(r.err(), Some(ProfileError::MalformedOverride));
}

#[test]
fn builds_are_found_by_name() {
    assert_eq!(ImpersonationId::from_name("chrome_117"), Ok(ImpersonationId::Chrome117));
    assert_eq!(
        ImpersonationId::from_name("safari_ios_17.4.1"),
        Ok(ImpersonationId::SafariIos17_4_1)
    );
    assert_eq!(ImpersonationId::from_name("okhttp_5"), Ok(ImpersonationId::OkHttp5));
    assert_eq!(ImpersonationId::from_name("firefox_117"), Ok(ImpersonationId::Firefox117));
    for id in ALL {
        assert_eq!(ImpersonationId::from_name(id.name()), Ok(id));
    }
}

#[test]
fn unknown_name_is_an_unknown_id() {
    assert_eq!(ImpersonationId::from_name("chrome_1"), Err(ProfileError::UnknownId));
    assert_eq!(ImpersonationId::from_name("Chrome_117"), Err(ProfileError::UnknownId));
    assert_eq!(ImpersonationId::from_name(""), Err(ProfileError::UnknownId));
    assert_eq!(ImpersonationId::from_name("chrome_117 "), Err(ProfileError::UnknownId));
}

#[test]
fn profile_errors_are_of_the_profile_kind() {
    assert_eq!(ProfileError::UnknownId.kind(), rquest::error::ErrorKind::Profile);
    assert_eq!(ProfileError::MalformedOverride.kind(), rquest::error::ErrorKind::Profile);
}

#[test]
fn families() {
    assert_eq!(ImpersonationId::Chrome117.family(), Family::Chrome);
    assert_eq!(ImpersonationId::SafariIos17_4_1.family(), Family::Safari);
    assert_eq!(ImpersonationId::OkHttp5.family(), Family::OkHttp);
    assert_eq!(ImpersonationId::Firefox117.family(), Family::Firefox);
}

#[test]
fn chrome_117_headers_are_inserted_in_order() {
    let profile =
        get_settings(ImpersonationId::Chrome117, ImpersonateOptions::default()).unwrap();
    let mut map = HeaderMap::new();
    assert!(header_initializer(&profile, &mut map).is_ok());
    assert_eq!(
        names(&map),
        vec![
            "sec-ch-ua",
            "sec-ch-ua-mobile",
            "sec-ch-ua-platform",
            "upgrade-insecure-requests",
            "user-agent",
            "accept",
            "sec-fetch-site",
            "sec-fetch-mode",
            "sec-fetch-user",
            "sec-fetch-dest",
            "accept-encoding",
            "accept-language",
        ]
    );
    assert_eq!(
        map.get("sec-ch-ua").unwrap(),
        "\"Google Chrome\";v=\"117\", \"Not;A=Brand\";v=\"8\", \"Chromium\";v=\"117\""
    );
    assert_eq!(map.get("sec-ch-ua-platform").unwrap(), "\"Windows\"");
    assert_eq!(
        map.get(http::header::USER_AGENT).unwrap(),
        "Mozilla/5.0 (Windows NT 10.0; Win64; x64) AppleWebKit/537.36 (KHTML, like Gecko) \
         Chrome/117.0.0.0 Safari/537.36"
    );
    assert_eq!(map.get(http::header::ACCEPT_LANGUAGE).unwrap(), "en-US,en;q=0.9");
    assert_eq!(map.get(http::header::UPGRADE_INSECURE_REQUESTS).unwrap(), "1");
}

#[test]
fn safari_ios_17_4_1_headers_are_inserted_in_order() {
    let profile =
        get_settings(ImpersonationId::SafariIos17_4_1, ImpersonateOptions::default()).unwrap();
    let mut map = HeaderMap::new();
    assert!(header_initializer(&profile, &mut map).is_ok());
    assert_eq!(
        entries(&map),
        vec![
            (
                "accept".to_string(),
                "text/html,application/xhtml+xml,application/xml;q=0.9,*/*;q=0.8".to_string()
            ),
            ("sec-fetch-site".to_string(), "none".to_string()),
            ("accept-encoding".to_string(), "gzip, deflate, br".to_string()),
            ("sec-fetch-mode".to_string(), "navigate".to_string()),
            (
                "user-agent".to_string(),
                "Mozilla/5.0 (iPad; CPU OS 17_4_1 like Mac OS X) AppleWebKit/605.1.15 (KHTML, \
                 like Gecko) Version/17.4.1 Mobile/15E148 Safari/604.1"
                    .to_string()
            ),
            ("accept-language".to_string(), "en-US,en;q=0.9".to_string()),
            ("sec-fetch-dest".to_string(), "document".to_string()),
        ]
    );
}

#[test]
fn default_headers_match_what_the_initializer_inserts() {
    for id in ALL {
        let profile = get_settings(id, ImpersonateOptions::default()).unwrap();
        let mut map = HeaderMap::new();
        assert!(header_initializer(&profile, &mut map).is_ok());
        let expected: Vec<(String, String)> = default_headers(id)
            .iter()
            .map(|(name, value)| (name.to_string(), value.to_string()))
            .collect();
        assert_eq!(entries(&map), expected);
    }
    assert_eq!(default_headers(ImpersonationId::OkHttp5).len(), 4);
    assert_eq!(default_headers(ImpersonationId::Firefox117)[9], ("te", "trailers"));
}

#[test]
fn a_header_that_is_there_keeps_its_place_and_loses_its_values() {
    let profile = get_settings(ImpersonationId::OkHttp5, ImpersonateOptions::default()).unwrap();
    let mut map = HeaderMap::new();
    map.insert("x-first", HeaderValue::from_static("1"));
    map.append("accept-language", HeaderValue::from_static("de"));
    map.append("accept-language", HeaderValue::from_static("fr"));
    map.insert("x-last", HeaderValue::from_static("2"));
    assert!(header_initializer(&profile, &mut map).is_ok());
    assert_eq!(
        entries(&map),
        vec![
            ("x-first".to_string(), "1".to_string()),
            ("accept-language".to_string(), "en-US,en;q=0.9".to_string()),
            ("x-last".to_string(), "2".to_string()),
            ("accept".to_string(), "*/*".to_string()),
            (
                "user-agent".to_string(),
                "NRC Audio/2.0.6 (nl.nrc.audio; build:36; Android 14; Sdk:34; \
                 Manufacturer:OnePlus; Model: CPH2609) OkHttp/5.0.0-alpha2"
                    .to_string()
            ),
            ("accept-encoding".to_string(), "gzip, deflate, br".to_string()),
        ]
    );
}

#[test]
fn skip_headers_leaves_the_map_untouched() {
    for id in ALL {
        let mut options = ImpersonateOptions::default();
        options.skip_headers = true;
        let profile = get_settings(id, options).unwrap();
        let mut map = HeaderMap::new();
        map.insert("user-agent", HeaderValue::from_static("mine"));
        map.append("x-a", HeaderValue::from_static("1"));
        map.append("x-a", HeaderValue::from_static("2"));
        let before = entries(&map);
        assert!(header_initializer(&profile, &mut map).is_ok());
        assert_eq!(entries(&map), before);
        let mut empty = HeaderMap::new();
        assert!(header_initializer(&profile, &mut empty).is_ok());
        assert!(empty.is_empty());
    }
}

#[test]
fn a_full_map_refuses_the_headers() {
    let profile = get_settings(ImpersonationId::OkHttp5, ImpersonateOptions::default()).unwrap();
    let mut map = HeaderMap::new();
    let mut n = 0usize;
    loop {
        let name = http::header::HeaderName::from_bytes(format!("x-{}", n).as_bytes()).unwrap();
        if map.try_insert(name, HeaderValue::from_static("v")).is_err() {
            break;
        }
        n += 1;
    }
    let before = map.len();
    let r = header_initializer(&profile, &mut map);
    let full = r.expect_err("the map is full");
    assert_eq!(full.inserted, 0);
    assert_eq!(map.len(), before);
    assert!(!map.contains_key("accept"));
}

#[test]
fn a_map_with_room_takes_the_headers() {
    for id in ALL {
        let profile = get_settings(id, ImpersonateOptions::default()).unwrap();
        let wanted = default_headers(id).len();
        let mut map = HeaderMap::new();
        for n in 0..(SURE_ROOM + 1 - wanted) {
            let name = http::header::HeaderName::from_bytes(format!("x-{}", n).as_bytes()).unwrap();
            map.insert(name, HeaderValue::from_static("v"));
        }
        assert_eq!(map.len() + wanted, SURE_ROOM + 1);
        assert!(header_initializer(&profile, &mut map).is_ok());
        assert_eq!(map.len(), SURE_ROOM + 1);
        let all = entries(&map);
        let expected: Vec<(String, String)> = default_headers(id)
            .iter()
            .map(|(name, value)| (name.to_string(), value.to_string()))
            .collect();
        assert_eq!(all[all.len() - wanted..].to_vec(), expected);
    }
}

#[test]
fn each_default_name_has_one_entry_with_the_value_of_the_build() {
    for id in ALL {
        let profile = get_settings(id, ImpersonateOptions::default()).unwrap();
        let mut map = HeaderMap::new();
        map.append("accept", HeaderValue::from_static("a"));
        map.append("accept", HeaderValue::from_static("b"));
        map.append("x-mine", HeaderValue::from_static("1"));
        map.append("x-mine", HeaderValue::from_static("2"));
        map.append("user-agent", HeaderValue::from_static("mine"));
        assert!(header_initializer(&profile, &mut map).is_ok());
        for (name, value) in default_headers(id) {
            let values: Vec<&str> =
                map.get_all(name).iter().map(|v| v.to_str().unwrap()).collect();
            assert_eq!(values, vec![value]);
        }
        let mine: Vec<&str> = map.get_all("x-mine").iter().map(|v| v.to_str().unwrap()).collect();
        assert_eq!(mine, vec!["1", "2"]);
    }
}

#[test]
fn initializing_twice_is_initializing_once() {
    for id in ALL {
        let profile = get_settings(id, ImpersonateOptions::default()).unwrap();
        let mut map = HeaderMap::new();
        map.insert("x-first", HeaderValue::from_static("1"));
        map.append("accept-encoding", HeaderValue::from_static("identity"));
        map.append("accept-encoding", HeaderValue::from_static("gzip"));
        assert!(header_initializer(&profile, &mut map).is_ok());
        let once = entries(&map);
        assert!(header_initializer(&profile, &mut map).is_ok());
        assert_eq!(entries(&map), once);
    }
}

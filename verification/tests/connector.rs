use rquest::connector::bracketed_interior;
use rquest::connector::is_tls_scheme;
use rquest::connector::negotiated_h2;
use rquest::connector::tls_host;
use rquest::connector::Connect;
use rquest::connector::ConnectAction;
use rquest::connector::ConnectEvent;
use rquest::connector::Hooks;
use rquest::connector::Outcome;
use rquest::connector::SetupAction;
use rquest::connector::SetupStage;
use rquest::connector::SslSetup;
use rquest::connector::StreamKind;
use rquest::error::ConnectError;
use rquest::error::ErrorKind;
use rquest::error::UriError;

/// Whether the text is an IPv6 address, as far as these tests need it.
fn is_ipv6(text: &str) -> bool {
    !text.is_empty() && text.contains(':') && text.chars().all(|c| c == ':' || c.is_ascii_hexdigit())
}

fn begin(scheme: &str, host: Option<&str>, port: Option<u16>) -> Connect {
    let v6 = host.and_then(bracketed_interior).map(is_ipv6).unwrap_or(false);
    Connect::begin(Some(scheme), host, port, v6)
}

/// Drives an attempt with the events, one for each action that asks for
/// work, and returns the actions that it asked for and how it ended.
fn drive(connect: &mut Connect, events: &[ConnectEvent]) -> (Vec<ConnectAction>, ConnectAction) {
    let mut asked = Vec::new();
    let mut events = events.iter();
    loop {
        match connect.action() {
            ConnectAction::ConnectPlain | ConnectAction::SetupSsl | ConnectAction::Handshake => {
                asked.push(connect.action());
                match events.next() {
                    Some(e) => {
                        connect.advance(*e);
                    }
                    None => return (asked, connect.action()),
                }
            }
            end => return (asked, end),
        }
    }
}

fn run_setup(hooks: Hooks, outcomes: &[Outcome]) -> (Vec<SetupStage>, SetupAction) {
    let mut setup = SslSetup::begin(hooks);
    let mut stages = Vec::new();
    let mut outcomes = outcomes.iter();
    loop {
        match setup.action() {
            SetupAction::Run(stage) => {
                stages.push(stage);
                match outcomes.next() {
                    Some(o) => {
                        setup.advance(*o);
                    }
                    None => return (stages, setup.action()),
                }
            }
            end => return (stages, end),
        }
    }
}

#[test]
fn https_and_wss_ask_for_tls() {
    assert!(is_tls_scheme(Some("https")));
    assert!(is_tls_scheme(Some("wss")));
}

#[test]
fn other_schemes_do_not_ask_for_tls() {
    assert!(!is_tls_scheme(Some("http")));
    assert!(!is_tls_scheme(Some("ws")));
    assert!(!is_tls_scheme(Some("HTTPS")));
    assert!(!is_tls_scheme(Some("WSS")));
    assert!(!is_tls_scheme(Some("httpss")));
    assert!(!is_tls_scheme(Some("")));
    assert!(!is_tls_scheme(None));
}

#[test]
fn bracketed_ipv6_host_loses_its_brackets() {
    assert_eq!(bracketed_interior("[::1]"), Some("::1"));
    assert_eq!(tls_host("[::1]", true), "::1");
    assert_eq!(tls_host("[2001:db8::ff00:42:8329]", true), "2001:db8::ff00:42:8329");
}

#[test]
fn bracketed_host_that_is_no_ipv6_address_stays() {
    assert_eq!(bracketed_interior("[example]"), Some("example"));
    assert_eq!(tls_host("[example]", false), "[example]");
    assert_eq!(bracketed_interior("[]"), Some(""));
    assert_eq!(tls_host("[]", false), "[]");
}

#[test]
fn host_without_both_brackets_stays() {
    for host in ["example.com", "::1", "[::1", "::1]", "[", "]", "", "a[::1]", "é[x]é"] {
        assert_eq!(bracketed_interior(host), None);
        assert_eq!(tls_host(host, true), host);
        assert_eq!(tls_host(host, false), host);
    }
}

#[test]
fn brackets_around_text_of_several_bytes_a_character() {
    assert_eq!(bracketed_interior("[é]"), Some("é"));
    assert_eq!(tls_host("[é]", true), "é");
}

#[test]
fn http_uri_yields_the_plaintext_stream() {
    let mut connect = begin("http", Some("example.com"), None);
    assert!(!connect.is_tls());
    let (asked, end) = drive(&mut connect, &[ConnectEvent::Done, ConnectEvent::Done]);
    assert_eq!(asked, vec![ConnectAction::ConnectPlain]);
    assert_eq!(end, ConnectAction::ReturnPlain);
    assert_eq!(connect.advance(ConnectEvent::Done), ConnectAction::ReturnPlain);
    assert_eq!(connect.advance(ConnectEvent::Failed), ConnectAction::ReturnPlain);
}

#[test]
fn http_uri_without_a_host_is_left_to_the_transport() {
    let mut connect = Connect::begin(Some("http"), None, None, false);
    assert_eq!(connect.action(), ConnectAction::ConnectPlain);
    assert_eq!(connect.advance(ConnectEvent::Failed), ConnectAction::Fail(ConnectError::Transport));
    let mut connect = Connect::begin(None, Some("example.com"), None, false);
    assert_eq!(connect.action(), ConnectAction::ConnectPlain);
    assert_eq!(connect.advance(ConnectEvent::Done), ConnectAction::ReturnPlain);
}

#[test]
fn https_and_wss_uris_yield_the_tls_stream() {
    for scheme in ["https", "wss"] {
        let mut connect = begin(scheme, Some("example.com"), Some(8443));
        assert!(connect.is_tls());
        let (asked, end) =
            drive(&mut connect, &[ConnectEvent::Done, ConnectEvent::Done, ConnectEvent::Done]);
        assert_eq!(
            asked,
            vec![ConnectAction::ConnectPlain, ConnectAction::SetupSsl, ConnectAction::Handshake]
        );
        assert_eq!(end, ConnectAction::ReturnTls);
        assert_eq!(connect.advance(ConnectEvent::Failed), ConnectAction::ReturnTls);
    }
}

#[test]
fn transport_failure_ends_the_attempt() {
    let mut connect = begin("https", Some("example.com"), None);
    let (asked, end) = drive(&mut connect, &[ConnectEvent::Failed]);
    assert_eq!(asked, vec![ConnectAction::ConnectPlain]);
    assert_eq!(end, ConnectAction::Fail(ConnectError::Transport));
    assert_eq!(connect.advance(ConnectEvent::Done), ConnectAction::Fail(ConnectError::Transport));
}

#[test]
fn handshake_failure_ends_the_attempt() {
    let mut connect = begin("https", Some("example.com"), None);
    let (asked, end) =
        drive(&mut connect, &[ConnectEvent::Done, ConnectEvent::Done, ConnectEvent::Failed]);
    assert_eq!(asked.len(), 3);
    assert_eq!(end, ConnectAction::Fail(ConnectError::Handshake));
}

#[test]
fn empty_host_fails_with_uri_error_before_anything_is_opened() {
    for host in [None, Some("")] {
        for scheme in ["https", "wss"] {
            let mut connect = Connect::begin(Some(scheme), host, Some(443), false);
            let (asked, end) = drive(&mut connect, &[ConnectEvent::Done]);
            assert!(asked.is_empty());
            assert_eq!(end, ConnectAction::Fail(ConnectError::Uri(UriError::MissingHost)));
            assert_eq!(
                connect.advance(ConnectEvent::Done),
                ConnectAction::Fail(ConnectError::Uri(UriError::MissingHost))
            );
        }
    }
}

#[test]
fn failed_setup_aborts_with_tls_setup_error() {
    let hooks = Hooks { session_cache: false, callback: true, ssl_callback: false };
    let (stages, end) = run_setup(hooks, &[Outcome::Done, Outcome::Done, Outcome::Failed]);
    assert_eq!(stages, vec![SetupStage::Configure, SetupStage::AttachKey, SetupStage::RunCallback]);
    assert_eq!(end, SetupAction::Abort(SetupStage::RunCallback));
    let mut connect = begin("https", Some("example.com"), None);
    let (asked, end) = drive(&mut connect, &[ConnectEvent::Done, ConnectEvent::Failed]);
    assert_eq!(asked, vec![ConnectAction::ConnectPlain, ConnectAction::SetupSsl]);
    assert_eq!(end, ConnectAction::Fail(ConnectError::TlsSetup));
    assert_eq!(ConnectError::TlsSetup.kind(), ErrorKind::TlsSetup);
}

#[test]
fn failed_ssl_callback_aborts_the_setup() {
    let hooks = Hooks { session_cache: false, callback: false, ssl_callback: true };
    let (stages, end) =
        run_setup(hooks, &[Outcome::Done, Outcome::Done, Outcome::Done, Outcome::Failed]);
    assert_eq!(stages.last(), Some(&SetupStage::RunSslCallback));
    assert_eq!(end, SetupAction::Abort(SetupStage::RunSslCallback));
    let mut setup = SslSetup::begin(hooks);
    setup.advance(Outcome::Failed);
    assert_eq!(setup.action(), SetupAction::Abort(SetupStage::Configure));
    assert_eq!(setup.advance(Outcome::Done), SetupAction::Abort(SetupStage::Configure));
}

#[test]
fn setup_with_every_hook_runs_every_stage_in_order() {
    let hooks = Hooks { session_cache: true, callback: true, ssl_callback: true };
    let (stages, end) = run_setup(hooks, &[Outcome::Done; 7]);
    assert_eq!(
        stages,
        vec![
            SetupStage::Configure,
            SetupStage::AttachKey,
            SetupStage::TakeSession,
            SetupStage::SetSession,
            SetupStage::RunCallback,
            SetupStage::IntoSsl,
            SetupStage::RunSslCallback,
        ]
    );
    assert_eq!(end, SetupAction::Finish);
}

#[test]
fn setup_without_a_cached_session_sets_none() {
    let hooks = Hooks { session_cache: true, callback: false, ssl_callback: false };
    let (stages, end) =
        run_setup(hooks, &[Outcome::Done, Outcome::Done, Outcome::Nothing, Outcome::Done]);
    assert_eq!(
        stages,
        vec![
            SetupStage::Configure,
            SetupStage::AttachKey,
            SetupStage::TakeSession,
            SetupStage::IntoSsl,
        ]
    );
    assert_eq!(end, SetupAction::Finish);
}

#[test]
fn setup_without_hooks_has_three_stages() {
    let hooks = Hooks { session_cache: false, callback: false, ssl_callback: false };
    let (stages, end) = run_setup(hooks, &[Outcome::Done; 3]);
    assert_eq!(stages, vec![SetupStage::Configure, SetupStage::AttachKey, SetupStage::IntoSsl]);
    assert_eq!(end, SetupAction::Finish);
    let mut setup = SslSetup::begin(hooks);
    assert_eq!(setup.action(), SetupAction::Run(SetupStage::Configure));
    for _ in 0..3 {
        setup.advance(Outcome::Done);
    }
    assert_eq!(setup.advance(Outcome::Failed), SetupAction::Finish);
}

#[test]
fn failed_session_restore_aborts_the_setup() {
    let hooks = Hooks { session_cache: true, callback: true, ssl_callback: true };
    let (stages, end) =
        run_setup(hooks, &[Outcome::Done, Outcome::Done, Outcome::Done, Outcome::Failed]);
    assert_eq!(stages.last(), Some(&SetupStage::SetSession));
    assert_eq!(end, SetupAction::Abort(SetupStage::SetSession));
}

#[test]
fn connection_to_bracketed_ipv6_host_uses_the_bare_address() {
    let connect = begin("https", Some("[::1]"), Some(8443));
    assert_eq!(connect.host(), "::1");
    assert_eq!(connect.action(), ConnectAction::ConnectPlain);
    let key = connect.session_key();
    assert_eq!(key.host(), "::1");
    assert_eq!(key.port(), 8443);
}

#[test]
fn session_key_of_a_connection() {
    let connect = begin("https", Some("Example.COM"), None);
    assert_eq!(connect.host(), "Example.COM");
    let key = connect.session_key();
    assert_eq!(key.host(), "example.com");
    assert_eq!(key.port(), 443);
    let connect = begin("wss", Some("[2001:DB8::1]"), Some(9443));
    assert_eq!(connect.host(), "2001:DB8::1");
    let key = connect.session_key();
    assert_eq!(key.host(), "2001:db8::1");
    assert_eq!(key.port(), 9443);
}

#[test]
fn h2_is_negotiated_only_for_the_h2_identifier() {
    assert!(negotiated_h2(Some(b"h2")));
    assert!(!negotiated_h2(Some(b"http/1.1")));
    assert!(!negotiated_h2(Some(b"h3")));
    assert!(!negotiated_h2(Some(b"H2")));
    assert!(!negotiated_h2(Some(b"h2c")));
    assert!(!negotiated_h2(Some(b"h")));
    assert!(!negotiated_h2(Some(b"")));
    assert!(!negotiated_h2(None));
}

#[test]
fn stream_kinds_show_without_their_contents() {
    assert_eq!(StreamKind::Http.label(), "Http(..)");
    assert_eq!(StreamKind::Https.label(), "Https(..)");
}

#[test]
fn errors_have_a_kind_and_words() {
    assert_eq!(ConnectError::Uri(UriError::MissingHost).kind(), ErrorKind::Uri);
    assert_eq!(ConnectError::Transport.kind(), ErrorKind::Transport);
    assert_eq!(ConnectError::Handshake.kind(), ErrorKind::Handshake);
    assert_eq!(UriError::MissingHost.message(), "URI missing host");
}

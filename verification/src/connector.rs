//! The decisions of the HTTPS connector.
//!
//! The connector opens a plaintext stream and, for a URI that asks for TLS,
//! prepares a TLS handle and drives the handshake over that stream. Opening,
//! preparing and handshaking are done by the caller; what to do next, and
//! how an attempt ends, is decided here. [`Connect`] follows one connection
//! attempt, [`SslSetup`] the preparation of one TLS handle.

use crate::cache::SessionKey;
use crate::cache::DEFAULT_TLS_PORT;
use crate::error::ConnectError;
use crate::error::UriError;
use crate::text::lower_text;
use crate::text::same_text;
use vstd::prelude::*;

verus! {

/// Whether a scheme asks for TLS: `https` and `wss` do, in exactly this
/// spelling.
pub open spec fn spec_is_tls_scheme(scheme: Option<Seq<char>>) -> bool {
    match scheme {
        Some(s) => s == "https"@ || s == "wss"@,
        None => false,
    }
}

/// The texts of an optional text.
pub open spec fn text_of(text: Option<&str>) -> Option<Seq<char>> {
    match text {
        Some(t) => Some(t@),
        None => None,
    }
}

/// Whether a scheme asks for TLS: `https` and `wss` do.
pub fn is_tls_scheme(scheme: Option<&str>) -> (r: bool)
    ensures
        r == spec_is_tls_scheme(text_of(scheme)),
{
    match scheme {
        Some(s) => same_text(s, "https") || same_text(s, "wss"),
        None => false,
    }
}

/// Whether a host stands in square brackets.
pub open spec fn is_bracketed(host: Seq<char>) -> bool {
    host.len() >= 2 && host[0] == '[' && host.last() == ']'
}

/// What stands between the brackets of a bracketed host.
pub open spec fn interior_of(host: Seq<char>) -> Seq<char> {
    host.subrange(1, host.len() - 1)
}

/// The host as the TLS engine takes it: an IPv6 address in square brackets
/// loses the brackets, every other host stays as it is. Whether the text
/// between the brackets is an IPv6 address is for the caller to say.
pub open spec fn normalized_host(host: Seq<char>, interior_is_ipv6: bool) -> Seq<char> {
    if interior_is_ipv6 && is_bracketed(host) {
        interior_of(host)
    } else {
        host
    }
}

/// What stands between the brackets of a host, if it stands in brackets.
pub fn bracketed_interior(host: &str) -> (r: Option<&str>)
    ensures
        r is Some <==> is_bracketed(host@),
        r matches Some(interior) ==> interior@ == interior_of(host@),
{
    let n = host.unicode_len();
    if n >= 2 && host.get_char(0) == '[' && host.get_char(n - 1) == ']' {
        Some(host.substring_char(1, n - 1))
    } else {
        None
    }
}

/// The host as the TLS engine takes it. `interior_is_ipv6` says whether
/// what [`bracketed_interior`] returned for the host is an IPv6 address.
pub fn tls_host(host: &str, interior_is_ipv6: bool) -> (r: &str)
    ensures
        r@ == normalized_host(host@, interior_is_ipv6),
{
    if interior_is_ipv6 {
        match bracketed_interior(host) {
            Some(interior) => interior,
            None => host,
        }
    } else {
        host
    }
}

/// The ALPN identifier of HTTP/2: `h2`.
pub open spec fn h2_id() -> Seq<u8> {
    seq![0x68u8, 0x32u8]
}

/// Whether the protocol that the peer selected by ALPN is HTTP/2.
pub fn negotiated_h2(selected: Option<&[u8]>) -> (r: bool)
    ensures
        r == (selected matches Some(p) && p@ == h2_id()),
{
    match selected {
        Some(p) => {
            let r = p.len() == 2 && p[0] == 0x68u8 && p[1] == 0x32u8;
            assert(r == (p@ =~= h2_id()));
            r
        },
        None => false,
    }
}

/// Which of the two kinds a stream is.
#[derive(Clone, Copy, Debug, PartialEq, Eq, Structural)]
pub enum StreamKind {
    /// A plaintext stream.
    Http,
    /// A stream wrapped in TLS.
    Https,
}

impl StreamKind {
    /// How a stream of the kind shows in debug output.
    pub open spec fn spec_label(self) -> Seq<char> {
        match self {
            StreamKind::Http => "Http(..)"@,
            StreamKind::Https => "Https(..)"@,
        }
    }

    /// How a stream of the kind shows in debug output.
    pub fn label(self) -> (r: &'static str)
        ensures
            r@ == self.spec_label(),
    {
        match self {
            StreamKind::Http => "Http(..)",
            StreamKind::Https => "Https(..)",
        }
    }
}

/// What a connector has that bears on the preparation of a TLS handle.
#[derive(Clone, Copy, Debug, PartialEq, Eq, Structural)]
pub struct Hooks {
    /// Sessions are cached.
    pub session_cache: bool,
    /// A callback for the configuration of each connection is registered.
    pub callback: bool,
    /// A callback for the TLS handle of each connection is registered.
    pub ssl_callback: bool,
}

/// A stage of the preparation of a TLS handle.
#[derive(Clone, Copy, Debug, PartialEq, Eq, Structural)]
pub enum SetupStage {
    /// Make the configuration of the connection from the shared context.
    Configure,
    /// Attach the session key to the configuration.
    AttachKey,
    /// Take a session of the key from the cache.
    TakeSession,
    /// Set the session that was taken on the configuration.
    SetSession,
    /// Run the callback on the configuration.
    RunCallback,
    /// Turn the configuration into the TLS handle of the host.
    IntoSsl,
    /// Run the callback on the TLS handle.
    RunSslCallback,
}

/// What the caller is to do next for a TLS handle.
#[derive(Clone, Copy, Debug, PartialEq, Eq, Structural)]
pub enum SetupAction {
    /// Carry out the stage and report how it went.
    Run(SetupStage),
    /// The handle is ready.
    Finish,
    /// Give up: the stage failed. Nothing more is to be done but to drop
    /// what was made.
    Abort(SetupStage),
}

/// How a stage went.
#[derive(Clone, Copy, Debug, PartialEq, Eq, Structural)]
pub enum Outcome {
    /// It succeeded.
    Done,
    /// It succeeded and found nothing: the cache held no session.
    Nothing,
    /// It failed.
    Failed,
}

/// The stage after the session was dealt with.
pub open spec fn after_session(hooks: Hooks) -> SetupAction {
    if hooks.callback {
        SetupAction::Run(SetupStage::RunCallback)
    } else {
        SetupAction::Run(SetupStage::IntoSsl)
    }
}

/// What is to be done after a stage went as `outcome` says. The key is
/// attached first; then the cache is consulted, if there is one, and a
/// session that it held is set; then the callbacks run, each where it
/// applies. A stage that fails ends the preparation.
pub open spec fn setup_next(hooks: Hooks, action: SetupAction, outcome: Outcome) -> SetupAction {
    match action {
        SetupAction::Run(stage) => if outcome == Outcome::Failed {
            SetupAction::Abort(stage)
        } else {
            match stage {
                SetupStage::Configure => SetupAction::Run(SetupStage::AttachKey),
                SetupStage::AttachKey => if hooks.session_cache {
                    SetupAction::Run(SetupStage::TakeSession)
                } else {
                    after_session(hooks)
                },
                SetupStage::TakeSession => if outcome == Outcome::Done {
                    SetupAction::Run(SetupStage::SetSession)
                } else {
                    after_session(hooks)
                },
                SetupStage::SetSession => after_session(hooks),
                SetupStage::RunCallback => SetupAction::Run(SetupStage::IntoSsl),
                SetupStage::IntoSsl => if hooks.ssl_callback {
                    SetupAction::Run(SetupStage::RunSslCallback)
                } else {
                    SetupAction::Finish
                },
                SetupStage::RunSslCallback => SetupAction::Finish,
            }
        },
        SetupAction::Finish => SetupAction::Finish,
        SetupAction::Abort(stage) => SetupAction::Abort(stage),
    }
}

/// What is to be done after the stages went as `outcomes` say, one after
/// the other.
pub open spec fn setup_run(hooks: Hooks, action: SetupAction, outcomes: Seq<Outcome>) -> SetupAction
    decreases outcomes.len(),
{
    if outcomes.len() == 0 {
        action
    } else {
        setup_next(hooks, setup_run(hooks, action, outcomes.drop_last()), outcomes.last())
    }
}

/// The stages of a preparation in which nothing fails, in order.
pub open spec fn setup_stages(hooks: Hooks, session_found: bool) -> Seq<SetupStage> {
    seq![SetupStage::Configure, SetupStage::AttachKey] + (if hooks.session_cache {
        if session_found {
            seq![SetupStage::TakeSession, SetupStage::SetSession]
        } else {
            seq![SetupStage::TakeSession]
        }
    } else {
        Seq::empty()
    }) + (if hooks.callback {
        seq![SetupStage::RunCallback]
    } else {
        Seq::empty()
    }) + seq![SetupStage::IntoSsl] + (if hooks.ssl_callback {
        seq![SetupStage::RunSslCallback]
    } else {
        Seq::empty()
    })
}

/// How the stages of a preparation go in which nothing fails.
pub open spec fn setup_successes(hooks: Hooks, session_found: bool) -> Seq<Outcome> {
    Seq::new(
        setup_stages(hooks, session_found).len(),
        |i: int|
            if setup_stages(hooks, session_found)[i] == SetupStage::TakeSession
                && !session_found {
                Outcome::Nothing
            } else {
                Outcome::Done
            },
    )
}

/// The preparation of the TLS handle of one connection.
#[derive(Clone, Debug)]
pub struct SslSetup {
    hooks: Hooks,
    action: SetupAction,
}

impl SslSetup {
    /// What the connector has.
    pub closed spec fn spec_hooks(&self) -> Hooks {
        self.hooks
    }

    /// What is to be done next.
    pub closed spec fn spec_action(&self) -> SetupAction {
        self.action
    }

    /// A preparation at its start: the configuration is to be made.
    pub fn begin(hooks: Hooks) -> (r: SslSetup)
        ensures
            r.spec_hooks() == hooks,
            r.spec_action() == SetupAction::Run(SetupStage::Configure),
    {
        SslSetup { hooks, action: SetupAction::Run(SetupStage::Configure) }
    }

    /// What is to be done next.
    #[verifier::when_used_as_spec(spec_action)]
    pub fn action(&self) -> (r: SetupAction)
        ensures
            r == self.spec_action(),
    {
        self.action
    }

    /// Takes note of how the stage went that was to be carried out, and
    /// returns what is to be done next.
    pub fn advance(&mut self, outcome: Outcome) -> (r: SetupAction)
        ensures
            final(self).spec_hooks() == old(self).spec_hooks(),
            final(self).spec_action() == setup_next(
                old(self).spec_hooks(),
                old(self).spec_action(),
                outcome,
            ),
            r == final(self).spec_action(),
    {
        let hooks = self.hooks;
        let after = if hooks.callback {
            SetupAction::Run(SetupStage::RunCallback)
        } else {
            SetupAction::Run(SetupStage::IntoSsl)
        };
        let failed = match outcome {
            Outcome::Failed => true,
            _ => false,
        };
        let found = match outcome {
            Outcome::Done => true,
            _ => false,
        };
        let next = match self.action {
            SetupAction::Run(stage) => if failed {
                SetupAction::Abort(stage)
            } else {
                match stage {
                    SetupStage::Configure => SetupAction::Run(SetupStage::AttachKey),
                    SetupStage::AttachKey => if hooks.session_cache {
                        SetupAction::Run(SetupStage::TakeSession)
                    } else {
                        after
                    },
                    SetupStage::TakeSession => if found {
                        SetupAction::Run(SetupStage::SetSession)
                    } else {
                        after
                    },
                    SetupStage::SetSession => after,
                    SetupStage::RunCallback => SetupAction::Run(SetupStage::IntoSsl),
                    SetupStage::IntoSsl => if hooks.ssl_callback {
                        SetupAction::Run(SetupStage::RunSslCallback)
                    } else {
                        SetupAction::Finish
                    },
                    SetupStage::RunSslCallback => SetupAction::Finish,
                }
            },
            SetupAction::Finish => SetupAction::Finish,
            SetupAction::Abort(stage) => SetupAction::Abort(stage),
        };
        self.action = next;
        next
    }
}

/// What the caller is to do next for a connection.
#[derive(Clone, Copy, Debug, PartialEq, Eq, Structural)]
pub enum ConnectAction {
    /// Open the plaintext stream.
    ConnectPlain,
    /// Prepare the TLS handle of the host.
    SetupSsl,
    /// Drive the TLS handshake over the plaintext stream.
    Handshake,
    /// Return the plaintext stream.
    ReturnPlain,
    /// Return the TLS stream.
    ReturnTls,
    /// Give up with the error, and drop the plaintext stream if it was
    /// opened.
    Fail(ConnectError),
}

/// How what was to be done went.
#[derive(Clone, Copy, Debug, PartialEq, Eq, Structural)]
pub enum ConnectEvent {
    Done,
    Failed,
}

/// What is to be done first for a connection: a URI that asks for TLS and
/// names no host fails at once; for every other the plaintext stream is
/// opened.
pub open spec fn connect_first(tls: bool, host: Seq<char>) -> ConnectAction {
    if tls && host.len() == 0 {
        ConnectAction::Fail(ConnectError::Uri(UriError::MissingHost))
    } else {
        ConnectAction::ConnectPlain
    }
}

/// What is to be done after `action` went as `event` says. Without TLS the
/// plaintext stream is the result. With TLS the handle is prepared once the
/// plaintext stream is open, and the handshake driven once the handle is
/// ready. What fails ends the attempt, and nothing is tried again.
pub open spec fn connect_next(tls: bool, action: ConnectAction, event: ConnectEvent) -> ConnectAction {
    match action {
        ConnectAction::ConnectPlain => match event {
            ConnectEvent::Failed => ConnectAction::Fail(ConnectError::Transport),
            ConnectEvent::Done => if tls {
                ConnectAction::SetupSsl
            } else {
                ConnectAction::ReturnPlain
            },
        },
        ConnectAction::SetupSsl => match event {
            ConnectEvent::Failed => ConnectAction::Fail(ConnectError::TlsSetup),
            ConnectEvent::Done => ConnectAction::Handshake,
        },
        ConnectAction::Handshake => match event {
            ConnectEvent::Failed => ConnectAction::Fail(ConnectError::Handshake),
            ConnectEvent::Done => ConnectAction::ReturnTls,
        },
        ConnectAction::ReturnPlain => ConnectAction::ReturnPlain,
        ConnectAction::ReturnTls => ConnectAction::ReturnTls,
        ConnectAction::Fail(e) => ConnectAction::Fail(e),
    }
}

/// What is to be done after the actions went as `events` say, one after
/// the other.
pub open spec fn connect_run(tls: bool, action: ConnectAction, events: Seq<ConnectEvent>) -> ConnectAction
    decreases events.len(),
{
    if events.len() == 0 {
        action
    } else {
        connect_next(tls, connect_run(tls, action, events.drop_last()), events.last())
    }
}

/// One connection attempt as plain values.
pub struct ConnectView {
    /// Whether the URI asks for TLS.
    pub tls: bool,
    /// The host as the TLS engine takes it; empty if the URI names none.
    pub host: Seq<char>,
    /// The port that the URI names, if any.
    pub port: Option<u16>,
    /// What is to be done next.
    pub action: ConnectAction,
}

/// A connection attempt at its start.
pub open spec fn connect_start(
    scheme: Option<Seq<char>>,
    host: Option<Seq<char>>,
    port: Option<u16>,
    interior_is_ipv6: bool,
) -> ConnectView {
    let tls = spec_is_tls_scheme(scheme);
    let host = match host {
        Some(h) => normalized_host(h, interior_is_ipv6),
        None => Seq::empty(),
    };
    ConnectView { tls, host, port, action: connect_first(tls, host) }
}

/// One connection attempt.
#[derive(Clone, Debug)]
pub struct Connect {
    tls: bool,
    host: String,
    port: Option<u16>,
    action: ConnectAction,
}

impl View for Connect {
    type V = ConnectView;

    closed spec fn view(&self) -> ConnectView {
        ConnectView { tls: self.tls, host: self.host@, port: self.port, action: self.action }
    }
}

impl Connect {
    /// An attempt to connect to what a URI names. `interior_is_ipv6` says
    /// whether what [`bracketed_interior`] returns for the host is an IPv6
    /// address.
    pub fn begin(
        scheme: Option<&str>,
        host: Option<&str>,
        port: Option<u16>,
        interior_is_ipv6: bool,
    ) -> (r: Connect)
        ensures
            r@ == connect_start(text_of(scheme), text_of(host), port, interior_is_ipv6),
    {
        let tls = is_tls_scheme(scheme);
        let host = match host {
            Some(h) => tls_host(h, interior_is_ipv6).to_owned(),
            None => String::new(),
        };
        let action = if tls && host.as_str().is_empty() {
            ConnectAction::Fail(ConnectError::Uri(UriError::MissingHost))
        } else {
            ConnectAction::ConnectPlain
        };
        Connect { tls, host, port, action }
    }

    /// Whether the URI asks for TLS.
    pub fn is_tls(&self) -> (r: bool)
        ensures
            r == self@.tls,
    {
        self.tls
    }

    /// The host as the TLS engine takes it.
    pub fn host(&self) -> (r: &str)
        ensures
            r@ == self@.host,
    {
        self.host.as_str()
    }

    /// What is to be done next.
    pub fn action(&self) -> (r: ConnectAction)
        ensures
            r == self@.action,
    {
        self.action
    }

    /// The key under which the sessions of the peer are cached: the host
    /// as the TLS engine takes it, in lower case, and the port of the URI,
    /// 443 if it names none.
    pub fn session_key(&self) -> (key: SessionKey)
        ensures
            key@ == (
                lower_text(self@.host),
                match self@.port {
                    Some(p) => p,
                    None => DEFAULT_TLS_PORT,
                },
            ),
    {
        SessionKey::new(self.host.as_str(), self.port)
    }

    /// Takes note of how what was to be done went, and returns what is to
    /// be done next.
    pub fn advance(&mut self, event: ConnectEvent) -> (r: ConnectAction)
        ensures
            final(self)@ == (ConnectView {
                action: connect_next(old(self)@.tls, old(self)@.action, event),
                ..old(self)@
            }),
            r == final(self)@.action,
    {
        let done = match event {
            ConnectEvent::Done => true,
            ConnectEvent::Failed => false,
        };
        let next = match self.action {
            ConnectAction::ConnectPlain => if !done {
                ConnectAction::Fail(ConnectError::Transport)
            } else if self.tls {
                ConnectAction::SetupSsl
            } else {
                ConnectAction::ReturnPlain
            },
            ConnectAction::SetupSsl => if done {
                ConnectAction::Handshake
            } else {
                ConnectAction::Fail(ConnectError::TlsSetup)
            },
            ConnectAction::Handshake => if done {
                ConnectAction::ReturnTls
            } else {
                ConnectAction::Fail(ConnectError::Handshake)
            },
            ConnectAction::ReturnPlain => ConnectAction::ReturnPlain,
            ConnectAction::ReturnTls => ConnectAction::ReturnTls,
            ConnectAction::Fail(e) => ConnectAction::Fail(e),
        };
        self.action = next;
        next
    }
}

/// The IPv6 loopback address in brackets loses its brackets.
pub proof fn lemma_loopback_loses_brackets()
    ensures
        normalized_host("[::1]"@, true) == "::1"@,
{
    reveal_strlit("[::1]");
    reveal_strlit("::1");
    assert(normalized_host("[::1]"@, true) =~= "::1"@);
}

/// A stage that fails ends the preparation, and nothing that is reported
/// afterwards changes that. So a callback that fails aborts it.
pub proof fn lemma_failed_stage_aborts(hooks: Hooks, stage: SetupStage, later: Seq<Outcome>)
    ensures
        setup_next(hooks, SetupAction::Run(stage), Outcome::Failed) == SetupAction::Abort(stage),
        setup_run(hooks, SetupAction::Abort(stage), later) == SetupAction::Abort(stage),
    decreases later.len(),
{
    if later.len() > 0 {
        lemma_failed_stage_aborts(hooks, stage, later.drop_last());
    }
}

/// A preparation in which nothing fails goes through its stages in order:
/// the key is attached before the cache is consulted, a session is set
/// only if one was found, the callbacks run after that, each only if it
/// is registered, and then the handle is ready.
pub proof fn lemma_setup_order(hooks: Hooks, session_found: bool, done: int)
    requires
        0 <= done <= setup_stages(hooks, session_found).len(),
    ensures
        setup_run(
            hooks,
            SetupAction::Run(SetupStage::Configure),
            setup_successes(hooks, session_found).take(done),
        ) == if done < setup_stages(hooks, session_found).len() {
            SetupAction::Run(setup_stages(hooks, session_found)[done])
        } else {
            SetupAction::Finish
        },
    decreases done,
{
    let stages = setup_stages(hooks, session_found);
    let outcomes = setup_successes(hooks, session_found);
    if done > 0 {
        lemma_setup_order(hooks, session_found, done - 1);
        assert(outcomes.take(done).drop_last() =~= outcomes.take(done - 1));
        assert(outcomes.take(done).last() == outcomes[done - 1]);
    } else {
        assert(outcomes.take(0) =~= Seq::empty());
    }
}

/// Without TLS an attempt ends with the plaintext stream or with a failure
/// of the transport, whatever happens; the TLS engine is never asked.
pub proof fn lemma_plain_stays_plain(host: Seq<char>, events: Seq<ConnectEvent>)
    ensures
        ({
            let last = connect_run(false, connect_first(false, host), events);
            last == ConnectAction::ConnectPlain || last == ConnectAction::ReturnPlain || last
                == ConnectAction::Fail(ConnectError::Transport)
        }),
        events.len() > 0 && events[0] == ConnectEvent::Done ==> connect_run(
            false,
            connect_first(false, host),
            events,
        ) == ConnectAction::ReturnPlain,
    decreases events.len(),
{
    if events.len() > 0 {
        lemma_plain_stays_plain(host, events.drop_last());
        if events.len() > 1 {
            assert(events.drop_last()[0] == events[0]);
        }
    }
}

/// With TLS an attempt never ends with the plaintext stream, and it ends
/// with the TLS stream exactly when the plaintext stream was opened, the
/// handle prepared and the handshake driven, all three with success.
pub proof fn lemma_tls_ends_in_tls(host: Seq<char>, events: Seq<ConnectEvent>)
    requires
        host.len() > 0,
    ensures
        connect_run(true, connect_first(true, host), events) != ConnectAction::ReturnPlain,
        connect_run(true, connect_first(true, host), events) == ConnectAction::ReturnTls <==> (
        events.len() >= 3 && events[0] == ConnectEvent::Done && events[1] == ConnectEvent::Done
            && events[2] == ConnectEvent::Done),
    decreases events.len(),
{
    let first = connect_first(true, host);
    if events.len() > 0 {
        let front = events.drop_last();
        lemma_tls_ends_in_tls(host, front);
        lemma_tls_progress(host, front);
        assert forall|i: int| 0 <= i < front.len() implies front[i] == events[i] by {}
    }
}

/// Where an attempt with TLS stands after some events.
proof fn lemma_tls_progress(host: Seq<char>, events: Seq<ConnectEvent>)
    requires
        host.len() > 0,
    ensures
        ({
            let last = connect_run(true, connect_first(true, host), events);
            &&& last == ConnectAction::ConnectPlain <==> events.len() == 0
            &&& last == ConnectAction::SetupSsl <==> (events.len() == 1 && events[0]
                == ConnectEvent::Done)
            &&& last == ConnectAction::Handshake <==> (events.len() == 2 && events[0]
                == ConnectEvent::Done && events[1] == ConnectEvent::Done)
        }),
    decreases events.len(),
{
    if events.len() > 0 {
        let front = events.drop_last();
        lemma_tls_progress(host, front);
        assert forall|i: int| 0 <= i < front.len() implies front[i] == events[i] by {}
    }
}

/// A URI that asks for TLS and names no host, or an empty one, fails with
/// `MissingHost` before anything is opened, and nothing changes that.
pub proof fn lemma_missing_host_fails_first(
    scheme: Option<Seq<char>>,
    host: Option<Seq<char>>,
    port: Option<u16>,
    interior_is_ipv6: bool,
    events: Seq<ConnectEvent>,
)
    requires
        spec_is_tls_scheme(scheme),
        host matches Some(h) ==> h.len() == 0,
    ensures
        connect_start(scheme, host, port, interior_is_ipv6).action == ConnectAction::Fail(
            ConnectError::Uri(UriError::MissingHost),
        ),
        connect_run(
            true,
            connect_start(scheme, host, port, interior_is_ipv6).action,
            events,
        ) == ConnectAction::Fail(ConnectError::Uri(UriError::MissingHost)),
    decreases events.len(),
{
    if events.len() > 0 {
        lemma_missing_host_fails_first(scheme, host, port, interior_is_ipv6, events.drop_last());
    }
}

/// A TLS handle that cannot be prepared ends the attempt with `TlsSetup`,
/// and nothing that is reported afterwards changes that.
pub proof fn lemma_failed_setup_fails(later: Seq<ConnectEvent>)
    ensures
        connect_next(true, ConnectAction::SetupSsl, ConnectEvent::Failed) == ConnectAction::Fail(
            ConnectError::TlsSetup,
        ),
        connect_run(true, ConnectAction::Fail(ConnectError::TlsSetup), later)
            == ConnectAction::Fail(ConnectError::TlsSetup),
    decreases later.len(),
{
    if later.len() > 0 {
        lemma_failed_setup_fails(later.drop_last());
    }
}

} // verus!

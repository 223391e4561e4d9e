//! The Safari family, desktop and iOS: its TLS template, and the values of
//! each version.

use crate::headers::all_plain;
use crate::headers::distinct_names;
use crate::headers::texts;
use crate::http2::Http2FrameSettings;
use crate::http2::Http2FrameSettingsView;
use crate::http2::PseudoHeader;
use crate::http2::SettingId;
use crate::tls::AlpnProtocol;
use crate::tls::CertCompression;
use crate::tls::CipherSuite;
use crate::tls::Curve;
use crate::tls::SignatureAlgorithm;
use crate::tls::Tls13Cipher;
use crate::tls::TlsParameters;
use crate::tls::TlsParametersView;
use vstd::prelude::*;

verus! {

/// The TLS 1.3 suites of the family, in its order.
pub open spec fn spec_tls13_ciphers() -> Seq<Tls13Cipher> {
    seq![
        Tls13Cipher::Aes128GcmSha256,
        Tls13Cipher::Aes256GcmSha384,
        Tls13Cipher::Chacha20Poly1305Sha256,
    ]
}

/// The TLS 1.3 suites of the family, in its order.
pub fn tls13_ciphers() -> (r: Vec<Tls13Cipher>)
    ensures
        r@ == spec_tls13_ciphers(),
{
    let r = vec![
        Tls13Cipher::Aes128GcmSha256,
        Tls13Cipher::Aes256GcmSha384,
        Tls13Cipher::Chacha20Poly1305Sha256,
    ];
    assert(r@ =~= spec_tls13_ciphers());
    r
}

/// The older suites of the family, in the order of WebKit.
pub open spec fn spec_ciphers() -> Seq<CipherSuite> {
    seq![
        CipherSuite::EcdheEcdsaAes256GcmSha384,
        CipherSuite::EcdheEcdsaAes128GcmSha256,
        CipherSuite::EcdheEcdsaChacha20Poly1305,
        CipherSuite::EcdheRsaAes256GcmSha384,
        CipherSuite::EcdheRsaAes128GcmSha256,
        CipherSuite::EcdheRsaChacha20Poly1305,
        CipherSuite::EcdheEcdsaAes256CbcSha,
        CipherSuite::EcdheEcdsaAes128CbcSha,
        CipherSuite::EcdheRsaAes256CbcSha,
        CipherSuite::EcdheRsaAes128CbcSha,
        CipherSuite::RsaAes256GcmSha384,
        CipherSuite::RsaAes128GcmSha256,
        CipherSuite::RsaAes256CbcSha,
        CipherSuite::RsaAes128CbcSha,
        CipherSuite::EcdheEcdsa3desEdeCbcSha,
        CipherSuite::EcdheRsa3desEdeCbcSha,
        CipherSuite::Rsa3desEdeCbcSha,
    ]
}

/// The older suites of the family, in the order of WebKit.
pub fn ciphers() -> (r: Vec<CipherSuite>)
    ensures
        r@ == spec_ciphers(),
{
    let r = vec![
        CipherSuite::EcdheEcdsaAes256GcmSha384,
        CipherSuite::EcdheEcdsaAes128GcmSha256,
        CipherSuite::EcdheEcdsaChacha20Poly1305,
        CipherSuite::EcdheRsaAes256GcmSha384,
        CipherSuite::EcdheRsaAes128GcmSha256,
        CipherSuite::EcdheRsaChacha20Poly1305,
        CipherSuite::EcdheEcdsaAes256CbcSha,
        CipherSuite::EcdheEcdsaAes128CbcSha,
        CipherSuite::EcdheRsaAes256CbcSha,
        CipherSuite::EcdheRsaAes128CbcSha,
        CipherSuite::RsaAes256GcmSha384,
        CipherSuite::RsaAes128GcmSha256,
        CipherSuite::RsaAes256CbcSha,
        CipherSuite::RsaAes128CbcSha,
        CipherSuite::EcdheEcdsa3desEdeCbcSha,
        CipherSuite::EcdheRsa3desEdeCbcSha,
        CipherSuite::Rsa3desEdeCbcSha,
    ];
    assert(r@ =~= spec_ciphers());
    r
}

/// The curves of the family, in its order.
pub open spec fn spec_curves() -> Seq<Curve> {
    seq![
        Curve::X25519,
        Curve::P256,
        Curve::P384,
        Curve::P521,
    ]
}

/// The curves of the family, in its order.
pub fn curves() -> (r: Vec<Curve>)
    ensures
        r@ == spec_curves(),
{
    let r = vec![
        Curve::X25519,
        Curve::P256,
        Curve::P384,
        Curve::P521,
    ];
    assert(r@ =~= spec_curves());
    r
}

/// The signature algorithms of the family, in its order.
pub open spec fn spec_signature_algorithms() -> Seq<SignatureAlgorithm> {
    seq![
        SignatureAlgorithm::EcdsaSecp256r1Sha256,
        SignatureAlgorithm::RsaPssRsaeSha256,
        SignatureAlgorithm::RsaPkcs1Sha256,
        SignatureAlgorithm::EcdsaSecp384r1Sha384,
        SignatureAlgorithm::EcdsaSha1,
        SignatureAlgorithm::RsaPssRsaeSha384,
        SignatureAlgorithm::RsaPssRsaeSha384,
        SignatureAlgorithm::RsaPkcs1Sha384,
        SignatureAlgorithm::RsaPssRsaeSha512,
        SignatureAlgorithm::RsaPkcs1Sha512,
        SignatureAlgorithm::RsaPkcs1Sha1,
    ]
}

/// The signature algorithms of the family, in its order.
pub fn signature_algorithms() -> (r: Vec<SignatureAlgorithm>)
    ensures
        r@ == spec_signature_algorithms(),
{
    let r = vec![
        SignatureAlgorithm::EcdsaSecp256r1Sha256,
        SignatureAlgorithm::RsaPssRsaeSha256,
        SignatureAlgorithm::RsaPkcs1Sha256,
        SignatureAlgorithm::EcdsaSecp384r1Sha384,
        SignatureAlgorithm::EcdsaSha1,
        SignatureAlgorithm::RsaPssRsaeSha384,
        SignatureAlgorithm::RsaPssRsaeSha384,
        SignatureAlgorithm::RsaPkcs1Sha384,
        SignatureAlgorithm::RsaPssRsaeSha512,
        SignatureAlgorithm::RsaPkcs1Sha512,
        SignatureAlgorithm::RsaPkcs1Sha1,
    ];
    assert(r@ =~= spec_signature_algorithms());
    r
}

/// The TLS template of the family: extensions in a fixed order, a
/// pre-shared-key extension without a session, certificates compressed
/// with zlib.
pub open spec fn spec_tls() -> TlsParametersView {
    TlsParametersView {
        tls13_cipher_list: spec_tls13_ciphers(),
        cipher_list: spec_ciphers(),
        curves: spec_curves(),
        signature_algorithms: spec_signature_algorithms(),
        alpn_protocols: seq![AlpnProtocol::H2, AlpnProtocol::Http11],
        alps: None,
        certificate_compression: seq![CertCompression::Zlib],
        permutation_seed: None,
        enable_ech_grease: false,
        accept_invalid_certs: false,
        permute_extensions: false,
        enable_grease_in_extensions: true,
        psk_dhe_ke: true,
        psk_with_no_session: true,
        record_size_limit: None,
        session_ticket: false,
        ocsp_stapling: true,
        signed_cert_timestamps: true,
    }
}

/// The TLS template of the family: extensions in a fixed order, a
/// pre-shared-key extension without a session, certificates compressed
/// with zlib.
pub fn tls() -> (r: TlsParameters)
    ensures
        r@ == spec_tls(),
{
    let r = TlsParameters {
        tls13_cipher_list: tls13_ciphers(),
        cipher_list: ciphers(),
        curves: curves(),
        signature_algorithms: signature_algorithms(),
        alpn_protocols: vec![AlpnProtocol::H2, AlpnProtocol::Http11],
        alps: None,
        certificate_compression: vec![CertCompression::Zlib],
        permutation_seed: None,
        enable_ech_grease: false,
        accept_invalid_certs: false,
        permute_extensions: false,
        enable_grease_in_extensions: true,
        psk_dhe_ke: true,
        psk_with_no_session: true,
        record_size_limit: None,
        session_ticket: false,
        ocsp_stapling: true,
        signed_cert_timestamps: true,
    };
    assert(r@ =~= spec_tls());
    r
}

/// The HTTP/2 preface of Safari on iOS 17.4.1.
pub open spec fn spec_http2_ios_17_4_1() -> Http2FrameSettingsView {
    Http2FrameSettingsView {
        initial_stream_window_size: Some(2097152u32),
        initial_connection_window_size: Some(10551295u32),
        max_concurrent_streams: Some(100u32),
        max_header_list_size: None,
        header_table_size: None,
        enable_push: Some(false),
        settings_order: seq![
            SettingId::EnablePush,
            SettingId::InitialWindowSize,
            SettingId::MaxConcurrentStreams,
        ],
        headers_pseudo_order: seq![
            PseudoHeader::Method,
            PseudoHeader::Scheme,
            PseudoHeader::Path,
            PseudoHeader::Authority,
        ],
        headers_priority: None,
    }
}

/// The HTTP/2 preface of Safari on iOS 17.4.1.
pub fn http2_ios_17_4_1() -> (r: Http2FrameSettings)
    ensures
        r@ == spec_http2_ios_17_4_1(),
{
    let r = Http2FrameSettings {
        initial_stream_window_size: Some(2097152u32),
        initial_connection_window_size: Some(10551295u32),
        max_concurrent_streams: Some(100u32),
        max_header_list_size: None,
        header_table_size: None,
        enable_push: Some(false),
        settings_order: vec![
            SettingId::EnablePush,
            SettingId::InitialWindowSize,
            SettingId::MaxConcurrentStreams,
        ],
        headers_pseudo_order: vec![
            PseudoHeader::Method,
            PseudoHeader::Scheme,
            PseudoHeader::Path,
            PseudoHeader::Authority,
        ],
        headers_priority: None,
    };
    assert(r@ =~= spec_http2_ios_17_4_1());
    r
}

/// The default headers of Safari on iOS 17.4.1, in the order in which it
/// sends them.
pub open spec fn spec_headers_ios_17_4_1() -> Seq<(Seq<char>, Seq<char>)> {
    seq![
        ("accept"@, "text/html,application/xhtml+xml,application/xml;q=0.9,*/*;q=0.8"@),
        ("sec-fetch-site"@, "none"@),
        ("accept-encoding"@, "gzip, deflate, br"@),
        ("sec-fetch-mode"@, "navigate"@),
        ("user-agent"@, "Mozilla/5.0 (iPad; CPU OS 17_4_1 like Mac OS X) AppleWebKit/605.1.15 (KHTML, like Gecko) Version/17.4.1 Mobile/15E148 Safari/604.1"@),
        ("accept-language"@, "en-US,en;q=0.9"@),
        ("sec-fetch-dest"@, "document"@),
    ]
}

/// The default headers of Safari on iOS 17.4.1, in the order in which it
/// sends them.
pub fn headers_ios_17_4_1() -> (r: Vec<(&'static str, &'static str)>)
    ensures
        texts(r@) == spec_headers_ios_17_4_1(),
        all_plain(spec_headers_ios_17_4_1()),
{
    let r = vec![
        ("accept", "text/html,application/xhtml+xml,application/xml;q=0.9,*/*;q=0.8"),
        ("sec-fetch-site", "none"),
        ("accept-encoding", "gzip, deflate, br"),
        ("sec-fetch-mode", "navigate"),
        ("user-agent", "Mozilla/5.0 (iPad; CPU OS 17_4_1 like Mac OS X) AppleWebKit/605.1.15 (KHTML, like Gecko) Version/17.4.1 Mobile/15E148 Safari/604.1"),
        ("accept-language", "en-US,en;q=0.9"),
        ("sec-fetch-dest", "document"),
    ];
    proof {
        reveal_strlit("accept");
        reveal_strlit("text/html,application/xhtml+xml,application/xml;q=0.9,*/*;q=0.8");
        reveal_strlit("sec-fetch-site");
        reveal_strlit("none");
        reveal_strlit("accept-encoding");
        reveal_strlit("gzip, deflate, br");
        reveal_strlit("sec-fetch-mode");
        reveal_strlit("navigate");
        reveal_strlit("user-agent");
        reveal_strlit("Mozilla/5.0 (iPad; CPU OS 17_4_1 like Mac OS X) AppleWebKit/605.1.15 (KHTML, like Gecko) Version/17.4.1 Mobile/15E148 Safari/604.1");
        reveal_strlit("accept-language");
        reveal_strlit("en-US,en;q=0.9");
        reveal_strlit("sec-fetch-dest");
        reveal_strlit("document");
        assert(texts(r@) =~= spec_headers_ios_17_4_1());
    }
    r
}

/// No two of the default headers of Safari on iOS 17.4.1 have the same name.
pub proof fn lemma_headers_ios_17_4_1_distinct()
    ensures
        distinct_names(spec_headers_ios_17_4_1()),
{
    let headers = spec_headers_ios_17_4_1();
    reveal_strlit("accept");
    reveal_strlit("sec-fetch-site");
    reveal_strlit("accept-encoding");
    reveal_strlit("sec-fetch-mode");
    reveal_strlit("user-agent");
    reveal_strlit("accept-language");
    reveal_strlit("sec-fetch-dest");
    assert(headers[0].0.len() == 6);
    assert(headers[1].0.len() == 14);
    assert(headers[2].0.len() == 15);
    assert(headers[3].0.len() == 14);
    assert(headers[4].0.len() == 10);
    assert(headers[5].0.len() == 15);
    assert(headers[6].0.len() == 14);
    assert(headers[1].0[10] != headers[3].0[10]);
    assert(headers[1].0[10] != headers[6].0[10]);
    assert(headers[2].0[7] != headers[5].0[7]);
    assert(headers[3].0[10] != headers[6].0[10]);
}

} // verus!

//! The Chrome family (Chrome, Edge and other Chromium builds): its TLS
//! template, and the values of each version.

use crate::headers::all_plain;
use crate::headers::distinct_names;
use crate::headers::texts;
use crate::http2::Http2FrameSettings;
use crate::http2::Http2FrameSettingsView;
use crate::http2::PseudoHeader;
use crate::http2::SettingId;
use crate::tls::AlpnProtocol;
use crate::tls::CertCompression;
use crate::tls::CipherSuite;
use crate::tls::Curve;
use crate::tls::SignatureAlgorithm;
use crate::tls::Tls13Cipher;
use crate::tls::TlsParameters;
use crate::tls::TlsParametersView;
use vstd::prelude::*;

verus! {

/// First major version whose key share holds the Kyber hybrid.
pub const FIRST_MAJOR_WITH_KYBER: u16 = 124;

/// The TLS 1.3 suites of the family, in its order.
pub open spec fn spec_tls13_ciphers() -> Seq<Tls13Cipher> {
    seq![
        Tls13Cipher::Aes128GcmSha256,
        Tls13Cipher::Aes256GcmSha384,
        Tls13Cipher::Chacha20Poly1305Sha256,
    ]
}

/// The TLS 1.3 suites of the family, in its order.
pub fn tls13_ciphers() -> (r: Vec<Tls13Cipher>)
    ensures
        r@ == spec_tls13_ciphers(),
{
    let r = vec![
        Tls13Cipher::Aes128GcmSha256,
        Tls13Cipher::Aes256GcmSha384,
        Tls13Cipher::Chacha20Poly1305Sha256,
    ];
    assert(r@ =~= spec_tls13_ciphers());
    r
}

/// The older suites of the family, in its order: ECDHE first.
pub open spec fn spec_ciphers() -> Seq<CipherSuite> {
    seq![
        CipherSuite::EcdheEcdsaAes128GcmSha256,
        CipherSuite::EcdheRsaAes128GcmSha256,
        CipherSuite::EcdheEcdsaAes256GcmSha384,
        CipherSuite::EcdheRsaAes256GcmSha384,
        CipherSuite::EcdheEcdsaChacha20Poly1305,
        CipherSuite::EcdheRsaChacha20Poly1305,
        CipherSuite::EcdheRsaAes128CbcSha,
        CipherSuite::EcdheRsaAes256CbcSha,
        CipherSuite::RsaAes128GcmSha256,
        CipherSuite::RsaAes256GcmSha384,
        CipherSuite::RsaAes128CbcSha,
        CipherSuite::RsaAes256CbcSha,
    ]
}

/// The older suites of the family, in its order: ECDHE first.
pub fn ciphers() -> (r: Vec<CipherSuite>)
    ensures
        r@ == spec_ciphers(),
{
    let r = vec![
        CipherSuite::EcdheEcdsaAes128GcmSha256,
        CipherSuite::EcdheRsaAes128GcmSha256,
        CipherSuite::EcdheEcdsaAes256GcmSha384,
        CipherSuite::EcdheRsaAes256GcmSha384,
        CipherSuite::EcdheEcdsaChacha20Poly1305,
        CipherSuite::EcdheRsaChacha20Poly1305,
        CipherSuite::EcdheRsaAes128CbcSha,
        CipherSuite::EcdheRsaAes256CbcSha,
        CipherSuite::RsaAes128GcmSha256,
        CipherSuite::RsaAes256GcmSha384,
        CipherSuite::RsaAes128CbcSha,
        CipherSuite::RsaAes256CbcSha,
    ];
    assert(r@ =~= spec_ciphers());
    r
}

/// The curves of a version: X25519, P-256 and P-384, behind the Kyber
/// hybrid from version 124 on.
pub open spec fn spec_curves(major: u16) -> Seq<Curve> {
    if major >= FIRST_MAJOR_WITH_KYBER {
        seq![Curve::X25519Kyber768Draft00, Curve::X25519, Curve::P256, Curve::P384]
    } else {
        seq![Curve::X25519, Curve::P256, Curve::P384]
    }
}

/// The curves of a version: X25519, P-256 and P-384, behind the Kyber
/// hybrid from version 124 on.
pub fn curves(major: u16) -> (r: Vec<Curve>)
    ensures
        r@ == spec_curves(major),
{
    let r = if major >= FIRST_MAJOR_WITH_KYBER {
        vec![Curve::X25519Kyber768Draft00, Curve::X25519, Curve::P256, Curve::P384]
    } else {
        vec![Curve::X25519, Curve::P256, Curve::P384]
    };
    assert(r@ =~= spec_curves(major));
    r
}

/// The signature algorithms of the family, in its order.
pub open spec fn spec_signature_algorithms() -> Seq<SignatureAlgorithm> {
    seq![
        SignatureAlgorithm::EcdsaSecp256r1Sha256,
        SignatureAlgorithm::RsaPssRsaeSha256,
        SignatureAlgorithm::RsaPkcs1Sha256,
        SignatureAlgorithm::EcdsaSecp384r1Sha384,
        SignatureAlgorithm::RsaPssRsaeSha384,
        SignatureAlgorithm::RsaPkcs1Sha384,
        SignatureAlgorithm::RsaPssRsaeSha512,
        SignatureAlgorithm::RsaPkcs1Sha512,
    ]
}

/// The signature algorithms of the family, in its order.
pub fn signature_algorithms() -> (r: Vec<SignatureAlgorithm>)
    ensures
        r@ == spec_signature_algorithms(),
{
    let r = vec![
        SignatureAlgorithm::EcdsaSecp256r1Sha256,
        SignatureAlgorithm::RsaPssRsaeSha256,
        SignatureAlgorithm::RsaPkcs1Sha256,
        SignatureAlgorithm::EcdsaSecp384r1Sha384,
        SignatureAlgorithm::RsaPssRsaeSha384,
        SignatureAlgorithm::RsaPkcs1Sha384,
        SignatureAlgorithm::RsaPssRsaeSha512,
        SignatureAlgorithm::RsaPkcs1Sha512,
    ];
    assert(r@ =~= spec_signature_algorithms());
    r
}

/// The TLS template of the family, for a major version: GREASE, shuffled
/// extensions, ALPS for `h2`, certificates compressed with Brotli.
pub open spec fn spec_tls(major: u16) -> TlsParametersView {
    TlsParametersView {
        tls13_cipher_list: spec_tls13_ciphers(),
        cipher_list: spec_ciphers(),
        curves: spec_curves(major),
        signature_algorithms: spec_signature_algorithms(),
        alpn_protocols: seq![AlpnProtocol::H2, AlpnProtocol::Http11],
        alps: Some(AlpnProtocol::H2),
        certificate_compression: seq![CertCompression::Brotli],
        permutation_seed: None,
        enable_ech_grease: false,
        accept_invalid_certs: false,
        permute_extensions: true,
        enable_grease_in_extensions: true,
        psk_dhe_ke: true,
        psk_with_no_session: false,
        record_size_limit: None,
        session_ticket: true,
        ocsp_stapling: true,
        signed_cert_timestamps: true,
    }
}

/// The TLS template of the family, for a major version: GREASE, shuffled
/// extensions, ALPS for `h2`, certificates compressed with Brotli.
pub fn tls(major: u16) -> (r: TlsParameters)
    ensures
        r@ == spec_tls(major),
{
    let r = TlsParameters {
        tls13_cipher_list: tls13_ciphers(),
        cipher_list: ciphers(),
        curves: curves(major),
        signature_algorithms: signature_algorithms(),
        alpn_protocols: vec![AlpnProtocol::H2, AlpnProtocol::Http11],
        alps: Some(AlpnProtocol::H2),
        certificate_compression: vec![CertCompression::Brotli],
        permutation_seed: None,
        enable_ech_grease: false,
        accept_invalid_certs: false,
        permute_extensions: true,
        enable_grease_in_extensions: true,
        psk_dhe_ke: true,
        psk_with_no_session: false,
        record_size_limit: None,
        session_ticket: true,
        ocsp_stapling: true,
        signed_cert_timestamps: true,
    };
    assert(r@ =~= spec_tls(major));
    r
}

/// The HTTP/2 preface of Chrome 117.
pub open spec fn spec_http2_117() -> Http2FrameSettingsView {
    Http2FrameSettingsView {
        initial_stream_window_size: Some(6291456u32),
        initial_connection_window_size: Some(15728640u32),
        max_concurrent_streams: None,
        max_header_list_size: Some(262144u32),
        header_table_size: Some(65536u32),
        enable_push: Some(false),
        settings_order: seq![
            SettingId::HeaderTableSize,
            SettingId::EnablePush,
            SettingId::InitialWindowSize,
            SettingId::MaxHeaderListSize,
        ],
        headers_pseudo_order: seq![
            PseudoHeader::Method,
            PseudoHeader::Authority,
            PseudoHeader::Scheme,
            PseudoHeader::Path,
        ],
        headers_priority: None,
    }
}

/// The HTTP/2 preface of Chrome 117.
pub fn http2_117() -> (r: Http2FrameSettings)
    ensures
        r@ == spec_http2_117(),
{
    let r = Http2FrameSettings {
        initial_stream_window_size: Some(6291456u32),
        initial_connection_window_size: Some(15728640u32),
        max_concurrent_streams: None,
        max_header_list_size: Some(262144u32),
        header_table_size: Some(65536u32),
        enable_push: Some(false),
        settings_order: vec![
            SettingId::HeaderTableSize,
            SettingId::EnablePush,
            SettingId::InitialWindowSize,
            SettingId::MaxHeaderListSize,
        ],
        headers_pseudo_order: vec![
            PseudoHeader::Method,
            PseudoHeader::Authority,
            PseudoHeader::Scheme,
            PseudoHeader::Path,
        ],
        headers_priority: None,
    };
    assert(r@ =~= spec_http2_117());
    r
}

/// The default headers of Chrome 117, in the order in which it sends them.
pub open spec fn spec_headers_117() -> Seq<(Seq<char>, Seq<char>)> {
    seq![
        ("sec-ch-ua"@, r#""Google Chrome";v="117", "Not;A=Brand";v="8", "Chromium";v="117""#@),
        ("sec-ch-ua-mobile"@, "?0"@),
        ("sec-ch-ua-platform"@, r#""Windows""#@),
        ("upgrade-insecure-requests"@, "1"@),
        ("user-agent"@, "Mozilla/5.0 (Windows NT 10.0; Win64; x64) AppleWebKit/537.36 (KHTML, like Gecko) Chrome/117.0.0.0 Safari/537.36"@),
        ("accept"@, "text/html,application/xhtml+xml,application/xml;q=0.9,image/avif,image/webp,image/apng,*/*;q=0.8,application/signed-exchange;v=b3;q=0.7"@),
        ("sec-fetch-site"@, "none"@),
        ("sec-fetch-mode"@, "navigate"@),
        ("sec-fetch-user"@, "?1"@),
        ("sec-fetch-dest"@, "document"@),
        ("accept-encoding"@, "gzip, deflate, br"@),
        ("accept-language"@, "en-US,en;q=0.9"@),
    ]
}

/// The default headers of Chrome 117, in the order in which it sends them.
pub fn headers_117() -> (r: Vec<(&'static str, &'static str)>)
    ensures
        texts(r@) == spec_headers_117(),
        all_plain(spec_headers_117()),
{
    let r = vec![
        ("sec-ch-ua", r#""Google Chrome";v="117", "Not;A=Brand";v="8", "Chromium";v="117""#),
        ("sec-ch-ua-mobile", "?0"),
        ("sec-ch-ua-platform", r#""Windows""#),
        ("upgrade-insecure-requests", "1"),
        ("user-agent", "Mozilla/5.0 (Windows NT 10.0; Win64; x64) AppleWebKit/537.36 (KHTML, like Gecko) Chrome/117.0.0.0 Safari/537.36"),
        ("accept", "text/html,application/xhtml+xml,application/xml;q=0.9,image/avif,image/webp,image/apng,*/*;q=0.8,application/signed-exchange;v=b3;q=0.7"),
        ("sec-fetch-site", "none"),
        ("sec-fetch-mode", "navigate"),
        ("sec-fetch-user", "?1"),
        ("sec-fetch-dest", "document"),
        ("accept-encoding", "gzip, deflate, br"),
        ("accept-language", "en-US,en;q=0.9"),
    ];
    proof {
        reveal_strlit("sec-ch-ua");
        reveal_strlit(r#""Google Chrome";v="117", "Not;A=Brand";v="8", "Chromium";v="117""#);
        reveal_strlit("sec-ch-ua-mobile");
        reveal_strlit("?0");
        reveal_strlit("sec-ch-ua-platform");
        reveal_strlit(r#""Windows""#);
        reveal_strlit("upgrade-insecure-requests");
        reveal_strlit("1");
        reveal_strlit("user-agent");
        reveal_strlit("Mozilla/5.0 (Windows NT 10.0; Win64; x64) AppleWebKit/537.36 (KHTML, like Gecko) Chrome/117.0.0.0 Safari/537.36");
        reveal_strlit("accept");
        reveal_strlit("text/html,application/xhtml+xml,application/xml;q=0.9,image/avif,image/webp,image/apng,*/*;q=0.8,application/signed-exchange;v=b3;q=0.7");
        reveal_strlit("sec-fetch-site");
        reveal_strlit("none");
        reveal_strlit("sec-fetch-mode");
        reveal_strlit("navigate");
        reveal_strlit("sec-fetch-user");
        reveal_strlit("?1");
        reveal_strlit("sec-fetch-dest");
        reveal_strlit("document");
        reveal_strlit("accept-encoding");
        reveal_strlit("gzip, deflate, br");
        reveal_strlit("accept-language");
        reveal_strlit("en-US,en;q=0.9");
        assert(texts(r@) =~= spec_headers_117());
    }
    r
}

/// No two of the default headers of Chrome 117 have the same name.
pub proof fn lemma_headers_117_distinct()
    ensures
        distinct_names(spec_headers_117()),
{
    let headers = spec_headers_117();
    reveal_strlit("sec-ch-ua");
    reveal_strlit("sec-ch-ua-mobile");
    reveal_strlit("sec-ch-ua-platform");
    reveal_strlit("upgrade-insecure-requests");
    reveal_strlit("user-agent");
    reveal_strlit("accept");
    reveal_strlit("sec-fetch-site");
    reveal_strlit("sec-fetch-mode");
    reveal_strlit("sec-fetch-user");
    reveal_strlit("sec-fetch-dest");
    reveal_strlit("accept-encoding");
    reveal_strlit("accept-language");
    assert(headers[0].0.len() == 9);
    assert(headers[1].0.len() == 16);
    assert(headers[2].0.len() == 18);
    assert(headers[3].0.len() == 25);
    assert(headers[4].0.len() == 10);
    assert(headers[5].0.len() == 6);
    assert(headers[6].0.len() == 14);
    assert(headers[7].0.len() == 14);
    assert(headers[8].0.len() == 14);
    assert(headers[9].0.len() == 14);
    assert(headers[10].0.len() == 15);
    assert(headers[11].0.len() == 15);
    assert(headers[6].0[10] != headers[7].0[10]);
    assert(headers[6].0[10] != headers[8].0[10]);
    assert(headers[6].0[10] != headers[9].0[10]);
    assert(headers[7].0[10] != headers[8].0[10]);
    assert(headers[7].0[10] != headers[9].0[10]);
    assert(headers[8].0[10] != headers[9].0[10]);
    assert(headers[10].0[7] != headers[11].0[7]);
}

} // verus!

//! The Firefox family: its TLS template, and the values of each version.

use crate::headers::all_plain;
use crate::headers::distinct_names;
use crate::headers::texts;
use crate::http2::Http2FrameSettings;
use crate::http2::Http2FrameSettingsView;
use crate::http2::PseudoHeader;
use crate::http2::SettingId;
use crate::tls::AlpnProtocol;
use crate::tls::CipherSuite;
use crate::tls::Curve;
use crate::tls::SignatureAlgorithm;
use crate::tls::Tls13Cipher;
use crate::tls::TlsParameters;
use crate::tls::TlsParametersView;
use vstd::prelude::*;

verus! {

/// The record size limit that the family advertises.
pub const RECORD_SIZE_LIMIT: u16 = 16385;

/// The TLS 1.3 suites of the family, in its order.
pub open spec fn spec_tls13_ciphers() -> Seq<Tls13Cipher> {
    seq![
        Tls13Cipher::Aes128GcmSha256,
        Tls13Cipher::Chacha20Poly1305Sha256,
        Tls13Cipher::Aes256GcmSha384,
    ]
}

/// The TLS 1.3 suites of the family, in its order.
pub fn tls13_ciphers() -> (r: Vec<Tls13Cipher>)
    ensures
        r@ == spec_tls13_ciphers(),
{
    let r = vec![
        Tls13Cipher::Aes128GcmSha256,
        Tls13Cipher::Chacha20Poly1305Sha256,
        Tls13Cipher::Aes256GcmSha384,
    ];
    assert(r@ =~= spec_tls13_ciphers());
    r
}

/// The older suites of the family, in its order.
pub open spec fn spec_ciphers() -> Seq<CipherSuite> {
    seq![
        CipherSuite::EcdheEcdsaAes128GcmSha256,
        CipherSuite::EcdheRsaAes128GcmSha256,
        CipherSuite::EcdheEcdsaChacha20Poly1305,
        CipherSuite::EcdheRsaChacha20Poly1305,
        CipherSuite::EcdheEcdsaAes256GcmSha384,
        CipherSuite::EcdheRsaAes256GcmSha384,
        CipherSuite::EcdheEcdsaAes256CbcSha,
        CipherSuite::EcdheEcdsaAes128CbcSha,
        CipherSuite::EcdheRsaAes128CbcSha,
        CipherSuite::EcdheRsaAes256CbcSha,
        CipherSuite::RsaAes128GcmSha256,
        CipherSuite::RsaAes256GcmSha384,
        CipherSuite::RsaAes128CbcSha,
        CipherSuite::RsaAes256CbcSha,
    ]
}

/// The older suites of the family, in its order.
pub fn ciphers() -> (r: Vec<CipherSuite>)
    ensures
        r@ == spec_ciphers(),
{
    let r = vec![
        CipherSuite::EcdheEcdsaAes128GcmSha256,
        CipherSuite::EcdheRsaAes128GcmSha256,
        CipherSuite::EcdheEcdsaChacha20Poly1305,
        CipherSuite::EcdheRsaChacha20Poly1305,
        CipherSuite::EcdheEcdsaAes256GcmSha384,
        CipherSuite::EcdheRsaAes256GcmSha384,
        CipherSuite::EcdheEcdsaAes256CbcSha,
        CipherSuite::EcdheEcdsaAes128CbcSha,
        CipherSuite::EcdheRsaAes128CbcSha,
        CipherSuite::EcdheRsaAes256CbcSha,
        CipherSuite::RsaAes128GcmSha256,
        CipherSuite::RsaAes256GcmSha384,
        CipherSuite::RsaAes128CbcSha,
        CipherSuite::RsaAes256CbcSha,
    ];
    assert(r@ =~= spec_ciphers());
    r
}

/// The curves of the family, in its order.
pub open spec fn spec_curves() -> Seq<Curve> {
    seq![
        Curve::X25519,
        Curve::P256,
        Curve::P384,
        Curve::P521,
        Curve::Ffdhe2048,
        Curve::Ffdhe3072,
    ]
}

/// The curves of the family, in its order.
pub fn curves() -> (r: Vec<Curve>)
    ensures
        r@ == spec_curves(),
{
    let r = vec![
        Curve::X25519,
        Curve::P256,
        Curve::P384,
        Curve::P521,
        Curve::Ffdhe2048,
        Curve::Ffdhe3072,
    ];
    assert(r@ =~= spec_curves());
    r
}

/// The signature algorithms of the family, in its order.
pub open spec fn spec_signature_algorithms() -> Seq<SignatureAlgorithm> {
    seq![
        SignatureAlgorithm::EcdsaSecp256r1Sha256,
        SignatureAlgorithm::EcdsaSecp384r1Sha384,
        SignatureAlgorithm::EcdsaSecp521r1Sha512,
        SignatureAlgorithm::RsaPssRsaeSha256,
        SignatureAlgorithm::RsaPssRsaeSha384,
        SignatureAlgorithm::RsaPssRsaeSha512,
        SignatureAlgorithm::RsaPkcs1Sha256,
        SignatureAlgorithm::RsaPkcs1Sha384,
        SignatureAlgorithm::RsaPkcs1Sha512,
        SignatureAlgorithm::EcdsaSha1,
        SignatureAlgorithm::RsaPkcs1Sha1,
    ]
}

/// The signature algorithms of the family, in its order.
pub fn signature_algorithms() -> (r: Vec<SignatureAlgorithm>)
    ensures
        r@ == spec_signature_algorithms(),
{
    let r = vec![
        SignatureAlgorithm::EcdsaSecp256r1Sha256,
        SignatureAlgorithm::EcdsaSecp384r1Sha384,
        SignatureAlgorithm::EcdsaSecp521r1Sha512,
        SignatureAlgorithm::RsaPssRsaeSha256,
        SignatureAlgorithm::RsaPssRsaeSha384,
        SignatureAlgorithm::RsaPssRsaeSha512,
        SignatureAlgorithm::RsaPkcs1Sha256,
        SignatureAlgorithm::RsaPkcs1Sha384,
        SignatureAlgorithm::RsaPkcs1Sha512,
        SignatureAlgorithm::EcdsaSha1,
        SignatureAlgorithm::RsaPkcs1Sha1,
    ];
    assert(r@ =~= spec_signature_algorithms());
    r
}

/// The TLS template of the family: no GREASE, no ALPS, extensions in a
/// fixed order, a record size limit.
pub open spec fn spec_tls() -> TlsParametersView {
    TlsParametersView {
        tls13_cipher_list: spec_tls13_ciphers(),
        cipher_list: spec_ciphers(),
        curves: spec_curves(),
        signature_algorithms: spec_signature_algorithms(),
        alpn_protocols: seq![AlpnProtocol::H2, AlpnProtocol::Http11],
        alps: None,
        certificate_compression: Seq::empty(),
        permutation_seed: None,
        enable_ech_grease: false,
        accept_invalid_certs: false,
        permute_extensions: false,
        enable_grease_in_extensions: false,
        psk_dhe_ke: true,
        psk_with_no_session: false,
        record_size_limit: Some(RECORD_SIZE_LIMIT),
        session_ticket: true,
        ocsp_stapling: true,
        signed_cert_timestamps: false,
    }
}

/// The TLS template of the family: no GREASE, no ALPS, extensions in a
/// fixed order, a record size limit.
pub fn tls() -> (r: TlsParameters)
    ensures
        r@ == spec_tls(),
{
    let r = TlsParameters {
        tls13_cipher_list: tls13_ciphers(),
        cipher_list: ciphers(),
        curves: curves(),
        signature_algorithms: signature_algorithms(),
        alpn_protocols: vec![AlpnProtocol::H2, AlpnProtocol::Http11],
        alps: None,
        certificate_compression: Vec::new(),
        permutation_seed: None,
        enable_ech_grease: false,
        accept_invalid_certs: false,
        permute_extensions: false,
        enable_grease_in_extensions: false,
        psk_dhe_ke: true,
        psk_with_no_session: false,
        record_size_limit: Some(RECORD_SIZE_LIMIT),
        session_ticket: true,
        ocsp_stapling: true,
        signed_cert_timestamps: false,
    };
    assert(r@ =~= spec_tls());
    r
}

/// The HTTP/2 preface of Firefox 117.
pub open spec fn spec_http2_117() -> Http2FrameSettingsView {
    Http2FrameSettingsView {
        initial_stream_window_size: Some(131072u32),
        initial_connection_window_size: Some(12582912u32),
        max_concurrent_streams: None,
        max_header_list_size: None,
        header_table_size: Some(65536u32),
        enable_push: None,
        settings_order: seq![SettingId::HeaderTableSize, SettingId::InitialWindowSize],
        headers_pseudo_order: seq![
            PseudoHeader::Method,
            PseudoHeader::Path,
            PseudoHeader::Authority,
            PseudoHeader::Scheme,
        ],
        headers_priority: None,
    }
}

/// The HTTP/2 preface of Firefox 117.
pub fn http2_117() -> (r: Http2FrameSettings)
    ensures
        r@ == spec_http2_117(),
{
    let r = Http2FrameSettings {
        initial_stream_window_size: Some(131072u32),
        initial_connection_window_size: Some(12582912u32),
        max_concurrent_streams: None,
        max_header_list_size: None,
        header_table_size: Some(65536u32),
        enable_push: None,
        settings_order: vec![SettingId::HeaderTableSize, SettingId::InitialWindowSize],
        headers_pseudo_order: vec![
            PseudoHeader::Method,
            PseudoHeader::Path,
            PseudoHeader::Authority,
            PseudoHeader::Scheme,
        ],
        headers_priority: None,
    };
    assert(r@ =~= spec_http2_117());
    r
}

/// The default headers of Firefox 117, in the order in which it sends
/// them.
pub open spec fn spec_headers_117() -> Seq<(Seq<char>, Seq<char>)> {
    seq![
        ("user-agent"@, "Mozilla/5.0 (Windows NT 10.0; Win64; x64; rv:109.0) Gecko/20100101 Firefox/117.0"@),
        ("accept"@, "text/html,application/xhtml+xml,application/xml;q=0.9,image/avif,image/webp,*/*;q=0.8"@),
        ("accept-language"@, "en-US,en;q=0.5"@),
        ("accept-encoding"@, "gzip, deflate, br"@),
        ("upgrade-insecure-requests"@, "1"@),
        ("sec-fetch-dest"@, "document"@),
        ("sec-fetch-mode"@, "navigate"@),
        ("sec-fetch-site"@, "none"@),
        ("sec-fetch-user"@, "?1"@),
        ("te"@, "trailers"@),
    ]
}

/// The default headers of Firefox 117, in the order in which it sends
/// them.
pub fn headers_117() -> (r: Vec<(&'static str, &'static str)>)
    ensures
        texts(r@) == spec_headers_117(),
        all_plain(spec_headers_117()),
{
    let r = vec![
        ("user-agent", "Mozilla/5.0 (Windows NT 10.0; Win64; x64; rv:109.0) Gecko/20100101 Firefox/117.0"),
        ("accept", "text/html,application/xhtml+xml,application/xml;q=0.9,image/avif,image/webp,*/*;q=0.8"),
        ("accept-language", "en-US,en;q=0.5"),
        ("accept-encoding", "gzip, deflate, br"),
        ("upgrade-insecure-requests", "1"),
        ("sec-fetch-dest", "document"),
        ("sec-fetch-mode", "navigate"),
        ("sec-fetch-site", "none"),
        ("sec-fetch-user", "?1"),
        ("te", "trailers"),
    ];
    proof {
        reveal_strlit("user-agent");
        reveal_strlit("Mozilla/5.0 (Windows NT 10.0; Win64; x64; rv:109.0) Gecko/20100101 Firefox/117.0");
        reveal_strlit("accept");
        reveal_strlit("text/html,application/xhtml+xml,application/xml;q=0.9,image/avif,image/webp,*/*;q=0.8");
        reveal_strlit("accept-language");
        reveal_strlit("en-US,en;q=0.5");
        reveal_strlit("accept-encoding");
        reveal_strlit("gzip, deflate, br");
        reveal_strlit("upgrade-insecure-requests");
        reveal_strlit("1");
        reveal_strlit("sec-fetch-dest");
        reveal_strlit("document");
        reveal_strlit("sec-fetch-mode");
        reveal_strlit("navigate");
        reveal_strlit("sec-fetch-site");
        reveal_strlit("none");
        reveal_strlit("sec-fetch-user");
        reveal_strlit("?1");
        reveal_strlit("te");
        reveal_strlit("trailers");
        assert(texts(r@) =~= spec_headers_117());
    }
    r
}

/// No two of the default headers of Firefox 117 have the same name.
pub proof fn lemma_headers_117_distinct()
    ensures
        distinct_names(spec_headers_117()),
{
    let headers = spec_headers_117();
    reveal_strlit("user-agent");
    reveal_strlit("accept");
    reveal_strlit("accept-language");
    reveal_strlit("accept-encoding");
    reveal_strlit("upgrade-insecure-requests");
    reveal_strlit("sec-fetch-dest");
    reveal_strlit("sec-fetch-mode");
    reveal_strlit("sec-fetch-site");
    reveal_strlit("sec-fetch-user");
    reveal_strlit("te");
    assert(headers[0].0.len() == 10);
    assert(headers[1].0.len() == 6);
    assert(headers[2].0.len() == 15);
    assert(headers[3].0.len() == 15);
    assert(headers[4].0.len() == 25);
    assert(headers[5].0.len() == 14);
    assert(headers[6].0.len() == 14);
    assert(headers[7].0.len() == 14);
    assert(headers[8].0.len() == 14);
    assert(headers[9].0.len() == 2);
    assert(headers[2].0[7] != headers[3].0[7]);
    assert(headers[5].0[10] != headers[6].0[10]);
    assert(headers[5].0[10] != headers[7].0[10]);
    assert(headers[5].0[10] != headers[8].0[10]);
    assert(headers[6].0[10] != headers[7].0[10]);
    assert(headers[6].0[10] != headers[8].0[10]);
    assert(headers[7].0[10] != headers[8].0[10]);
}

} // verus!

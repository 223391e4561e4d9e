//! The OkHttp family: its TLS template, and the values of each version.

use crate::headers::all_plain;
use crate::headers::distinct_names;
use crate::headers::texts;
use crate::http2::Http2FrameSettings;
use crate::http2::Http2FrameSettingsView;
use crate::http2::PseudoHeader;
use crate::http2::SettingId;
use crate::tls::AlpnProtocol;
use crate::tls::CipherSuite;
use crate::tls::Curve;
use crate::tls::SignatureAlgorithm;
use crate::tls::Tls13Cipher;
use crate::tls::TlsParameters;
use crate::tls::TlsParametersView;
use vstd::prelude::*;

verus! {

/// The TLS 1.3 suites of the family, in its order.
pub open spec fn spec_tls13_ciphers() -> Seq<Tls13Cipher> {
    seq![
        Tls13Cipher::Aes128GcmSha256,
        Tls13Cipher::Aes256GcmSha384,
        Tls13Cipher::Chacha20Poly1305Sha256,
    ]
}

/// The TLS 1.3 suites of the family, in its order.
pub fn tls13_ciphers() -> (r: Vec<Tls13Cipher>)
    ensures
        r@ == spec_tls13_ciphers(),
{
    let r = vec![
        Tls13Cipher::Aes128GcmSha256,
        Tls13Cipher::Aes256GcmSha384,
        Tls13Cipher::Chacha20Poly1305Sha256,
    ];
    assert(r@ =~= spec_tls13_ciphers());
    r
}

/// The older suites of the family, in its order.
pub open spec fn spec_ciphers() -> Seq<CipherSuite> {
    seq![
        CipherSuite::EcdheEcdsaAes128GcmSha256,
        CipherSuite::EcdheRsaAes128GcmSha256,
        CipherSuite::EcdheEcdsaAes256GcmSha384,
        CipherSuite::EcdheRsaAes256GcmSha384,
        CipherSuite::EcdheEcdsaChacha20Poly1305,
        CipherSuite::EcdheRsaChacha20Poly1305,
        CipherSuite::EcdheRsaAes128CbcSha,
        CipherSuite::EcdheRsaAes256CbcSha,
        CipherSuite::RsaAes128GcmSha256,
        CipherSuite::RsaAes256GcmSha384,
        CipherSuite::RsaAes128CbcSha,
        CipherSuite::RsaAes256CbcSha,
    ]
}

/// The older suites of the family, in its order.
pub fn ciphers() -> (r: Vec<CipherSuite>)
    ensures
        r@ == spec_ciphers(),
{
    let r = vec![
        CipherSuite::EcdheEcdsaAes128GcmSha256,
        CipherSuite::EcdheRsaAes128GcmSha256,
        CipherSuite::EcdheEcdsaAes256GcmSha384,
        CipherSuite::EcdheRsaAes256GcmSha384,
        CipherSuite::EcdheEcdsaChacha20Poly1305,
        CipherSuite::EcdheRsaChacha20Poly1305,
        CipherSuite::EcdheRsaAes128CbcSha,
        CipherSuite::EcdheRsaAes256CbcSha,
        CipherSuite::RsaAes128GcmSha256,
        CipherSuite::RsaAes256GcmSha384,
        CipherSuite::RsaAes128CbcSha,
        CipherSuite::RsaAes256CbcSha,
    ];
    assert(r@ =~= spec_ciphers());
    r
}

/// The curves of the family, in its order.
pub open spec fn spec_curves() -> Seq<Curve> {
    seq![
        Curve::X25519,
        Curve::P256,
        Curve::P384,
    ]
}

/// The curves of the family, in its order.
pub fn curves() -> (r: Vec<Curve>)
    ensures
        r@ == spec_curves(),
{
    let r = vec![
        Curve::X25519,
        Curve::P256,
        Curve::P384,
    ];
    assert(r@ =~= spec_curves());
    r
}

/// The signature algorithms of the family, in its order.
pub open spec fn spec_signature_algorithms() -> Seq<SignatureAlgorithm> {
    seq![
        SignatureAlgorithm::EcdsaSecp256r1Sha256,
        SignatureAlgorithm::RsaPssRsaeSha256,
        SignatureAlgorithm::RsaPkcs1Sha256,
        SignatureAlgorithm::EcdsaSecp384r1Sha384,
        SignatureAlgorithm::RsaPssRsaeSha384,
        SignatureAlgorithm::RsaPkcs1Sha384,
        SignatureAlgorithm::RsaPssRsaeSha512,
        SignatureAlgorithm::RsaPkcs1Sha512,
        SignatureAlgorithm::RsaPkcs1Sha1,
    ]
}

/// The signature algorithms of the family, in its order.
pub fn signature_algorithms() -> (r: Vec<SignatureAlgorithm>)
    ensures
        r@ == spec_signature_algorithms(),
{
    let r = vec![
        SignatureAlgorithm::EcdsaSecp256r1Sha256,
        SignatureAlgorithm::RsaPssRsaeSha256,
        SignatureAlgorithm::RsaPkcs1Sha256,
        SignatureAlgorithm::EcdsaSecp384r1Sha384,
        SignatureAlgorithm::RsaPssRsaeSha384,
        SignatureAlgorithm::RsaPkcs1Sha384,
        SignatureAlgorithm::RsaPssRsaeSha512,
        SignatureAlgorithm::RsaPkcs1Sha512,
        SignatureAlgorithm::RsaPkcs1Sha1,
    ];
    assert(r@ =~= spec_signature_algorithms());
    r
}

/// The TLS template of the family: no GREASE, extensions in a fixed
/// order.
pub open spec fn spec_tls() -> TlsParametersView {
    TlsParametersView {
        tls13_cipher_list: spec_tls13_ciphers(),
        cipher_list: spec_ciphers(),
        curves: spec_curves(),
        signature_algorithms: spec_signature_algorithms(),
        alpn_protocols: seq![AlpnProtocol::H2, AlpnProtocol::Http11],
        alps: None,
        certificate_compression: Seq::empty(),
        permutation_seed: None,
        enable_ech_grease: false,
        accept_invalid_certs: false,
        permute_extensions: false,
        enable_grease_in_extensions: false,
        psk_dhe_ke: true,
        psk_with_no_session: false,
        record_size_limit: None,
        session_ticket: true,
        ocsp_stapling: true,
        signed_cert_timestamps: false,
    }
}

/// The TLS template of the family: no GREASE, extensions in a fixed
/// order.
pub fn tls() -> (r: TlsParameters)
    ensures
        r@ == spec_tls(),
{
    let r = TlsParameters {
        tls13_cipher_list: tls13_ciphers(),
        cipher_list: ciphers(),
        curves: curves(),
        signature_algorithms: signature_algorithms(),
        alpn_protocols: vec![AlpnProtocol::H2, AlpnProtocol::Http11],
        alps: None,
        certificate_compression: Vec::new(),
        permutation_seed: None,
        enable_ech_grease: false,
        accept_invalid_certs: false,
        permute_extensions: false,
        enable_grease_in_extensions: false,
        psk_dhe_ke: true,
        psk_with_no_session: false,
        record_size_limit: None,
        session_ticket: true,
        ocsp_stapling: true,
        signed_cert_timestamps: false,
    };
    assert(r@ =~= spec_tls());
    r
}

/// The HTTP/2 preface of OkHttp 5.
pub open spec fn spec_http2_5() -> Http2FrameSettingsView {
    Http2FrameSettingsView {
        initial_stream_window_size: Some(16777216u32),
        initial_connection_window_size: Some(16777216u32),
        max_concurrent_streams: None,
        max_header_list_size: None,
        header_table_size: None,
        enable_push: None,
        settings_order: seq![SettingId::InitialWindowSize],
        headers_pseudo_order: seq![
            PseudoHeader::Method,
            PseudoHeader::Path,
            PseudoHeader::Authority,
            PseudoHeader::Scheme,
        ],
        headers_priority: None,
    }
}

/// The HTTP/2 preface of OkHttp 5.
pub fn http2_5() -> (r: Http2FrameSettings)
    ensures
        r@ == spec_http2_5(),
{
    let r = Http2FrameSettings {
        initial_stream_window_size: Some(16777216u32),
        initial_connection_window_size: Some(16777216u32),
        max_concurrent_streams: None,
        max_header_list_size: None,
        header_table_size: None,
        enable_push: None,
        settings_order: vec![SettingId::InitialWindowSize],
        headers_pseudo_order: vec![
            PseudoHeader::Method,
            PseudoHeader::Path,
            PseudoHeader::Authority,
            PseudoHeader::Scheme,
        ],
        headers_priority: None,
    };
    assert(r@ =~= spec_http2_5());
    r
}

/// The default headers of OkHttp 5, in the order in which it sends them.
pub open spec fn spec_headers_5() -> Seq<(Seq<char>, Seq<char>)> {
    seq![
        ("accept"@, "*/*"@),
        ("accept-language"@, "en-US,en;q=0.9"@),
        ("user-agent"@, "NRC Audio/2.0.6 (nl.nrc.audio; build:36; Android 14; Sdk:34; Manufacturer:OnePlus; Model: CPH2609) OkHttp/5.0.0-alpha2"@),
        ("accept-encoding"@, "gzip, deflate, br"@),
    ]
}

/// The default headers of OkHttp 5, in the order in which it sends them.
pub fn headers_5() -> (r: Vec<(&'static str, &'static str)>)
    ensures
        texts(r@) == spec_headers_5(),
        all_plain(spec_headers_5()),
{
    let r = vec![
        ("accept", "*/*"),
        ("accept-language", "en-US,en;q=0.9"),
        ("user-agent", "NRC Audio/2.0.6 (nl.nrc.audio; build:36; Android 14; Sdk:34; Manufacturer:OnePlus; Model: CPH2609) OkHttp/5.0.0-alpha2"),
        ("accept-encoding", "gzip, deflate, br"),
    ];
    proof {
        reveal_strlit("accept");
        reveal_strlit("*/*");
        reveal_strlit("accept-language");
        reveal_strlit("en-US,en;q=0.9");
        reveal_strlit("user-agent");
        reveal_strlit("NRC Audio/2.0.6 (nl.nrc.audio; build:36; Android 14; Sdk:34; Manufacturer:OnePlus; Model: CPH2609) OkHttp/5.0.0-alpha2");
        reveal_strlit("accept-encoding");
        reveal_strlit("gzip, deflate, br");
        assert(texts(r@) =~= spec_headers_5());
    }
    r
}

/// No two of the default headers of OkHttp 5 have the same name.
pub proof fn lemma_headers_5_distinct()
    ensures
        distinct_names(spec_headers_5()),
{
    let headers = spec_headers_5();
    reveal_strlit("accept");
    reveal_strlit("accept-language");
    reveal_strlit("user-agent");
    reveal_strlit("accept-encoding");
    assert(headers[0].0.len() == 6);
    assert(headers[1].0.len() == 15);
    assert(headers[2].0.len() == 10);
    assert(headers[3].0.len() == 15);
    assert(headers[1].0[7] != headers[3].0[7]);
}

} // verus!

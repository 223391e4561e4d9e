use rquest::impersonate::chrome;
use rquest::impersonate::firefox;
use rquest::impersonate::get_settings;
use rquest::impersonate::okhttp;
use rquest::impersonate::safari;
use rquest::impersonate::ImpersonateOptions;
use rquest::impersonate::ImpersonationId;
use rquest::tls::alpn_wire;
use rquest::tls::joined_names;
use rquest::tls::AlpnProtocol;
use rquest::tls::CertCompression;
use rquest::tls::CipherSuite;
use rquest::tls::Curve;
use rquest::tls::EngineName;
use rquest::tls::SignatureAlgorithm;
use rquest::tls::Tls13Cipher;

#[test]
fn names_are_joined_in_order_with_colons() {
    assert_eq!(joined_names(&vec![Curve::X25519, Curve::P256, Curve::P384]), "X25519:P-256:P-384");
    assert_eq!(joined_names(&vec![Curve::P384, Curve::X25519]), "P-384:X25519");
}

#[test]
fn one_name_is_joined_without_a_colon() {
    assert_eq!(joined_names(&vec![Curve::P521]), "P-521");
}

#[test]
fn no_names_join_to_the_empty_text() {
    let none: Vec<Curve> = Vec::new();
    assert_eq!(joined_names(&none), "");
}

#[test]
fn alpn_wire_of_h2_and_http11() {
    assert_eq!(
        alpn_wire(&vec![AlpnProtocol::H2, AlpnProtocol::Http11]),
        b"\x02h2\x08http/1.1".to_vec()
    );
    assert_eq!(alpn_wire(&vec![AlpnProtocol::Http11]), b"\x08http/1.1".to_vec());
    assert_eq!(alpn_wire(&vec![AlpnProtocol::H2]), b"\x02h2".to_vec());
    assert_eq!(alpn_wire(&vec![]), Vec::<u8>::new());
}

#[test]
fn alpn_identifiers() {
    assert_eq!(AlpnProtocol::H2.id(), b"h2".to_vec());
    assert_eq!(AlpnProtocol::Http11.id(), b"http/1.1".to_vec());
    assert_eq!(AlpnProtocol::H2.name(), "h2");
    assert_eq!(AlpnProtocol::Http11.name(), "http/1.1");
}

#[test]
fn chrome_117_tls_parameters() {
    let tls = get_settings(ImpersonationId::Chrome117, ImpersonateOptions::default()).unwrap().tls;
    assert_eq!(
        tls.cipher_string(),
        "TLS_AES_128_GCM_SHA256:TLS_AES_256_GCM_SHA384:TLS_CHACHA20_POLY1305_SHA256:\
         TLS_ECDHE_ECDSA_WITH_AES_128_GCM_SHA256:TLS_ECDHE_RSA_WITH_AES_128_GCM_SHA256:\
         TLS_ECDHE_ECDSA_WITH_AES_256_GCM_SHA384:TLS_ECDHE_RSA_WITH_AES_256_GCM_SHA384:\
         TLS_ECDHE_ECDSA_WITH_CHACHA20_POLY1305_SHA256:\
         TLS_ECDHE_RSA_WITH_CHACHA20_POLY1305_SHA256:TLS_ECDHE_RSA_WITH_AES_128_CBC_SHA:\
         TLS_ECDHE_RSA_WITH_AES_256_CBC_SHA:TLS_RSA_WITH_AES_128_GCM_SHA256:\
         TLS_RSA_WITH_AES_256_GCM_SHA384:TLS_RSA_WITH_AES_128_CBC_SHA:\
         TLS_RSA_WITH_AES_256_CBC_SHA"
    );
    assert_eq!(tls.curves_string(), "X25519:P-256:P-384");
    assert_eq!(
        tls.sigalgs_string(),
        "ecdsa_secp256r1_sha256:rsa_pss_rsae_sha256:rsa_pkcs1_sha256:ecdsa_secp384r1_sha384:\
         rsa_pss_rsae_sha384:rsa_pkcs1_sha384:rsa_pss_rsae_sha512:rsa_pkcs1_sha512"
    );
    assert_eq!(tls.alpn_wire(), b"\x02h2\x08http/1.1".to_vec());
    assert_eq!(tls.alps, Some(AlpnProtocol::H2));
    assert!(tls.permute_extensions);
    assert_eq!(tls.permutation_seed, None);
    assert!(tls.enable_grease_in_extensions);
    assert!(!tls.enable_ech_grease);
    assert!(!tls.psk_with_no_session);
    assert_eq!(tls.certificate_compression, vec![CertCompression::Brotli]);
    assert!(!tls.accept_invalid_certs);
}

#[test]
fn chrome_has_the_kyber_hybrid_from_124_on() {
    assert_eq!(chrome::curves(123), vec![Curve::X25519, Curve::P256, Curve::P384]);
    assert_eq!(
        chrome::curves(124),
        vec![Curve::X25519Kyber768Draft00, Curve::X25519, Curve::P256, Curve::P384]
    );
    assert_eq!(chrome::tls(131).curves_string(), "X25519Kyber768Draft00:X25519:P-256:P-384");
    assert_eq!(chrome::tls(100).curves_string(), "X25519:P-256:P-384");
}

#[test]
fn safari_tls_parameters() {
    let tls = safari::tls();
    assert_eq!(tls.curves_string(), "X25519:P-256:P-384:P-521");
    assert!(!tls.permute_extensions);
    assert!(tls.psk_with_no_session);
    assert_eq!(tls.alpn_protocols, vec![AlpnProtocol::H2, AlpnProtocol::Http11]);
    assert_eq!(tls.alps, None);
    assert_eq!(tls.cipher_list.len(), 17);
    assert_eq!(tls.cipher_list[0], CipherSuite::EcdheEcdsaAes256GcmSha384);
    assert_eq!(tls.certificate_compression, vec![CertCompression::Zlib]);
}

#[test]
fn okhttp_tls_parameters() {
    let tls = okhttp::tls();
    assert_eq!(tls.curves_string(), "X25519:P-256:P-384");
    assert!(!tls.enable_grease_in_extensions);
    assert!(!tls.permute_extensions);
    assert_eq!(tls.alps, None);
    assert_eq!(tls.signature_algorithms.len(), 9);
}

#[test]
fn firefox_tls_parameters() {
    let tls = firefox::tls();
    assert_eq!(tls.curves_string(), "X25519:P-256:P-384:P-521:FFDHE2048:FFDHE3072");
    assert_eq!(tls.alps, None);
    assert_eq!(
        tls.tls13_cipher_list,
        vec![
            Tls13Cipher::Aes128GcmSha256,
            Tls13Cipher::Chacha20Poly1305Sha256,
            Tls13Cipher::Aes256GcmSha384,
        ]
    );
    assert_eq!(tls.record_size_limit, Some(16385));
    assert_eq!(
        tls.sigalgs_string(),
        "ecdsa_secp256r1_sha256:ecdsa_secp384r1_sha384:ecdsa_secp521r1_sha512:\
         rsa_pss_rsae_sha256:rsa_pss_rsae_sha384:rsa_pss_rsae_sha512:rsa_pkcs1_sha256:\
         rsa_pkcs1_sha384:rsa_pkcs1_sha512:ecdsa_sha1:rsa_pkcs1_sha1"
    );
}

#[test]
fn cipher_string_with_one_list_empty_has_no_stray_colon() {
    let mut tls = okhttp::tls();
    tls.cipher_list = Vec::new();
    assert_eq!(
        tls.cipher_string(),
        "TLS_AES_128_GCM_SHA256:TLS_AES_256_GCM_SHA384:TLS_CHACHA20_POLY1305_SHA256"
    );
    let mut tls = okhttp::tls();
    tls.tls13_cipher_list = Vec::new();
    tls.cipher_list = vec![CipherSuite::RsaAes128CbcSha, CipherSuite::Rsa3desEdeCbcSha];
    assert_eq!(tls.cipher_string(), "TLS_RSA_WITH_AES_128_CBC_SHA:TLS_RSA_WITH_3DES_EDE_CBC_SHA");
    tls.cipher_list = Vec::new();
    assert_eq!(tls.cipher_string(), "");
}

#[test]
fn engine_names() {
    assert_eq!(Tls13Cipher::Chacha20Poly1305Sha256.name(), "TLS_CHACHA20_POLY1305_SHA256");
    assert_eq!(
        CipherSuite::EcdheEcdsa3desEdeCbcSha.name(),
        "TLS_ECDHE_ECDSA_WITH_3DES_EDE_CBC_SHA"
    );
    assert_eq!(Curve::X25519Kyber768Draft00.name(), "X25519Kyber768Draft00");
    assert_eq!(Curve::Ffdhe2048.name(), "FFDHE2048");
    assert_eq!(SignatureAlgorithm::EcdsaSha1.name(), "ecdsa_sha1");
}

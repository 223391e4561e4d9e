//! TLS parameters of a profile: everything that shapes the ClientHello, in
//! the order in which the profile declares it, and the forms in which the
//! TLS engine takes it.

use vstd::prelude::*;

verus! {

/// A parameter that the TLS engine takes by name.
pub trait EngineName {
    /// The name by which the engine knows the parameter.
    spec fn spec_name(&self) -> Seq<char>;

    /// The name by which the engine knows the parameter.
    fn name(&self) -> (r: &'static str)
        ensures
            r@ == self.spec_name(),
    ;
}

/// A cipher suite of TLS 1.3.
#[derive(Clone, Copy, Debug, PartialEq, Eq, Structural)]
pub enum Tls13Cipher {
    Aes128GcmSha256,
    Aes256GcmSha384,
    Chacha20Poly1305Sha256,
}

/// A cipher suite of TLS 1.2 and earlier.
#[derive(Clone, Copy, Debug, PartialEq, Eq, Structural)]
pub enum CipherSuite {
    EcdheEcdsaAes128GcmSha256,
    EcdheRsaAes128GcmSha256,
    EcdheEcdsaAes256GcmSha384,
    EcdheRsaAes256GcmSha384,
    EcdheEcdsaChacha20Poly1305,
    EcdheRsaChacha20Poly1305,
    EcdheEcdsaAes128CbcSha,
    EcdheEcdsaAes256CbcSha,
    EcdheRsaAes128CbcSha,
    EcdheRsaAes256CbcSha,
    RsaAes128GcmSha256,
    RsaAes256GcmSha384,
    RsaAes128CbcSha,
    RsaAes256CbcSha,
    EcdheEcdsa3desEdeCbcSha,
    EcdheRsa3desEdeCbcSha,
    Rsa3desEdeCbcSha,
}

/// A key-exchange group.
#[derive(Clone, Copy, Debug, PartialEq, Eq, Structural)]
pub enum Curve {
    X25519Kyber768Draft00,
    X25519,
    P256,
    P384,
    P521,
    Ffdhe2048,
    Ffdhe3072,
}

/// A signature algorithm.
#[derive(Clone, Copy, Debug, PartialEq, Eq, Structural)]
pub enum SignatureAlgorithm {
    EcdsaSecp256r1Sha256,
    EcdsaSecp384r1Sha384,
    EcdsaSecp521r1Sha512,
    RsaPssRsaeSha256,
    RsaPssRsaeSha384,
    RsaPssRsaeSha512,
    RsaPkcs1Sha256,
    RsaPkcs1Sha384,
    RsaPkcs1Sha512,
    EcdsaSha1,
    RsaPkcs1Sha1,
}

/// An application protocol that ALPN can advertise.
#[derive(Clone, Copy, Debug, PartialEq, Eq, Structural)]
pub enum AlpnProtocol {
    H2,
    Http11,
}

/// An algorithm for compressing certificates.
#[derive(Clone, Copy, Debug, PartialEq, Eq, Structural)]
pub enum CertCompression {
    Brotli,
    Zlib,
    Zstd,
}

impl EngineName for Tls13Cipher {
    open spec fn spec_name(&self) -> Seq<char> {
        match self {
            Tls13Cipher::Aes128GcmSha256 => "TLS_AES_128_GCM_SHA256"@,
            Tls13Cipher::Aes256GcmSha384 => "TLS_AES_256_GCM_SHA384"@,
            Tls13Cipher::Chacha20Poly1305Sha256 => "TLS_CHACHA20_POLY1305_SHA256"@,
        }
    }

    fn name(&self) -> (r: &'static str) {
        match self {
            Tls13Cipher::Aes128GcmSha256 => "TLS_AES_128_GCM_SHA256",
            Tls13Cipher::Aes256GcmSha384 => "TLS_AES_256_GCM_SHA384",
            Tls13Cipher::Chacha20Poly1305Sha256 => "TLS_CHACHA20_POLY1305_SHA256",
        }
    }
}

impl EngineName for CipherSuite {
    open spec fn spec_name(&self) -> Seq<char> {
        match self {
            CipherSuite::EcdheEcdsaAes128GcmSha256 => "TLS_ECDHE_ECDSA_WITH_AES_128_GCM_SHA256"@,
            CipherSuite::EcdheRsaAes128GcmSha256 => "TLS_ECDHE_RSA_WITH_AES_128_GCM_SHA256"@,
            CipherSuite::EcdheEcdsaAes256GcmSha384 => "TLS_ECDHE_ECDSA_WITH_AES_256_GCM_SHA384"@,
            CipherSuite::EcdheRsaAes256GcmSha384 => "TLS_ECDHE_RSA_WITH_AES_256_GCM_SHA384"@,
            CipherSuite::EcdheEcdsaChacha20Poly1305 => "TLS_ECDHE_ECDSA_WITH_CHACHA20_POLY1305_SHA256"@,
            CipherSuite::EcdheRsaChacha20Poly1305 => "TLS_ECDHE_RSA_WITH_CHACHA20_POLY1305_SHA256"@,
            CipherSuite::EcdheEcdsaAes128CbcSha => "TLS_ECDHE_ECDSA_WITH_AES_128_CBC_SHA"@,
            CipherSuite::EcdheEcdsaAes256CbcSha => "TLS_ECDHE_ECDSA_WITH_AES_256_CBC_SHA"@,
            CipherSuite::EcdheRsaAes128CbcSha => "TLS_ECDHE_RSA_WITH_AES_128_CBC_SHA"@,
            CipherSuite::EcdheRsaAes256CbcSha => "TLS_ECDHE_RSA_WITH_AES_256_CBC_SHA"@,
            CipherSuite::RsaAes128GcmSha256 => "TLS_RSA_WITH_AES_128_GCM_SHA256"@,
            CipherSuite::RsaAes256GcmSha384 => "TLS_RSA_WITH_AES_256_GCM_SHA384"@,
            CipherSuite::RsaAes128CbcSha => "TLS_RSA_WITH_AES_128_CBC_SHA"@,
            CipherSuite::RsaAes256CbcSha => "TLS_RSA_WITH_AES_256_CBC_SHA"@,
            CipherSuite::EcdheEcdsa3desEdeCbcSha => "TLS_ECDHE_ECDSA_WITH_3DES_EDE_CBC_SHA"@,
            CipherSuite::EcdheRsa3desEdeCbcSha => "TLS_ECDHE_RSA_WITH_3DES_EDE_CBC_SHA"@,
            CipherSuite::Rsa3desEdeCbcSha => "TLS_RSA_WITH_3DES_EDE_CBC_SHA"@,
        }
    }

    fn name(&self) -> (r: &'static str) {
        match self {
            CipherSuite::EcdheEcdsaAes128GcmSha256 => "TLS_ECDHE_ECDSA_WITH_AES_128_GCM_SHA256",
            CipherSuite::EcdheRsaAes128GcmSha256 => "TLS_ECDHE_RSA_WITH_AES_128_GCM_SHA256",
            CipherSuite::EcdheEcdsaAes256GcmSha384 => "TLS_ECDHE_ECDSA_WITH_AES_256_GCM_SHA384",
            CipherSuite::EcdheRsaAes256GcmSha384 => "TLS_ECDHE_RSA_WITH_AES_256_GCM_SHA384",
            CipherSuite::EcdheEcdsaChacha20Poly1305 => "TLS_ECDHE_ECDSA_WITH_CHACHA20_POLY1305_SHA256",
            CipherSuite::EcdheRsaChacha20Poly1305 => "TLS_ECDHE_RSA_WITH_CHACHA20_POLY1305_SHA256",
            CipherSuite::EcdheEcdsaAes128CbcSha => "TLS_ECDHE_ECDSA_WITH_AES_128_CBC_SHA",
            CipherSuite::EcdheEcdsaAes256CbcSha => "TLS_ECDHE_ECDSA_WITH_AES_256_CBC_SHA",
            CipherSuite::EcdheRsaAes128CbcSha => "TLS_ECDHE_RSA_WITH_AES_128_CBC_SHA",
            CipherSuite::EcdheRsaAes256CbcSha => "TLS_ECDHE_RSA_WITH_AES_256_CBC_SHA",
            CipherSuite::RsaAes128GcmSha256 => "TLS_RSA_WITH_AES_128_GCM_SHA256",
            CipherSuite::RsaAes256GcmSha384 => "TLS_RSA_WITH_AES_256_GCM_SHA384",
            CipherSuite::RsaAes128CbcSha => "TLS_RSA_WITH_AES_128_CBC_SHA",
            CipherSuite::RsaAes256CbcSha => "TLS_RSA_WITH_AES_256_CBC_SHA",
            CipherSuite::EcdheEcdsa3desEdeCbcSha => "TLS_ECDHE_ECDSA_WITH_3DES_EDE_CBC_SHA",
            CipherSuite::EcdheRsa3desEdeCbcSha => "TLS_ECDHE_RSA_WITH_3DES_EDE_CBC_SHA",
            CipherSuite::Rsa3desEdeCbcSha => "TLS_RSA_WITH_3DES_EDE_CBC_SHA",
        }
    }
}

impl EngineName for Curve {
    open spec fn spec_name(&self) -> Seq<char> {
        match self {
            Curve::X25519Kyber768Draft00 => "X25519Kyber768Draft00"@,
            Curve::X25519 => "X25519"@,
            Curve::P256 => "P-256"@,
            Curve::P384 => "P-384"@,
            Curve::P521 => "P-521"@,
            Curve::Ffdhe2048 => "FFDHE2048"@,
            Curve::Ffdhe3072 => "FFDHE3072"@,
        }
    }

    fn name(&self) -> (r: &'static str) {
        match self {
            Curve::X25519Kyber768Draft00 => "X25519Kyber768Draft00",
            Curve::X25519 => "X25519",
            Curve::P256 => "P-256",
            Curve::P384 => "P-384",
            Curve::P521 => "P-521",
            Curve::Ffdhe2048 => "FFDHE2048",
            Curve::Ffdhe3072 => "FFDHE3072",
        }
    }
}

impl EngineName for SignatureAlgorithm {
    open spec fn spec_name(&self) -> Seq<char> {
        match self {
            SignatureAlgorithm::EcdsaSecp256r1Sha256 => "ecdsa_secp256r1_sha256"@,
            SignatureAlgorithm::EcdsaSecp384r1Sha384 => "ecdsa_secp384r1_sha384"@,
            SignatureAlgorithm::EcdsaSecp521r1Sha512 => "ecdsa_secp521r1_sha512"@,
            SignatureAlgorithm::RsaPssRsaeSha256 => "rsa_pss_rsae_sha256"@,
            SignatureAlgorithm::RsaPssRsaeSha384 => "rsa_pss_rsae_sha384"@,
            SignatureAlgorithm::RsaPssRsaeSha512 => "rsa_pss_rsae_sha512"@,
            SignatureAlgorithm::RsaPkcs1Sha256 => "rsa_pkcs1_sha256"@,
            SignatureAlgorithm::RsaPkcs1Sha384 => "rsa_pkcs1_sha384"@,
            SignatureAlgorithm::RsaPkcs1Sha512 => "rsa_pkcs1_sha512"@,
            SignatureAlgorithm::EcdsaSha1 => "ecdsa_sha1"@,
            SignatureAlgorithm::RsaPkcs1Sha1 => "rsa_pkcs1_sha1"@,
        }
    }

    fn name(&self) -> (r: &'static str) {
        match self {
            SignatureAlgorithm::EcdsaSecp256r1Sha256 => "ecdsa_secp256r1_sha256",
            SignatureAlgorithm::EcdsaSecp384r1Sha384 => "ecdsa_secp384r1_sha384",
            SignatureAlgorithm::EcdsaSecp521r1Sha512 => "ecdsa_secp521r1_sha512",
            SignatureAlgorithm::RsaPssRsaeSha256 => "rsa_pss_rsae_sha256",
            SignatureAlgorithm::RsaPssRsaeSha384 => "rsa_pss_rsae_sha384",
            SignatureAlgorithm::RsaPssRsaeSha512 => "rsa_pss_rsae_sha512",
            SignatureAlgorithm::RsaPkcs1Sha256 => "rsa_pkcs1_sha256",
            SignatureAlgorithm::RsaPkcs1Sha384 => "rsa_pkcs1_sha384",
            SignatureAlgorithm::RsaPkcs1Sha512 => "rsa_pkcs1_sha512",
            SignatureAlgorithm::EcdsaSha1 => "ecdsa_sha1",
            SignatureAlgorithm::RsaPkcs1Sha1 => "rsa_pkcs1_sha1",
        }
    }
}

impl EngineName for AlpnProtocol {
    open spec fn spec_name(&self) -> Seq<char> {
        match self {
            AlpnProtocol::H2 => "h2"@,
            AlpnProtocol::Http11 => "http/1.1"@,
        }
    }

    fn name(&self) -> (r: &'static str) {
        match self {
            AlpnProtocol::H2 => "h2",
            AlpnProtocol::Http11 => "http/1.1",
        }
    }
}

impl AlpnProtocol {
    /// The identifier of the protocol as ALPN carries it.
    pub open spec fn spec_id(self) -> Seq<u8> {
        match self {
            AlpnProtocol::H2 => seq![0x68u8, 0x32u8],
            AlpnProtocol::Http11 => seq![
                0x68u8,
                0x74u8,
                0x74u8,
                0x70u8,
                0x2fu8,
                0x31u8,
                0x2eu8,
                0x31u8,
            ],
        }
    }

    /// The identifier of the protocol as ALPN carries it: `h2` or
    /// `http/1.1`, in ASCII.
    pub fn id(self) -> (r: Vec<u8>)
        ensures
            r@ == self.spec_id(),
    {
        let r = match self {
            AlpnProtocol::H2 => vec![0x68u8, 0x32u8],
            AlpnProtocol::Http11 => vec![
                0x68u8,
                0x74u8,
                0x74u8,
                0x70u8,
                0x2fu8,
                0x31u8,
                0x2eu8,
                0x31u8,
            ],
        };
        assert(r@ =~= self.spec_id());
        r
    }
}

/// The names of a list of parameters, in order.
pub open spec fn names_of<T: EngineName>(items: Seq<T>) -> Seq<Seq<char>> {
    Seq::new(items.len(), |i: int| items[i].spec_name())
}

/// Texts joined into one, in order, with a colon between each two.
pub open spec fn join_colon(parts: Seq<Seq<char>>) -> Seq<char>
    decreases parts.len(),
{
    if parts.len() == 0 {
        Seq::empty()
    } else if parts.len() == 1 {
        parts[0]
    } else {
        join_colon(parts.drop_last()) + seq![':'] + parts.last()
    }
}

/// A list of protocols in the wire format of ALPN: each identifier behind
/// one byte that holds its length, in order.
pub open spec fn alpn_wire_of(protocols: Seq<AlpnProtocol>) -> Seq<u8>
    decreases protocols.len(),
{
    if protocols.len() == 0 {
        Seq::empty()
    } else {
        alpn_wire_of(protocols.drop_last()) + seq![protocols.last().spec_id().len() as u8]
            + protocols.last().spec_id()
    }
}

/// The list in the form in which the TLS engine takes a list of names: the
/// names in the given order, separated by colons.
pub fn joined_names<T: EngineName>(items: &Vec<T>) -> (r: String)
    ensures
        r@ == join_colon(names_of(items@)),
{
    let ghost names = names_of(items@);
    let mut r = String::new();
    let mut i: usize = 0;
    assert(names.take(0) =~= Seq::empty());
    while i < items.len()
        invariant
            i <= items@.len(),
            names == names_of(items@),
            r@ == join_colon(names.take(i as int)),
        decreases items@.len() - i,
    {
        proof {
            let next = names.take(i + 1);
            assert(next.drop_last() =~= names.take(i as int));
            assert(next.last() == items@[i as int].spec_name());
            reveal_strlit(":");
            assert(":"@ =~= seq![':']);
        }
        if i > 0 {
            r.append(":");
        }
        r.append(items[i].name());
        assert(r@ =~= join_colon(names.take(i + 1)));
        i += 1;
    }
    assert(names.take(i as int) =~= names);
    r
}

/// The protocols in the wire format of ALPN.
pub fn alpn_wire(protocols: &Vec<AlpnProtocol>) -> (r: Vec<u8>)
    ensures
        r@ == alpn_wire_of(protocols@),
{
    let mut r: Vec<u8> = Vec::new();
    let mut i: usize = 0;
    assert(protocols@.take(0) =~= Seq::empty());
    while i < protocols.len()
        invariant
            i <= protocols@.len(),
            r@ == alpn_wire_of(protocols@.take(i as int)),
        decreases protocols@.len() - i,
    {
        proof {
            let next = protocols@.take(i + 1);
            assert(next.drop_last() =~= protocols@.take(i as int));
            assert(next.last() == protocols@[i as int]);
        }
        let mut id = protocols[i].id();
        let len: u8 = match protocols[i] {
            AlpnProtocol::H2 => 2,
            AlpnProtocol::Http11 => 8,
        };
        r.push(len);
        r.append(&mut id);
        i += 1;
    }
    assert(protocols@.take(i as int) =~= protocols@);
    r
}

/// Everything of a profile that shapes the ClientHello and the TLS state
/// machine.
#[derive(Clone, Debug)]
pub struct TlsParameters {
    /// Cipher suites of TLS 1.3, in order.
    pub tls13_cipher_list: Vec<Tls13Cipher>,
    /// Cipher suites of TLS 1.2 and earlier, in order.
    pub cipher_list: Vec<CipherSuite>,
    /// Supported groups, in order.
    pub curves: Vec<Curve>,
    /// Signature algorithms, in order.
    pub signature_algorithms: Vec<SignatureAlgorithm>,
    /// Protocols that ALPN advertises, in order.
    pub alpn_protocols: Vec<AlpnProtocol>,
    /// The protocol that ALPS advertises, if any.
    pub alps: Option<AlpnProtocol>,
    /// Whether the engine shuffles the extensions of each ClientHello.
    pub permute_extensions: bool,
    /// The seed of the shuffle; without one each connection draws its own.
    pub permutation_seed: Option<u64>,
    /// Whether GREASE values are put among the extensions.
    pub enable_grease_in_extensions: bool,
    /// Whether a GREASE encrypted-ClientHello extension is sent.
    pub enable_ech_grease: bool,
    /// Whether the pre-shared-key mode with (EC)DHE is advertised.
    pub psk_dhe_ke: bool,
    /// Whether a pre-shared-key extension is sent without a session.
    pub psk_with_no_session: bool,
    /// The record size limit to advertise, if any.
    pub record_size_limit: Option<u16>,
    /// Algorithms for compressing certificates, in order.
    pub certificate_compression: Vec<CertCompression>,
    /// Whether session tickets are supported.
    pub session_ticket: bool,
    /// Whether a stapled OCSP response is requested.
    pub ocsp_stapling: bool,
    /// Whether signed certificate timestamps are requested.
    pub signed_cert_timestamps: bool,
    /// Whether certificates that do not verify are accepted.
    pub accept_invalid_certs: bool,
}

/// The parameters as plain values.
#[verifier::ext_equal]
pub struct TlsParametersView {
    pub tls13_cipher_list: Seq<Tls13Cipher>,
    pub cipher_list: Seq<CipherSuite>,
    pub curves: Seq<Curve>,
    pub signature_algorithms: Seq<SignatureAlgorithm>,
    pub alpn_protocols: Seq<AlpnProtocol>,
    pub alps: Option<AlpnProtocol>,
    pub permute_extensions: bool,
    pub permutation_seed: Option<u64>,
    pub enable_grease_in_extensions: bool,
    pub enable_ech_grease: bool,
    pub psk_dhe_ke: bool,
    pub psk_with_no_session: bool,
    pub record_size_limit: Option<u16>,
    pub certificate_compression: Seq<CertCompression>,
    pub session_ticket: bool,
    pub ocsp_stapling: bool,
    pub signed_cert_timestamps: bool,
    pub accept_invalid_certs: bool,
}

impl View for TlsParameters {
    type V = TlsParametersView;

    open spec fn view(&self) -> TlsParametersView {
        TlsParametersView {
            tls13_cipher_list: self.tls13_cipher_list@,
            cipher_list: self.cipher_list@,
            curves: self.curves@,
            signature_algorithms: self.signature_algorithms@,
            alpn_protocols: self.alpn_protocols@,
            alps: self.alps,
            permute_extensions: self.permute_extensions,
            permutation_seed: self.permutation_seed,
            enable_grease_in_extensions: self.enable_grease_in_extensions,
            enable_ech_grease: self.enable_ech_grease,
            psk_dhe_ke: self.psk_dhe_ke,
            psk_with_no_session: self.psk_with_no_session,
            record_size_limit: self.record_size_limit,
            certificate_compression: self.certificate_compression@,
            session_ticket: self.session_ticket,
            ocsp_stapling: self.ocsp_stapling,
            signed_cert_timestamps: self.signed_cert_timestamps,
            accept_invalid_certs: self.accept_invalid_certs,
        }
    }
}

impl TlsParametersView {
    /// The cipher list as the engine takes it: the suites of TLS 1.3, then
    /// the others, in the declared order.
    pub open spec fn cipher_string(self) -> Seq<char> {
        join_colon(names_of(self.tls13_cipher_list) + names_of(self.cipher_list))
    }

    /// The curves as the engine takes them.
    pub open spec fn curves_string(self) -> Seq<char> {
        join_colon(names_of(self.curves))
    }

    /// The signature algorithms as the engine takes them.
    pub open spec fn sigalgs_string(self) -> Seq<char> {
        join_colon(names_of(self.signature_algorithms))
    }

    /// The ALPN protocols in wire format.
    pub open spec fn alpn_wire(self) -> Seq<u8> {
        alpn_wire_of(self.alpn_protocols)
    }
}

/// Joining two lists is joining each and putting a colon between the
/// results, where neither is empty.
pub proof fn lemma_join_concat(a: Seq<Seq<char>>, b: Seq<Seq<char>>)
    ensures
        join_colon(a + b) == if a.len() == 0 {
            join_colon(b)
        } else if b.len() == 0 {
            join_colon(a)
        } else {
            join_colon(a) + seq![':'] + join_colon(b)
        },
    decreases b.len(),
{
    if b.len() == 0 {
        assert(a + b =~= a);
    } else if a.len() == 0 {
        assert(a + b =~= b);
    } else {
        let front = b.drop_last();
        assert((a + b).drop_last() =~= a + front);
        assert((a + b).last() == b.last());
        lemma_join_concat(a, front);
        if front.len() == 0 {
            assert(a + front =~= a);
            assert(join_colon(b) =~= b.last());
        } else {
            assert(join_colon(a + b) =~= join_colon(a) + seq![':'] + join_colon(b));
        }
    }
}

impl TlsParameters {
    /// The cipher list as the engine takes it: the suites of TLS 1.3, then
    /// the others, in the declared order, separated by colons.
    pub fn cipher_string(&self) -> (r: String)
        ensures
            r@ == self@.cipher_string(),
    {
        let mut r = joined_names(&self.tls13_cipher_list);
        let rest = joined_names(&self.cipher_list);
        proof {
            lemma_join_concat(names_of(self.tls13_cipher_list@), names_of(self.cipher_list@));
            reveal_strlit(":");
            assert(":"@ =~= seq![':']);
        }
        if self.tls13_cipher_list.len() > 0 && self.cipher_list.len() > 0 {
            r.append(":");
        }
        r.append(rest.as_str());
        assert(r@ =~= self@.cipher_string());
        r
    }

    /// The curves as the engine takes them: in the declared order,
    /// separated by colons.
    pub fn curves_string(&self) -> (r: String)
        ensures
            r@ == self@.curves_string(),
    {
        joined_names(&self.curves)
    }

    /// The signature algorithms as the engine takes them: in the declared
    /// order, separated by colons.
    pub fn sigalgs_string(&self) -> (r: String)
        ensures
            r@ == self@.sigalgs_string(),
    {
        joined_names(&self.signature_algorithms)
    }

    /// The ALPN protocols in wire format, in the declared order.
    pub fn alpn_wire(&self) -> (r: Vec<u8>)
        ensures
            r@ == self@.alpn_wire(),
    {
        alpn_wire(&self.alpn_protocols)
    }
}

} // verus!

//! The Chrome 133 fingerprint.

use crate::fingerprint::BrowserFingerprint;
use crate::fingerprint::BrowserFingerprintView;
use crate::fingerprint::CertificateCompressionAlgorithm;
use crate::fingerprint::CipherSuite;
use crate::fingerprint::DEFAULT_WINDOW_SIZE;
use crate::fingerprint::EchConfig;
use crate::fingerprint::EchConfigView;
use crate::fingerprint::EchMode;
use crate::fingerprint::ExtensionType;
use crate::fingerprint::HpkeKemId;
use crate::fingerprint::Http2Fingerprint;
use crate::fingerprint::Http2FingerprintView;
use crate::fingerprint::Http2Settings;
use crate::fingerprint::Http2SettingsView;
use crate::fingerprint::Http2WindowSize;
use crate::fingerprint::Http2WindowSizeView;
use crate::fingerprint::KeyExchangeGroup;
use crate::fingerprint::SignatureAlgorithm;
use crate::fingerprint::TlsExtensions;
use crate::fingerprint::TlsExtensionsView;
use crate::fingerprint::TlsFingerprint;
use crate::fingerprint::TlsFingerprintView;
use crate::fingerprint::database::alpn_h2;
use crate::fingerprint::database::alpn_http11;
use crate::fingerprint::database::alpn_list;
use vstd::prelude::*;

verus! {

/// The TLS ClientHello shape of Chrome 133.
pub open spec fn tls_model() -> TlsFingerprintView {
    TlsFingerprintView {
        cipher_suites: seq![
            CipherSuite::TLS13_AES_128_GCM_SHA256,
            CipherSuite::TLS13_AES_256_GCM_SHA384,
            CipherSuite::TLS13_CHACHA20_POLY1305_SHA256,
            CipherSuite::TLS_ECDHE_ECDSA_WITH_AES_128_GCM_SHA256,
            CipherSuite::TLS_ECDHE_RSA_WITH_AES_128_GCM_SHA256,
            CipherSuite::TLS_ECDHE_ECDSA_WITH_AES_256_GCM_SHA384,
            CipherSuite::TLS_ECDHE_RSA_WITH_AES_256_GCM_SHA384,
            CipherSuite::TLS_ECDHE_ECDSA_WITH_CHACHA20_POLY1305_SHA256,
            CipherSuite::TLS_ECDHE_RSA_WITH_CHACHA20_POLY1305_SHA256,
            CipherSuite::TLS_ECDHE_RSA_WITH_AES_128_CBC_SHA,
            CipherSuite::TLS_ECDHE_RSA_WITH_AES_256_CBC_SHA,
            CipherSuite::TLS_RSA_WITH_AES_128_GCM_SHA256,
            CipherSuite::TLS_RSA_WITH_AES_256_GCM_SHA384,
            CipherSuite::TLS_RSA_WITH_AES_128_CBC_SHA,
            CipherSuite::TLS_RSA_WITH_AES_256_CBC_SHA,
        ],
        key_exchange_groups: seq![
            KeyExchangeGroup::X25519MLKEM768,
            KeyExchangeGroup::X25519,
            KeyExchangeGroup::Secp256r1,
            KeyExchangeGroup::Secp384r1,
        ],
        signature_algorithms: seq![
            SignatureAlgorithm::EcdsaSecp256r1Sha256,
            SignatureAlgorithm::RsaPssRsaSha256,
            SignatureAlgorithm::RsaPkcs1Sha256,
            SignatureAlgorithm::EcdsaSecp384r1Sha384,
            SignatureAlgorithm::RsaPssRsaSha384,
            SignatureAlgorithm::RsaPkcs1Sha384,
            SignatureAlgorithm::RsaPssRsaSha512,
            SignatureAlgorithm::RsaPkcs1Sha512,
        ],
        extensions: TlsExtensionsView {
            server_name: true,
            status_request: true,
            supported_groups: true,
            signature_algorithms: true,
            application_layer_protocol_negotiation: true,
            signed_certificate_timestamp: true,
            key_share: true,
            psk_key_exchange_modes: true,
            supported_versions: true,
            compress_certificate: Some(seq![CertificateCompressionAlgorithm::Brotli]),
            application_settings: true,
            new_alps_codepoint: false,
            padding: false,
            delegated_credentials: false,
            record_size_limit: None,
            extension_order: seq![
                ExtensionType::ServerName,
                ExtensionType::ExtendedMasterSecret,
                ExtensionType::SessionTicket,
                ExtensionType::SignatureAlgorithms,
                ExtensionType::StatusRequest,
                ExtensionType::SupportedGroups,
                ExtensionType::ApplicationLayerProtocolNegotiation,
                ExtensionType::SignedCertificateTimestamp,
                ExtensionType::KeyShare,
                ExtensionType::PskKeyExchangeModes,
                ExtensionType::SupportedVersions,
                ExtensionType::CompressCertificate,
                ExtensionType::ApplicationSettings,
            ],
        },
        ech_config: Some(EchConfigView {
            mode: EchMode::Grease { hpke_suite: HpkeKemId::DhKemX25519HkdfSha256 },
            config_list: None,
        }),
        alpn_protocols: seq![alpn_h2(), alpn_http11()],
    }
}

/// Builds the TLS fingerprint of Chrome 133.
pub fn tls_fingerprint() -> (r: TlsFingerprint)
    ensures
        r@ == tls_model(),
{
    let cipher_suites = vec![
        CipherSuite::TLS13_AES_128_GCM_SHA256,
        CipherSuite::TLS13_AES_256_GCM_SHA384,
        CipherSuite::TLS13_CHACHA20_POLY1305_SHA256,
        CipherSuite::TLS_ECDHE_ECDSA_WITH_AES_128_GCM_SHA256,
        CipherSuite::TLS_ECDHE_RSA_WITH_AES_128_GCM_SHA256,
        CipherSuite::TLS_ECDHE_ECDSA_WITH_AES_256_GCM_SHA384,
        CipherSuite::TLS_ECDHE_RSA_WITH_AES_256_GCM_SHA384,
        CipherSuite::TLS_ECDHE_ECDSA_WITH_CHACHA20_POLY1305_SHA256,
        CipherSuite::TLS_ECDHE_RSA_WITH_CHACHA20_POLY1305_SHA256,
        CipherSuite::TLS_ECDHE_RSA_WITH_AES_128_CBC_SHA,
        CipherSuite::TLS_ECDHE_RSA_WITH_AES_256_CBC_SHA,
        CipherSuite::TLS_RSA_WITH_AES_128_GCM_SHA256,
        CipherSuite::TLS_RSA_WITH_AES_256_GCM_SHA384,
        CipherSuite::TLS_RSA_WITH_AES_128_CBC_SHA,
        CipherSuite::TLS_RSA_WITH_AES_256_CBC_SHA,
    ];
    let key_exchange_groups = vec![
        KeyExchangeGroup::X25519MLKEM768,
        KeyExchangeGroup::X25519,
        KeyExchangeGroup::Secp256r1,
        KeyExchangeGroup::Secp384r1,
    ];
    let signature_algorithms = vec![
        SignatureAlgorithm::EcdsaSecp256r1Sha256,
        SignatureAlgorithm::RsaPssRsaSha256,
        SignatureAlgorithm::RsaPkcs1Sha256,
        SignatureAlgorithm::EcdsaSecp384r1Sha384,
        SignatureAlgorithm::RsaPssRsaSha384,
        SignatureAlgorithm::RsaPkcs1Sha384,
        SignatureAlgorithm::RsaPssRsaSha512,
        SignatureAlgorithm::RsaPkcs1Sha512,
    ];
    let extension_order = vec![
        ExtensionType::ServerName,
        ExtensionType::ExtendedMasterSecret,
        ExtensionType::SessionTicket,
        ExtensionType::SignatureAlgorithms,
        ExtensionType::StatusRequest,
        ExtensionType::SupportedGroups,
        ExtensionType::ApplicationLayerProtocolNegotiation,
        ExtensionType::SignedCertificateTimestamp,
        ExtensionType::KeyShare,
        ExtensionType::PskKeyExchangeModes,
        ExtensionType::SupportedVersions,
        ExtensionType::CompressCertificate,
        ExtensionType::ApplicationSettings,
    ];
    let extensions = TlsExtensions::new(
        true,
        true,
        true,
        true,
        true,
        true,
        true,
        true,
        true,
        Some(vec![CertificateCompressionAlgorithm::Brotli]),
        true,
        false,
        None,
        extension_order,
    );
    let ech_config = Some(
        EchConfig::new(EchMode::Grease { hpke_suite: HpkeKemId::DhKemX25519HkdfSha256 }, None),
    );
    let alpn_protocols = alpn_list();
    proof {
        assert(cipher_suites@ =~= tls_model().cipher_suites);
        assert(key_exchange_groups@ =~= tls_model().key_exchange_groups);
        assert(signature_algorithms@ =~= tls_model().signature_algorithms);
        assert(extensions@.extension_order =~= tls_model().extensions.extension_order);
        assert(extensions@.compress_certificate =~= tls_model().extensions.compress_certificate);
        assert(extensions@ == tls_model().extensions);
    }
    TlsFingerprint::new(
        cipher_suites,
        key_exchange_groups,
        signature_algorithms,
        extensions,
        ech_config,
        alpn_protocols,
    )
}

/// The HTTP/2 connection shape of Chrome 133.
pub open spec fn http2_model() -> Http2FingerprintView {
    Http2FingerprintView {
        pseudo_header_order: seq![
            ":method"@,
            ":authority"@,
            ":scheme"@,
            ":path"@,
            ":protocol"@,
            ":status"@,
        ],
        settings: Http2SettingsView {
            header_table_size: None,
            enable_push: None,
            max_concurrent_streams: None,
            initial_window_size: None,
            max_frame_size: None,
            max_header_list_size: None,
            custom: Seq::empty(),
        },
        window_size: Http2WindowSizeView {
            connection_window_size: DEFAULT_WINDOW_SIZE,
            stream_window_size: DEFAULT_WINDOW_SIZE,
        },
        priority: None,
    }
}

/// Builds the HTTP/2 fingerprint of Chrome 133.
pub fn http2_fingerprint() -> (r: Http2Fingerprint)
    ensures
        r@ == http2_model(),
{
    let pseudo_header_order = vec![
        ":method".to_owned(),
        ":authority".to_owned(),
        ":scheme".to_owned(),
        ":path".to_owned(),
        ":protocol".to_owned(),
        ":status".to_owned(),
    ];
    let settings = Http2Settings::new(None, None, None, None, None, None, Vec::new());
    let window_size = Http2WindowSize::new(DEFAULT_WINDOW_SIZE, DEFAULT_WINDOW_SIZE);
    proof {
        assert(pseudo_header_order.deep_view() =~= http2_model().pseudo_header_order);
    }
    Http2Fingerprint::new(pseudo_header_order, settings, window_size, None)
}

/// The headers that Chrome 133 sends with a navigation request, in order.
pub open spec fn headers_model() -> Seq<(Seq<char>, Seq<char>)> {
    seq![
        ("sec-ch-ua"@, "\"Not(A:Brand\";v=\"99\", \"Google Chrome\";v=\"133\", \"Chromium\";v=\"133\""@),
        ("sec-ch-ua-mobile"@, "?0"@),
        ("sec-ch-ua-platform"@, "\"macOS\""@),
        ("upgrade-insecure-requests"@, "1"@),
        ("user-agent"@, "Mozilla/5.0 (Macintosh; Intel Mac OS X 10_15_7) AppleWebKit/537.36 (KHTML, like Gecko) Chrome/133.0.0.0 Safari/537.36"@),
        ("accept"@, "text/html,application/xhtml+xml,application/xml;q=0.9,image/avif,image/webp,image/apng,*/*;q=0.8,application/signed-exchange;v=b3;q=0.7"@),
        ("sec-fetch-site"@, "none"@),
        ("sec-fetch-mode"@, "navigate"@),
        ("sec-fetch-user"@, "?1"@),
        ("sec-fetch-dest"@, "document"@),
        ("accept-encoding"@, "gzip, deflate, br, zstd"@),
        ("accept-language"@, "en-US,en;q=0.9"@),
        ("priority"@, "u=0, i"@),
    ]
}

/// Builds the default headers of Chrome 133.
pub fn headers() -> (r: Vec<(String, String)>)
    ensures
        r.deep_view() == headers_model(),
{
    let list = vec![
        ("sec-ch-ua".to_owned(), "\"Not(A:Brand\";v=\"99\", \"Google Chrome\";v=\"133\", \"Chromium\";v=\"133\"".to_owned()),
        ("sec-ch-ua-mobile".to_owned(), "?0".to_owned()),
        ("sec-ch-ua-platform".to_owned(), "\"macOS\"".to_owned()),
        ("upgrade-insecure-requests".to_owned(), "1".to_owned()),
        ("user-agent".to_owned(), "Mozilla/5.0 (Macintosh; Intel Mac OS X 10_15_7) AppleWebKit/537.36 (KHTML, like Gecko) Chrome/133.0.0.0 Safari/537.36".to_owned()),
        ("accept".to_owned(), "text/html,application/xhtml+xml,application/xml;q=0.9,image/avif,image/webp,image/apng,*/*;q=0.8,application/signed-exchange;v=b3;q=0.7".to_owned()),
        ("sec-fetch-site".to_owned(), "none".to_owned()),
        ("sec-fetch-mode".to_owned(), "navigate".to_owned()),
        ("sec-fetch-user".to_owned(), "?1".to_owned()),
        ("sec-fetch-dest".to_owned(), "document".to_owned()),
        ("accept-encoding".to_owned(), "gzip, deflate, br, zstd".to_owned()),
        ("accept-language".to_owned(), "en-US,en;q=0.9".to_owned()),
        ("priority".to_owned(), "u=0, i".to_owned()),
    ];
    proof {
        assert(list.deep_view() =~= headers_model());
    }
    list
}

/// The complete Chrome 133 fingerprint as a value.
pub open spec fn model() -> BrowserFingerprintView {
    BrowserFingerprintView {
        name: "Chrome"@,
        version: "133"@,
        tls: tls_model(),
        http2: http2_model(),
        headers: headers_model(),
    }
}

/// Returns the complete Chrome 133 fingerprint. Every call builds the same
/// value, and the caller owns it.
pub fn fingerprint() -> (r: BrowserFingerprint)
    ensures
        r@ == model(),
{
    BrowserFingerprint::new("Chrome", "133", tls_fingerprint(), http2_fingerprint(), headers())
}

} // verus!

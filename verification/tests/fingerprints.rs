use impit::emulation::Browser;
use impit::fingerprint::database::{
    chrome_100, chrome_124, chrome_125, chrome_131, chrome_133, chrome_136, chrome_142,
    firefox_128, firefox_133, firefox_135, firefox_144, get_fingerprint, lookup,
};
use impit::fingerprint::{
    BrowserFingerprint, CertificateCompressionAlgorithm, CipherSuite, EchConfig, EchMode,
    ExtensionType, HpkeKemId, Http2Fingerprint, Http2Parameters, Http2Priority, Http2Settings,
    Http2WindowSize, KeyExchangeGroup, SignatureAlgorithm, TlsExtensions, TlsFingerprint,
};

fn all() -> Vec<BrowserFingerprint> {
    vec![
        chrome_100::fingerprint(),
        chrome_124::fingerprint(),
        chrome_125::fingerprint(),
        chrome_131::fingerprint(),
        chrome_133::fingerprint(),
        chrome_136::fingerprint(),
        chrome_142::fingerprint(),
        firefox_128::fingerprint(),
        firefox_133::fingerprint(),
        firefox_135::fingerprint(),
        firefox_144::fingerprint(),
    ]
}

#[test]
fn two_constructions_are_equal() {
    let first = all();
    let second = all();
    for (a, b) in first.iter().zip(second.iter()) {
        assert_eq!(a.name(), b.name());
        assert_eq!(a.version(), b.version());
        assert_eq!(a.tls(), b.tls());
        assert_eq!(a.http2(), b.http2());
        assert_eq!(a.headers(), b.headers());
    }
    assert_eq!(get_fingerprint(Browser::Chrome).tls(), get_fingerprint(Browser::Chrome).tls());
    assert_eq!(get_fingerprint(Browser::Firefox).http2(), get_fingerprint(Browser::Firefox).http2());
}

#[test]
fn names_and_versions() {
    let expected = [
        ("Chrome", "100"),
        ("Chrome", "124"),
        ("Chrome", "125"),
        ("Chrome", "131"),
        ("Chrome", "133"),
        ("Chrome", "136"),
        ("Chrome", "142"),
        ("Firefox", "128"),
        ("Firefox", "133"),
        ("Firefox", "135"),
        ("Firefox", "144"),
    ];
    for (fp, (name, version)) in all().iter().zip(expected.iter()) {
        assert_eq!(fp.name(), *name);
        assert_eq!(fp.version(), *version);
        let found = lookup(&name.to_string(), &version.to_string()).unwrap();
        assert_eq!(found.tls(), fp.tls());
        assert_eq!(found.headers(), fp.headers());
    }
}

#[test]
fn unknown_browser_is_not_in_the_database() {
    assert!(lookup(&"Chrome".to_string(), &"99".to_string()).is_none());
    assert!(lookup(&"Safari".to_string(), &"125".to_string()).is_none());
    assert!(lookup(&"chrome".to_string(), &"125".to_string()).is_none());
}

#[test]
fn browser_enum_selects_default_entries() {
    assert_eq!(get_fingerprint(Browser::Chrome).version(), "125");
    assert_eq!(get_fingerprint(Browser::Chrome).name(), "Chrome");
    assert_eq!(get_fingerprint(Browser::Firefox).version(), "128");
    assert_eq!(get_fingerprint(Browser::Firefox).name(), "Firefox");
}

#[test]
fn chrome_142_shape() {
    let fp = chrome_142::fingerprint();
    let tls = fp.tls();
    assert_eq!(tls.cipher_suites().len(), 16);
    assert_eq!(tls.cipher_suites()[0], CipherSuite::Grease);
    assert_eq!(tls.cipher_suites()[1], CipherSuite::TLS13_AES_128_GCM_SHA256);
    assert_eq!(tls.cipher_suites()[15], CipherSuite::TLS_RSA_WITH_AES_256_CBC_SHA);
    assert_eq!(
        tls.key_exchange_groups(),
        &[
            KeyExchangeGroup::Grease,
            KeyExchangeGroup::X25519MLKEM768,
            KeyExchangeGroup::X25519,
            KeyExchangeGroup::Secp256r1,
            KeyExchangeGroup::Secp384r1
        ]
    );
    assert_eq!(tls.signature_algorithms().len(), 8);
    assert_eq!(tls.signature_algorithms()[0], SignatureAlgorithm::EcdsaSecp256r1Sha256);
    assert_eq!(tls.alpn_protocols(), &[b"h2".to_vec(), b"http/1.1".to_vec()]);
    let ext = tls.extensions();
    assert!(ext.new_alps_codepoint());
    assert!(!ext.padding());
    assert!(ext.application_settings());
    assert!(!ext.delegated_credentials());
    assert_eq!(ext.record_size_limit(), None);
    assert_eq!(ext.compress_certificate(), Some(&[CertificateCompressionAlgorithm::Brotli][..]));
    assert_eq!(ext.extension_order().len(), 13);
    assert_eq!(ext.extension_order()[0], ExtensionType::ServerName);
    assert!(ext.is_consistent());
    let ech = tls.ech_config().unwrap();
    assert_eq!(*ech.mode(), EchMode::Grease { hpke_suite: HpkeKemId::DhKemX25519HkdfSha256 });
    assert_eq!(ech.config_list(), None);
    assert!(!ech.is_real());
    assert_eq!(fp.http2().pseudo_header_order()[1], ":authority");
    assert_eq!(fp.headers().len(), 13);
    assert_eq!(fp.headers()[0].0, "sec-ch-ua");
    assert_eq!(fp.headers()[12], ("priority".to_string(), "u=0, i".to_string()));
}

#[test]
fn chrome_100_has_padding_and_no_ech() {
    let fp = chrome_100::fingerprint();
    assert!(fp.tls().extensions().padding());
    assert!(!fp.tls().extensions().new_alps_codepoint());
    assert!(fp.tls().ech_config().is_none());
    assert_eq!(fp.tls().extensions().extension_order().len(), 18);
    assert_eq!(fp.tls().extensions().extension_order()[17], ExtensionType::Padding);
    assert!(fp.tls().extensions().is_consistent());
}

#[test]
fn firefox_shape() {
    let fp = firefox_128::fingerprint();
    let ext = fp.tls().extensions();
    assert_eq!(fp.tls().cipher_suites().len(), 17);
    assert!(ext.delegated_credentials());
    assert_eq!(ext.record_size_limit(), Some(16385));
    assert!(!ext.signed_certificate_timestamp());
    assert_eq!(ext.compress_certificate(), None);
    assert_eq!(fp.http2().pseudo_header_order()[1], ":path");
    assert_eq!(fp.http2().window_size().connection_window_size(), 12_517_377);
    assert_eq!(fp.http2().window_size().stream_window_size(), 131_072);
    assert_eq!(fp.http2().settings().initial_window_size(), Some(131_072));
    assert_eq!(fp.http2().settings().max_header_list_size(), None);
    assert!(fp.http2().priority().is_none());
    assert_eq!(fp.headers()[0].0, "User-Agent");
}

#[test]
fn firefox_144_reuses_the_shape_of_135() {
    let newer = firefox_144::fingerprint();
    let older = firefox_135::fingerprint();
    assert_eq!(newer.tls(), older.tls());
    assert_eq!(newer.http2(), older.http2());
    assert_ne!(newer.headers(), older.headers());
    assert_eq!(
        newer.headers()[0].1,
        "Mozilla/5.0 (Macintosh; Intel Mac OS X 10.15; rv:144.0) Gecko/20100101 Firefox/144.0"
    );
}

#[test]
fn every_entry_is_consistent() {
    for fp in all() {
        assert!(fp.tls().extensions().is_consistent(), "{} {}", fp.name(), fp.version());
    }
}

#[test]
fn custom_fingerprint_keeps_what_it_was_given() {
    let ext = TlsExtensions::new(
        true,
        false,
        true,
        true,
        false,
        false,
        true,
        false,
        true,
        Some(vec![CertificateCompressionAlgorithm::Zlib, CertificateCompressionAlgorithm::Zstd]),
        false,
        true,
        Some(4096),
        vec![ExtensionType::KeyShare, ExtensionType::ServerName],
    );
    assert!(ext.server_name());
    assert!(!ext.status_request());
    assert!(ext.supported_groups());
    assert!(ext.signature_algorithms());
    assert!(!ext.application_layer_protocol_negotiation());
    assert!(!ext.signed_certificate_timestamp());
    assert!(ext.key_share());
    assert!(!ext.psk_key_exchange_modes());
    assert!(ext.supported_versions());
    assert!(!ext.application_settings());
    assert!(ext.delegated_credentials());
    assert_eq!(ext.record_size_limit(), Some(4096));
    assert_eq!(ext.extension_order(), &[ExtensionType::KeyShare, ExtensionType::ServerName]);
    assert!(!ext.new_alps_codepoint());
    assert!(ext.is_consistent());
    let ext = ext.with_new_alps_codepoint(true).with_padding(true);
    assert!(ext.new_alps_codepoint());
    assert!(ext.padding());
    assert!(ext.server_name());
    let tls = TlsFingerprint::new(
        vec![CipherSuite::TLS13_AES_256_GCM_SHA384],
        vec![KeyExchangeGroup::Secp521r1],
        vec![SignatureAlgorithm::Ed25519, SignatureAlgorithm::Ed448],
        ext.clone(),
        Some(EchConfig::new(EchMode::Real, Some(vec![1, 2, 3]))),
        vec![b"h2".to_vec()],
    );
    assert_eq!(tls.cipher_suites(), &[CipherSuite::TLS13_AES_256_GCM_SHA384]);
    assert_eq!(tls.key_exchange_groups(), &[KeyExchangeGroup::Secp521r1]);
    assert_eq!(tls.signature_algorithms(), &[SignatureAlgorithm::Ed25519, SignatureAlgorithm::Ed448]);
    assert_eq!(tls.extensions(), &ext);
    assert_eq!(tls.ech_config().unwrap().config_list(), Some(&[1u8, 2, 3][..]));
    assert!(tls.ech_config().unwrap().is_real());
    assert_eq!(tls.alpn_protocols(), &[b"h2".to_vec()]);
    let settings =
        Http2Settings::new(Some(1), Some(false), Some(3), Some(4), Some(5), Some(6), vec![(9, 10)]);
    assert_eq!(settings.header_table_size(), Some(1));
    assert_eq!(settings.enable_push(), Some(false));
    assert_eq!(settings.max_concurrent_streams(), Some(3));
    assert_eq!(settings.initial_window_size(), Some(4));
    assert_eq!(settings.max_frame_size(), Some(5));
    assert_eq!(settings.max_header_list_size(), Some(6));
    assert_eq!(settings.custom(), &[(9u16, 10u32)]);
    let window = Http2WindowSize::new(100, 200);
    assert_eq!(window.connection_window_size(), 100);
    assert_eq!(window.stream_window_size(), 200);
    let priority = Http2Priority::new(7, 8, true);
    assert_eq!(priority.weight(), 7);
    assert_eq!(priority.depends_on(), 8);
    assert!(priority.exclusive());
    let http2 = Http2Fingerprint::new(vec![":path".to_string()], settings.clone(), window, Some(priority));
    assert_eq!(http2.pseudo_header_order(), &[":path".to_string()]);
    assert_eq!(http2.settings(), &settings);
    assert_eq!(http2.window_size(), &window);
    assert_eq!(http2.priority(), Some(&priority));
    let fp = BrowserFingerprint::new(
        "Mine",
        "1",
        tls.clone(),
        http2.clone(),
        vec![("a".to_string(), "b".to_string())],
    );
    assert_eq!(fp.name(), "Mine");
    assert_eq!(fp.version(), "1");
    assert_eq!(fp.tls(), &tls);
    assert_eq!(fp.http2(), &http2);
    assert_eq!(fp.headers(), &[("a".to_string(), "b".to_string())]);
}

#[test]
fn reused_parts_are_copies() {
    let base = firefox_135::fingerprint();
    let custom = BrowserFingerprint::new(
        "Custom",
        "1",
        base.tls().clone(),
        base.http2().clone(),
        vec![("user-agent".to_string(), "custom".to_string())],
    );
    assert_eq!(custom.tls(), base.tls());
    assert_eq!(firefox_135::fingerprint().headers().len(), 11);
    assert_eq!(custom.headers().len(), 1);
}

#[test]
fn flag_off_for_listed_extension_is_inconsistent() {
    let ext = TlsExtensions::new(
        false, true, true, true, true, true, true, true, true, None, true, false, None,
        vec![ExtensionType::ServerName],
    );
    assert!(!ext.is_consistent());
    let ext = TlsExtensions::new(
        true, true, true, true, true, true, true, true, true, None, true, false, None,
        vec![ExtensionType::CompressCertificate],
    );
    assert!(!ext.is_consistent());
    let ext = TlsExtensions::new(
        true, true, true, true, true, true, true, true, true, None, true, false, None,
        vec![ExtensionType::Grease, ExtensionType::SessionTicket],
    );
    assert!(ext.is_consistent());
}

#[test]
fn unset_http2_settings_fall_back_to_protocol_defaults() {
    let chrome = chrome_142::fingerprint();
    assert_eq!(
        chrome.http2().parameters(),
        Http2Parameters {
            header_table_size: 4096,
            enable_push: true,
            max_concurrent_streams: None,
            initial_stream_window_size: 65_535,
            initial_connection_window_size: 65_535,
            max_frame_size: 16_384,
            max_header_list_size: None,
        }
    );
    let firefox = firefox_135::fingerprint();
    assert_eq!(firefox.http2().parameters().initial_stream_window_size, 131_072);
    assert_eq!(firefox.http2().parameters().initial_connection_window_size, 12_517_377);
    let custom = Http2Fingerprint::new(
        vec![],
        Http2Settings::new(Some(1), Some(false), Some(3), Some(4), Some(5), Some(6), vec![]),
        Http2WindowSize::new(100, 200),
        None,
    );
    assert_eq!(
        custom.parameters(),
        Http2Parameters {
            header_table_size: 1,
            enable_push: false,
            max_concurrent_streams: Some(3),
            initial_stream_window_size: 4,
            initial_connection_window_size: 100,
            max_frame_size: 5,
            max_header_list_size: Some(6),
        }
    );
}

#[test]
fn wire_table_of_chrome_136() {
    let table = impit::fingerprints::chrome_136_fingerprint();
    assert_eq!(table, impit::fingerprints::chrome_136_fingerprint());
    assert_eq!(table.headers.len(), 13);
    assert_eq!(table.headers[3], ("Upgrade-Insecure-Requests".to_string(), "1".to_string()));
    assert_eq!(table.tls_fingerprint.ciphers.len(), 15);
    assert_eq!(table.tls_fingerprint.ciphers[0], 0x1301);
    assert_eq!(table.tls_fingerprint.ciphers[14], 0x000a);
    assert_eq!(table.tls_fingerprint.extensions.len(), 13);
    assert_eq!(table.tls_fingerprint.groups, vec![0x001d, 0x0017, 0x001e, 0x0100]);
    assert_eq!(table.tls_fingerprint.sig_algs[9], 0x0601);
    assert_eq!(table.h2_fingerprint.window_size, 6291456);
    assert_eq!(table.h2_fingerprint.max_frame_size, 16384);
    assert_eq!(table.h2_fingerprint.initial_conn_window_size, 15728640);
    assert_eq!(table.h2_fingerprint.settings[3], (4, 65536));
    assert_eq!(table.h2_fingerprint.pseudo_headers_order[4], ":protocol");
}

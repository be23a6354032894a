use impit::bridge::{bridge_action, BridgeAction};
use impit::client::{check_proxy, ClientConfig, CookieHandling, ImpitBuilder, LocalAddress};
use impit::cookies::{
    attach_cookie, commit_cookies, cookie_header, cookies_for, CookieStore, NoCookies,
};
use impit::emulation::Browser;
use impit::errors::{ErrorClass, ImpitError};
use impit::fingerprint::database::{chrome_125, firefox_135};
use impit::fingerprint::{
    CertificateCompressionAlgorithm, EchConfig, EchMode, SignatureAlgorithm, TlsFingerprint,
};
use impit::request::{Hop, HttpMethod, RedirectPolicy, RequestOptions, Step};
use impit::tls::{CertificatePolicy, EchSetting, HttpVersionCeiling, TlsConfig};
use impit::url::{resolve_target, Target};

fn h(pairs: &[(&str, &str)]) -> Vec<(String, String)> {
    pairs.iter().map(|(k, v)| (k.to_string(), v.to_string())).collect()
}

fn options(headers: Vec<(String, String)>) -> RequestOptions {
    RequestOptions { headers, timeout: None, http3_prior_knowledge: false }
}

#[test]
fn http3_with_proxy_fails_at_build() {
    let r = ImpitBuilder::default().with_http3().with_proxy("http://127.0.0.1:8080".to_string()).build();
    assert_eq!(r.err(), Some(ImpitError::Http3WithProxy));
    let r = ImpitBuilder::default().with_proxy("socks5://127.0.0.1:1080".to_string()).with_http3().build();
    assert_eq!(r.err(), Some(ImpitError::Http3WithProxy));
    let r = ImpitBuilder::default().with_proxy("garbage".to_string()).with_http3().build();
    assert_eq!(r.err(), Some(ImpitError::Http3WithProxy));
}

#[test]
fn invalid_proxy_fails_at_build() {
    let r = ImpitBuilder::default().with_proxy("not a proxy".to_string()).build();
    assert_eq!(r.err(), Some(ImpitError::ProxyError("not a proxy".to_string())));
    let r = ImpitBuilder::default().with_proxy("ftp://proxy.example:21".to_string()).build();
    assert_eq!(r.err(), Some(ImpitError::ProxyError("ftp://proxy.example:21".to_string())));
}

#[test]
fn supported_proxy_schemes_build() {
    for url in ["http://p.example:3128", "https://p.example", "socks4://p.example:1080", "socks5://p.example:1080"] {
        let config = ImpitBuilder::default().with_proxy(url.to_string()).build().unwrap();
        assert_eq!(config.proxy_url(), Some(&url.to_string()));
    }
}

#[test]
fn proxy_check_goes_by_the_parsed_url() {
    let t = |scheme: &str, host: Option<&str>| {
        Some(Target { href: String::new(), scheme: scheme.to_string(), host: host.map(|x| x.to_string()) })
    };
    assert!(check_proxy(&t("http", Some("p"))));
    assert!(check_proxy(&t("socks5", Some("p"))));
    assert!(!check_proxy(&t("socks5", None)));
    assert!(!check_proxy(&t("socks5h", Some("p"))));
    assert!(!check_proxy(&None));
}

#[test]
fn defaults() {
    let config = ClientConfig::builder().build().unwrap();
    assert!(config.fingerprint().is_none());
    assert_eq!(config.redirect(), RedirectPolicy::Follow(10));
    assert!(!config.http3());
    assert_eq!(config.proxy_url(), None);
    assert_eq!(config.local_address(), None);
    assert_eq!(config.cookies(), CookieHandling::Store);
    assert_eq!(config.deadline(&options(vec![])), None);
    assert_eq!(config.tls().fingerprint, None);
    assert_eq!(config.tls().certificates, CertificatePolicy::Verify);
    assert_eq!(config.tls().alpn_override, None);
}

#[test]
fn builder_calls_in_any_order() {
    let a = ImpitBuilder::default()
        .with_browser(Browser::Firefox)
        .with_ignore_tls_errors(true)
        .with_default_timeout(3000)
        .with_redirect(RedirectPolicy::Manual)
        .with_local_address(LocalAddress::V4(127, 0, 0, 1))
        .with_cookie_handling(CookieHandling::Delegated)
        .build()
        .unwrap();
    let b = ImpitBuilder::default()
        .with_cookie_handling(CookieHandling::Delegated)
        .with_local_address(LocalAddress::V4(127, 0, 0, 1))
        .with_redirect(RedirectPolicy::Manual)
        .with_default_timeout(3000)
        .with_ignore_tls_errors(true)
        .with_browser(Browser::Firefox)
        .build()
        .unwrap();
    assert_eq!(a.tls(), b.tls());
    assert_eq!(a.redirect(), RedirectPolicy::Manual);
    assert_eq!(b.redirect(), RedirectPolicy::Manual);
    assert_eq!(a.local_address(), Some(LocalAddress::V4(127, 0, 0, 1)));
    assert_eq!(a.cookies(), CookieHandling::Delegated);
    assert_eq!(a.deadline(&options(vec![])), Some(3000));
    assert_eq!(a.fingerprint().unwrap().version(), "128");
    let opts = RequestOptions { headers: vec![], timeout: Some(10), http3_prior_knowledge: false };
    assert_eq!(a.deadline(&opts), Some(10));
}

#[test]
fn fingerprint_outranks_browser_in_the_client() {
    let config = ImpitBuilder::default()
        .with_browser(Browser::Chrome)
        .with_fingerprint(firefox_135::fingerprint())
        .build()
        .unwrap();
    assert_eq!(config.fingerprint().unwrap().name(), "Firefox");
    assert_eq!(config.fingerprint().unwrap().version(), "135");
}

#[test]
fn request_headers_merge_three_sources() {
    let config = ImpitBuilder::default()
        .with_browser(Browser::Chrome)
        .with_headers(h(&[("Accept-Language", "cs"), ("X-Client", "1"), ("priority", "")]))
        .build()
        .unwrap();
    let out = config.request_headers(&options(h(&[("user-agent", ""), ("x-client", "2")])));
    let mut expected = h(&[("x-client", "2"), ("Accept-Language", "cs")]);
    for (k, v) in chrome_125::headers() {
        let key = k.to_lowercase();
        if key != "user-agent" && key != "accept-language" && key != "priority" {
            expected.push((k, v));
        }
    }
    assert_eq!(out, expected);
    let again = config.request_headers(&options(h(&[("user-agent", ""), ("x-client", "2")])));
    assert_eq!(again, expected);
}

#[test]
fn client_drives_the_pipeline() {
    let config = ImpitBuilder::default().with_redirect(RedirectPolicy::Follow(1)).build().unwrap();
    let hop = config.begin(HttpMethod::Post, "http://example.com/a", Some(vec![1]), &options(vec![])).unwrap();
    assert_eq!(hop, Hop { method: HttpMethod::Post, url: "http://example.com/a".to_string(), body: Some(vec![1]), redirects: 0 });
    let step = config.next_step(hop, 302, Some("b?x=1".to_string()));
    let next = Hop { method: HttpMethod::Get, url: "http://example.com/b?x=1".to_string(), body: None, redirects: 1 };
    assert_eq!(step, Step::Dispatch(next.clone()));
    assert_eq!(config.next_step(next, 302, Some("c".to_string())), Step::Failed(ImpitError::TooManyRedirects));
    let opts = RequestOptions { headers: vec![], timeout: None, http3_prior_knowledge: true };
    assert_eq!(config.begin(HttpMethod::Get, "http://example.com/", None, &opts), Err(ImpitError::Http3Disabled));
}

#[test]
fn fallback_only_for_impersonating_clients_after_connect_errors() {
    let plain = ImpitBuilder::default().with_fallback_to_vanilla(true).build().unwrap();
    let strict = ImpitBuilder::default().with_browser(Browser::Chrome).build().unwrap();
    let lenient =
        ImpitBuilder::default().with_browser(Browser::Chrome).with_fallback_to_vanilla(true).build().unwrap();
    let connect = ImpitError::ConnectError("handshake".to_string());
    assert!(!plain.falls_back_on(&connect));
    assert!(!strict.falls_back_on(&connect));
    assert!(lenient.falls_back_on(&connect));
    assert!(!lenient.falls_back_on(&ImpitError::TimeoutError));
    assert!(!lenient.falls_back_on(&ImpitError::TooManyRedirects));
}

#[test]
fn tls_settings_follow_the_fingerprint() {
    let fp = firefox_135::fingerprint();
    let mut builder = TlsConfig::builder();
    builder.with_tls_fingerprint(fp.tls().clone()).with_ignore_tls_errors(true);
    let settings = builder.build();
    let engine = settings.fingerprint.unwrap();
    assert_eq!(engine.cipher_suites, fp.tls().cipher_suites().to_vec());
    assert_eq!(engine.key_exchange_groups, fp.tls().key_exchange_groups().to_vec());
    assert_eq!(engine.signature_algorithms, fp.tls().signature_algorithms().to_vec());
    assert_eq!(engine.alpn_protocols, vec![b"h2".to_vec(), b"http/1.1".to_vec()]);
    assert_eq!(
        engine.cert_compression,
        Some(vec![
            CertificateCompressionAlgorithm::Zlib,
            CertificateCompressionAlgorithm::Brotli,
            CertificateCompressionAlgorithm::Zstd
        ])
    );
    assert!(!engine.extensions.grease);
    assert!(engine.extensions.renegotiation_info);
    assert!(engine.extensions.delegated_credentials);
    assert_eq!(engine.extensions.record_size_limit, Some(4001));
    assert_eq!(
        settings.certificates,
        CertificatePolicy::AcceptAny(Some(fp.tls().signature_algorithms().to_vec()))
    );
    assert_eq!(settings.alpn_override, None);
}

#[test]
fn grease_follows_the_extension_order() {
    let with = impit::fingerprint::database::chrome_100::fingerprint().tls().to_rustls_fingerprint();
    assert!(with.extensions.grease);
    assert!(with.extensions.signed_certificate_timestamp);
    assert!(with.extensions.application_settings);
    let without = impit::fingerprint::database::chrome_142::fingerprint().tls().to_rustls_fingerprint();
    assert!(!without.extensions.grease);
    assert_eq!(without.cipher_suites.len(), 16);
    assert_eq!(without.key_exchange_groups.len(), 5);
}

#[test]
fn vanilla_settings() {
    let settings = TlsConfig::builder().build();
    assert_eq!(settings.fingerprint, None);
    assert_eq!(settings.certificates, CertificatePolicy::Verify);
    assert_eq!(settings.alpn_override, None);
    assert_eq!(settings.ech, EchSetting::Grease(impit::fingerprint::HpkeKemId::DhKemX25519HkdfSha256));
    let mut builder = TlsConfig::builder();
    builder.with_ignore_tls_errors(true).with_http3();
    let settings = builder.build();
    assert_eq!(settings.certificates, CertificatePolicy::AcceptAny(None));
    assert_eq!(settings.alpn_override, Some(vec![b"h3".to_vec()]));
}

#[test]
fn http3_forces_single_alpn_token() {
    let config = ImpitBuilder::default().with_browser(Browser::Chrome).with_http3().build().unwrap();
    assert_eq!(config.tls().alpn_override, Some(vec![vec![0x68, 0x33]]));
    assert!(config.http3());
    let _ = HttpVersionCeiling::Http3;
}

#[test]
fn browser_selects_database_tls() {
    let mut builder = TlsConfig::builder();
    builder.with_browser(Some(Browser::Chrome));
    let settings = builder.build();
    assert_eq!(settings.fingerprint, Some(chrome_125::fingerprint().tls().to_rustls_fingerprint()));
    let mut builder = TlsConfig::builder();
    builder.with_browser(Some(Browser::Chrome)).with_fingerprint(Some(firefox_135::fingerprint().tls().clone()));
    assert_eq!(builder.build().fingerprint, Some(firefox_135::fingerprint().tls().to_rustls_fingerprint()));
    let mut builder = TlsConfig::builder();
    builder.with_tls_fingerprint(firefox_135::fingerprint().tls().clone()).with_fingerprint(None);
    assert_eq!(builder.build().fingerprint, None);
}

#[test]
fn real_ech_is_used_when_supplied() {
    let base = firefox_135::fingerprint();
    let make = |ech: Option<EchConfig>| {
        TlsFingerprint::new(
            base.tls().cipher_suites().to_vec(),
            base.tls().key_exchange_groups().to_vec(),
            vec![SignatureAlgorithm::Ed25519],
            base.tls().extensions().clone(),
            ech,
            vec![],
        )
    };
    let settings = impit::tls::tls_settings(
        Some(&make(Some(EchConfig::new(EchMode::Real, Some(vec![9, 8]))))),
        false,
        HttpVersionCeiling::Http2,
    );
    assert_eq!(settings.ech, EchSetting::Real(vec![9, 8]));
    let grease = EchSetting::Grease(impit::fingerprint::HpkeKemId::DhKemX25519HkdfSha256);
    let settings = impit::tls::tls_settings(
        Some(&make(Some(EchConfig::new(EchMode::Real, None)))),
        false,
        HttpVersionCeiling::Http2,
    );
    assert_eq!(settings.ech, grease);
    let settings = impit::tls::tls_settings(
        Some(&make(Some(EchConfig::new(EchMode::Disabled, Some(vec![1]))))),
        false,
        HttpVersionCeiling::Http2,
    );
    assert_eq!(settings.ech, grease);
    let settings = impit::tls::tls_settings(
        Some(&make(Some(EchConfig::new(
            EchMode::Grease { hpke_suite: impit::fingerprint::HpkeKemId::DhKemP256HkdfSha256 },
            None,
        )))),
        true,
        HttpVersionCeiling::Http2,
    );
    assert_eq!(settings.ech, EchSetting::Grease(impit::fingerprint::HpkeKemId::DhKemP256HkdfSha256));
    assert_eq!(settings.certificates, CertificatePolicy::AcceptAny(Some(vec![SignatureAlgorithm::Ed25519])));
    let settings = impit::tls::tls_settings(Some(&make(None)), false, HttpVersionCeiling::Http2);
    assert_eq!(settings.ech, grease);
}

#[test]
fn error_classes() {
    let cases = vec![
        (ImpitError::UrlMissingHostnameError(String::new()), ErrorClass::Input),
        (ImpitError::UrlProtocolError(String::new()), ErrorClass::Input),
        (ImpitError::UrlParsingError(String::new()), ErrorClass::Input),
        (ImpitError::InvalidMethod(String::new()), ErrorClass::Input),
        (ImpitError::InvalidHeaderName(String::new()), ErrorClass::Input),
        (ImpitError::InvalidHeaderValue(String::new()), ErrorClass::Input),
        (ImpitError::BodyNotAllowed, ErrorClass::Input),
        (ImpitError::UnsupportedBody(String::new()), ErrorClass::Input),
        (ImpitError::ProxyError(String::new()), ErrorClass::Configuration),
        (ImpitError::InvalidLocalAddress(String::new()), ErrorClass::Configuration),
        (ImpitError::Http3WithProxy, ErrorClass::Configuration),
        (ImpitError::CookieStoreError(String::new()), ErrorClass::Configuration),
        (ImpitError::Http3Disabled, ErrorClass::Policy),
        (ImpitError::TooManyRedirects, ErrorClass::Policy),
        (ImpitError::ConnectError(String::new()), ErrorClass::Transport),
        (ImpitError::TimeoutError, ErrorClass::Transport),
        (ImpitError::StreamAlreadyConsumed, ErrorClass::Transport),
        (ImpitError::StreamClosed, ErrorClass::Transport),
        (ImpitError::Aborted, ErrorClass::Transport),
        (ImpitError::NetworkError, ErrorClass::Transport),
        (ImpitError::HTTPStatusError(404), ErrorClass::Status),
    ];
    for (error, class) in cases {
        assert_eq!(error.class(), class);
        assert_eq!(error.may_succeed_on_retry(), class == ErrorClass::Transport);
        assert_eq!(error.is_invalid_argument(), class == ErrorClass::Input);
    }
}

#[test]
fn targets() {
    let t = resolve_target("http://User@Example.com:80/a/../b?q#f").unwrap();
    assert_eq!(t.href, "http://User@example.com/b?q#f");
    assert_eq!(t.scheme, "http");
    assert_eq!(t.host, Some("example.com".to_string()));
    assert_eq!(resolve_target("mailto:a@b.c"), Err(ImpitError::UrlMissingHostnameError("mailto:a@b.c".to_string())));
    assert_eq!(resolve_target("ws://example.com/"), Err(ImpitError::UrlProtocolError("ws".to_string())));
    assert_eq!(resolve_target("//example.com/"), Err(ImpitError::UrlParsingError("//example.com/".to_string())));
}

#[test]
fn cookie_answers() {
    assert_eq!(cookie_header(Some("a=1; b=2".to_string())), Some("a=1; b=2".to_string()));
    assert_eq!(cookie_header(Some(String::new())), None);
    assert_eq!(cookie_header(Some("a=1\r\nInjected: x".to_string())), None);
    assert_eq!(cookie_header(None), None);
}

struct Fixed(Option<String>, Vec<String>);

impl CookieStore for Fixed {
    fn cookies(&self, _url: &str) -> Option<String> {
        self.0.clone()
    }

    fn set_cookies(&mut self, cookie_headers: &Vec<String>, url: &str) {
        for c in cookie_headers {
            self.1.push(format!("{} {}", url, c));
        }
    }
}

#[test]
fn delegated_cookies_never_ask_the_store() {
    let store = Fixed(Some("a=1".to_string()), vec![]);
    assert_eq!(cookies_for(CookieHandling::Delegated, &store, "https://example.com/"), None);
    assert_eq!(cookies_for(CookieHandling::Store, &store, "https://example.com/"), Some("a=1".to_string()));
    let empty = Fixed(Some(String::new()), vec![]);
    assert_eq!(cookies_for(CookieHandling::Store, &empty, "https://example.com/"), None);
    let mut none = NoCookies;
    none.set_cookies(&vec!["a=1".to_string()], "https://example.com/");
    assert_eq!(none.cookies("https://example.com/"), None);
    assert_eq!(cookies_for(CookieHandling::Store, &none, "https://example.com/"), None);
}

#[test]
fn bridge_waits_five_times() {
    assert_eq!(bridge_action(true, 0), BridgeAction::Deliver);
    assert_eq!(bridge_action(true, 5), BridgeAction::Deliver);
    for retries in 0..5 {
        assert_eq!(bridge_action(false, retries), BridgeAction::Wait(5));
    }
    assert_eq!(bridge_action(false, 5), BridgeAction::GiveUp);
    assert_eq!(bridge_action(false, 6), BridgeAction::GiveUp);
}

#[test]
fn cookies_are_attached_last() {
    let base = h(&[("accept", "*/*")]);
    assert_eq!(attach_cookie(base.clone(), None), base);
    assert_eq!(
        attach_cookie(base.clone(), Some("a=1".to_string())),
        h(&[("accept", "*/*"), ("cookie", "a=1")])
    );
    let own = h(&[("Cookie", "mine=1"), ("accept", "*/*")]);
    assert_eq!(attach_cookie(own.clone(), Some("a=1".to_string())), own);
    assert_eq!(attach_cookie(vec![], Some("a=1".to_string())), h(&[("cookie", "a=1")]));
}

#[test]
fn exchange_headers_read_the_store() {
    let hop = Hop { method: HttpMethod::Get, url: "https://example.com/".to_string(), body: None, redirects: 0 };
    let store = Fixed(Some("sid=7".to_string()), vec![]);
    let keeping = ImpitBuilder::default().with_headers(h(&[("x-a", "1")])).build().unwrap();
    assert_eq!(
        keeping.exchange_headers(&store, &hop, &options(h(&[("x-b", "2")]))),
        Ok(h(&[("x-b", "2"), ("x-a", "1"), ("cookie", "sid=7")]))
    );
    assert_eq!(
        keeping.exchange_headers(&store, &hop, &options(h(&[("COOKIE", "own=1")]))),
        Ok(h(&[("COOKIE", "own=1"), ("x-a", "1")]))
    );
    assert_eq!(
        keeping.exchange_headers(&store, &hop, &options(h(&[("bad name", "2")]))),
        Err(ImpitError::InvalidHeaderName("bad name".to_string()))
    );
    let delegating = ImpitBuilder::default()
        .with_headers(h(&[("x-a", "1")]))
        .with_cookie_handling(CookieHandling::Delegated)
        .build()
        .unwrap();
    assert_eq!(delegating.exchange_headers(&store, &hop, &options(vec![])), Ok(h(&[("x-a", "1")])));
}

#[test]
fn cookies_are_stored_before_the_next_exchange() {
    let hop = || Hop { method: HttpMethod::Get, url: "https://example.com/a".to_string(), body: None, redirects: 0 };
    let cookies = vec!["sid=7; Path=/".to_string(), "lang=cs".to_string()];
    let keeping = ImpitBuilder::default().build().unwrap();
    let mut store = Fixed(None, vec![]);
    let step = keeping.advance(&mut store, hop(), 302, Some("/b".to_string()), &cookies);
    assert_eq!(
        step,
        Step::Dispatch(Hop { method: HttpMethod::Get, url: "https://example.com/b".to_string(), body: None, redirects: 1 })
    );
    assert_eq!(
        store.1,
        vec!["https://example.com/a sid=7; Path=/".to_string(), "https://example.com/a lang=cs".to_string()]
    );
    let delegating = ImpitBuilder::default().with_cookie_handling(CookieHandling::Delegated).build().unwrap();
    let mut untouched = Fixed(None, vec![]);
    assert_eq!(delegating.advance(&mut untouched, hop(), 200, None, &cookies), Step::Done);
    assert!(untouched.1.is_empty());
}

#[test]
fn vanilla_client_has_no_impersonation() {
    let config = ImpitBuilder::default()
        .with_browser(Browser::Chrome)
        .with_fallback_to_vanilla(true)
        .with_ignore_tls_errors(true)
        .with_proxy("http://p.example:3128".to_string())
        .with_default_timeout(700)
        .with_redirect(RedirectPolicy::Follow(3))
        .with_headers(h(&[("x-a", "1")]))
        .build()
        .unwrap();
    let plain = config.vanilla();
    assert!(plain.fingerprint().is_none());
    assert_eq!(plain.tls().fingerprint, None);
    assert_eq!(plain.tls().certificates, CertificatePolicy::AcceptAny(None));
    assert_eq!(plain.proxy_url(), Some(&"http://p.example:3128".to_string()));
    assert_eq!(plain.redirect(), RedirectPolicy::Follow(3));
    assert_eq!(plain.deadline(&options(vec![])), Some(700));
    assert_eq!(plain.request_headers(&options(vec![])), h(&[("x-a", "1")]));
    assert!(!plain.falls_back_on(&ImpitError::ConnectError(String::new())));
    assert!(config.falls_back_on(&ImpitError::ConnectError(String::new())));
}

#[test]
fn store_is_not_told_of_a_response_without_cookies() {
    let hop = Hop { method: HttpMethod::Get, url: "https://example.com/a".to_string(), body: None, redirects: 0 };
    let keeping = ImpitBuilder::default().build().unwrap();
    let mut store = Fixed(None, vec![]);
    assert_eq!(keeping.advance(&mut store, hop.clone(), 200, None, &vec![]), Step::Done);
    assert!(store.1.is_empty());
    commit_cookies(CookieHandling::Store, &mut store, &vec![], "https://example.com/a");
    assert!(store.1.is_empty());
    commit_cookies(CookieHandling::Delegated, &mut store, &vec!["a=1".to_string()], "https://example.com/a");
    assert!(store.1.is_empty());
    commit_cookies(CookieHandling::Store, &mut store, &vec!["a=1".to_string()], "https://example.com/a");
    assert_eq!(store.1, vec!["https://example.com/a a=1".to_string()]);
}

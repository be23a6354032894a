use impit::cache::{same_fingerprint, ProviderCache};
use impit::client::{redirect_policy, ImpitOptions};
use impit::emulation::Browser;
use impit::errors::ImpitError;
use impit::fingerprint::database::{chrome_100, chrome_136, chrome_142, firefox_128, firefox_135, firefox_144};
use impit::fingerprint::{EchConfig, EchMode, TlsFingerprint};
use impit::request::{unpack, HttpMethod, RedirectPolicy, RequestInit, RequestOptions};
use impit::response::{
    BodySource, BodyState, BytesIterator, ChunkOutcome, Headers, ImpitResponse, InnerResponseState,
    IterAction,
};
use impit::tls::CertificatePolicy;

#[test]
fn equal_fingerprints_share_a_slot() {
    let mut cache = ProviderCache::new();
    assert_eq!(cache.len(), 0);
    assert_eq!(cache.find(firefox_135::fingerprint().tls()), None);
    assert_eq!(cache.slot_for(firefox_135::fingerprint().tls().clone()), (0, true));
    assert_eq!(cache.slot_for(chrome_142::fingerprint().tls().clone()), (1, true));
    assert_eq!(cache.slot_for(firefox_135::fingerprint().tls().clone()), (0, false));
    assert_eq!(cache.slot_for(firefox_144::fingerprint().tls().clone()), (0, false));
    assert_eq!(cache.slot_for(chrome_100::fingerprint().tls().clone()), (2, true));
    assert_eq!(cache.len(), 3);
    assert_eq!(cache.find(chrome_142::fingerprint().tls()), Some(1));
    assert_eq!(cache.find(firefox_128::fingerprint().tls()), None);
}

#[test]
fn structural_equality_of_fingerprints() {
    let a = chrome_142::fingerprint();
    let b = chrome_136::fingerprint();
    assert_eq!(same_fingerprint(a.tls(), b.tls()), a.tls() == b.tls());
    assert!(same_fingerprint(a.tls(), a.tls()));
    assert!(!same_fingerprint(a.tls(), firefox_128::fingerprint().tls()));
    assert!(!same_fingerprint(chrome_100::fingerprint().tls(), a.tls()));
    let base = firefox_135::fingerprint();
    let vary = |order_reversed: bool, ech: Option<EchConfig>, alpn: Vec<Vec<u8>>| {
        let mut ciphers = base.tls().cipher_suites().to_vec();
        if order_reversed {
            ciphers.reverse();
        }
        TlsFingerprint::new(
            ciphers,
            base.tls().key_exchange_groups().to_vec(),
            base.tls().signature_algorithms().to_vec(),
            base.tls().extensions().clone(),
            ech,
            alpn,
        )
    };
    let ech = || base.tls().ech_config().cloned();
    let alpn = || base.tls().alpn_protocols().to_vec();
    assert!(same_fingerprint(&vary(false, ech(), alpn()), base.tls()));
    assert!(!same_fingerprint(&vary(true, ech(), alpn()), base.tls()));
    assert!(!same_fingerprint(&vary(false, None, alpn()), base.tls()));
    assert!(!same_fingerprint(&vary(false, Some(EchConfig::new(EchMode::Real, None)), alpn()), base.tls()));
    assert!(!same_fingerprint(&vary(false, ech(), vec![b"http/1.1".to_vec(), b"h2".to_vec()]), base.tls()));
    assert!(!same_fingerprint(&vary(false, ech(), vec![b"h2".to_vec()]), base.tls()));
    let padded = TlsFingerprint::new(
        base.tls().cipher_suites().to_vec(),
        base.tls().key_exchange_groups().to_vec(),
        base.tls().signature_algorithms().to_vec(),
        base.tls().extensions().clone().with_padding(true),
        ech(),
        alpn(),
    );
    assert!(!same_fingerprint(&padded, base.tls()));
}

#[test]
fn redirect_options() {
    assert_eq!(redirect_policy(None, None), RedirectPolicy::Follow(10));
    assert_eq!(redirect_policy(Some(true), None), RedirectPolicy::Follow(10));
    assert_eq!(redirect_policy(Some(true), Some(3)), RedirectPolicy::Follow(3));
    assert_eq!(redirect_policy(None, Some(0)), RedirectPolicy::Follow(0));
    assert_eq!(redirect_policy(Some(false), None), RedirectPolicy::Manual);
    assert_eq!(redirect_policy(Some(false), Some(7)), RedirectPolicy::Manual);
}

#[test]
fn cached_body_is_handed_out_once() {
    let mut it = BytesIterator::new(BodySource::Cached);
    assert_eq!(it.next_action(false), IterAction::Cached);
    assert_eq!(it.next_action(false), IterAction::End);
    assert_eq!(it.next_action(true), IterAction::End);
}

#[test]
fn stream_is_polled_until_it_ends() {
    let mut body = BodyState::new(true);
    let source = body.iter_bytes().unwrap();
    let mut it = BytesIterator::new(source);
    assert_eq!(it.next_action(body.is_closed), IterAction::Poll);
    assert!(it.on_chunk(&mut body, ChunkOutcome::Data));
    assert_eq!(body.state, InnerResponseState::Streaming);
    assert_eq!(it.next_action(body.is_closed), IterAction::Poll);
    assert!(!it.on_chunk(&mut body, ChunkOutcome::Finished));
    assert_eq!(
        body,
        BodyState { state: InnerResponseState::StreamingClosed, is_closed: true, is_stream_consumed: true }
    );
    assert_eq!(it.next_action(body.is_closed), IterAction::End);
}

#[test]
fn failed_chunk_ends_the_iteration() {
    let mut body = BodyState::new(true);
    let mut it = BytesIterator::new(body.iter_bytes().unwrap());
    assert!(!it.on_chunk(&mut body, ChunkOutcome::Failed));
    assert_eq!(body.state, InnerResponseState::Streaming);
    assert_eq!(it.next_action(false), IterAction::End);
}

#[test]
fn closed_response_ends_the_iteration() {
    let mut body = BodyState::new(true);
    let mut it = BytesIterator::new(body.iter_bytes().unwrap());
    body.close();
    assert_eq!(it.next_action(body.is_closed), IterAction::End);
    assert_eq!(it.next_action(body.is_closed), IterAction::End);
}

#[test]
fn request_init_defaults() {
    let (method, body, options) = unpack(None);
    assert_eq!(method, HttpMethod::Get);
    assert_eq!(body, None);
    assert_eq!(options, RequestOptions { headers: vec![], timeout: None, http3_prior_knowledge: false });
    let (method, body, options) = unpack(Some(RequestInit::default()));
    assert_eq!(method, HttpMethod::default());
    assert_eq!(body, None);
    assert_eq!(options, RequestOptions { headers: vec![], timeout: None, http3_prior_knowledge: false });
    let init = RequestInit {
        method: Some(HttpMethod::Patch),
        headers: Some(vec![("a".to_string(), "b".to_string())]),
        body: Some(vec![1, 2]),
        timeout: Some(1500),
        force_http3: Some(true),
    };
    let (method, body, options) = unpack(Some(init));
    assert_eq!(method, HttpMethod::Patch);
    assert_eq!(body, Some(vec![1, 2]));
    assert_eq!(
        options,
        RequestOptions {
            headers: vec![("a".to_string(), "b".to_string())],
            timeout: Some(1500),
            http3_prior_knowledge: true
        }
    );
}

#[test]
fn client_options_become_a_builder() {
    let config = ImpitOptions::default().into_builder().build().unwrap();
    assert_eq!(config.redirect(), RedirectPolicy::Follow(10));
    assert!(config.fingerprint().is_none());
    assert!(!config.http3());
    let options = ImpitOptions {
        browser: Some(Browser::Firefox),
        ignore_tls_errors: Some(true),
        vanilla_fallback: Some(true),
        proxy_url: Some("http://proxy.example:8080".to_string()),
        timeout: Some(2500),
        http3: Some(false),
        follow_redirects: Some(true),
        max_redirects: Some(2),
    };
    let config = options.into_builder().build().unwrap();
    assert_eq!(config.redirect(), RedirectPolicy::Follow(2));
    assert_eq!(config.fingerprint().unwrap().name(), "Firefox");
    assert_eq!(config.proxy_url(), Some(&"http://proxy.example:8080".to_string()));
    assert_eq!(config.tls().certificates, CertificatePolicy::AcceptAny(Some(
        firefox_128::fingerprint().tls().signature_algorithms().to_vec()
    )));
    let opts = RequestOptions { headers: vec![], timeout: None, http3_prior_knowledge: false };
    assert_eq!(config.deadline(&opts), Some(2500));
    assert!(config.falls_back_on(&ImpitError::ConnectError(String::new())));
    let options = ImpitOptions {
        http3: Some(true),
        proxy_url: Some("http://proxy.example:8080".to_string()),
        follow_redirects: Some(false),
        ..ImpitOptions::default()
    };
    assert_eq!(options.clone().into_builder().build().err(), Some(ImpitError::Http3WithProxy));
}

#[test]
fn browser_names() {
    assert_eq!(Browser::from_name("chrome"), Some(Browser::Chrome));
    assert_eq!(Browser::from_name("Chrome"), Some(Browser::Chrome));
    assert_eq!(Browser::from_name("FIREFOX"), Some(Browser::Firefox));
    assert_eq!(Browser::from_name("safari"), None);
    assert_eq!(Browser::from_name(""), None);
    assert_eq!(Browser::from_lowercase(&"Chrome".to_string()), None);
}

#[test]
fn response_head() {
    let head = ImpitResponse::from_parts(
        204,
        "No Content".to_string(),
        Headers(vec![("server".to_string(), "x".to_string())]),
        "https://example.com/".to_string(),
    );
    assert!(head.ok);
    assert_eq!(head.status, 204);
    assert_eq!(head.status_text, "No Content");
    assert_eq!(head.url, "https://example.com/");
    assert_eq!(head.headers.get("Server"), Some("x"));
    let head = ImpitResponse::from_parts(301, String::new(), Headers(vec![]), String::new());
    assert!(!head.ok);
}

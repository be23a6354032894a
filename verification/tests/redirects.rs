use impit::client::ImpitBuilder;
use impit::errors::ImpitError;
use impit::fingerprint::database::firefox_135;
use impit::request::{
    begin, effective_timeout, next_step, time_left, Hop, HttpMethod, RedirectPolicy, RequestOptions, Step,
};

fn options() -> RequestOptions {
    RequestOptions { headers: vec![], timeout: None, http3_prior_knowledge: false }
}

fn hop(method: HttpMethod, url: &str, body: Option<Vec<u8>>, redirects: usize) -> Hop {
    Hop { method, url: url.to_string(), body, redirects }
}

#[test]
fn get_with_body_is_rejected_before_sending() {
    let r = begin(HttpMethod::Get, "https://example.com/", Some(vec![1, 2, 3]), &options(), false);
    assert_eq!(r, Err(ImpitError::BodyNotAllowed));
    let r = begin(HttpMethod::Head, "https://example.com/", Some(vec![1]), &options(), false);
    assert_eq!(r, Err(ImpitError::BodyNotAllowed));
}

#[test]
fn get_with_empty_body_is_accepted() {
    let r = begin(HttpMethod::Get, "https://example.com/a", Some(vec![]), &options(), false);
    assert_eq!(r, Ok(hop(HttpMethod::Get, "https://example.com/a", Some(vec![]), 0)));
}

#[test]
fn follow_zero_fails_on_redirect() {
    let h = hop(HttpMethod::Get, "https://example.com/", None, 0);
    let step = next_step(RedirectPolicy::Follow(0), h, 302, Some("/next".to_string()));
    assert_eq!(step, Step::Failed(ImpitError::TooManyRedirects));
}

#[test]
fn see_other_turns_post_into_get() {
    let h = hop(HttpMethod::Post, "https://example.com/form", Some(vec![9, 9]), 0);
    let step = next_step(RedirectPolicy::Follow(5), h, 303, Some("/done".to_string()));
    assert_eq!(step, Step::Dispatch(hop(HttpMethod::Get, "https://example.com/done", None, 1)));
}

#[test]
fn temporary_redirect_keeps_post_and_body() {
    let h = hop(HttpMethod::Post, "https://example.com/form", Some(vec![9, 9]), 0);
    let step = next_step(RedirectPolicy::Follow(5), h, 307, Some("https://other.example/x".to_string()));
    assert_eq!(step, Step::Dispatch(hop(HttpMethod::Post, "https://other.example/x", Some(vec![9, 9]), 1)));
}

#[test]
fn manual_policy_returns_redirect_as_is() {
    for status in [200u16, 301, 302, 303, 307, 308, 404, 500] {
        let h = hop(HttpMethod::Get, "https://example.com/", None, 0);
        let step = next_step(RedirectPolicy::Manual, h, status, Some("/next".to_string()));
        assert_eq!(step, Step::Done);
    }
}

#[test]
fn redirect_without_location_is_final() {
    let h = hop(HttpMethod::Get, "https://example.com/", None, 0);
    assert_eq!(next_step(RedirectPolicy::Follow(0), h, 304, None), Step::Done);
}

#[test]
fn permanent_redirect_keeps_put_and_body() {
    let h = hop(HttpMethod::Put, "https://example.com/a/b", Some(vec![1]), 2);
    let step = next_step(RedirectPolicy::Follow(3), h, 308, Some("../c".to_string()));
    assert_eq!(step, Step::Dispatch(hop(HttpMethod::Put, "https://example.com/c", Some(vec![1]), 3)));
}

#[test]
fn moved_permanently_and_found_turn_post_into_get() {
    for status in [301u16, 302] {
        let h = hop(HttpMethod::Post, "https://example.com/form", Some(vec![7]), 0);
        let step = next_step(RedirectPolicy::Follow(1), h, status, Some("/x".to_string()));
        assert_eq!(step, Step::Dispatch(hop(HttpMethod::Get, "https://example.com/x", None, 1)));
    }
}

#[test]
fn limit_reached_fails() {
    let h = hop(HttpMethod::Get, "https://example.com/", None, 5);
    let step = next_step(RedirectPolicy::Follow(5), h, 301, Some("/again".to_string()));
    assert_eq!(step, Step::Failed(ImpitError::TooManyRedirects));
}

#[test]
fn redirect_to_unsupported_scheme_fails() {
    let h = hop(HttpMethod::Get, "https://example.com/", None, 0);
    let step = next_step(RedirectPolicy::Follow(5), h, 302, Some("ftp://example.com/f".to_string()));
    assert_eq!(step, Step::Failed(ImpitError::UrlProtocolError("ftp".to_string())));
}

#[test]
fn redirect_to_url_without_host_fails() {
    let h = hop(HttpMethod::Get, "https://example.com/", None, 0);
    let step = next_step(RedirectPolicy::Follow(5), h, 302, Some("data:text/plain,hi".to_string()));
    assert_eq!(
        step,
        Step::Failed(ImpitError::UrlMissingHostnameError("data:text/plain,hi".to_string()))
    );
}

#[test]
fn success_is_final_under_follow() {
    let h = hop(HttpMethod::Get, "https://example.com/", None, 0);
    assert_eq!(next_step(RedirectPolicy::Follow(5), h, 200, Some("/x".to_string())), Step::Done);
}

#[test]
fn one_redirect_then_success_takes_two_exchanges() {
    let policy = RedirectPolicy::Follow(5);
    let responses: Vec<(u16, Option<String>)> =
        vec![(301, Some("https://second.example/landing".to_string())), (200, None)];
    let mut current = begin(HttpMethod::Get, "https://first.example/", None, &options(), false).unwrap();
    let mut exchanges = 0;
    let mut last_status = 0;
    let mut final_url = String::new();
    for (status, location) in responses {
        exchanges += 1;
        last_status = status;
        final_url = current.url.clone();
        match next_step(policy, current.clone(), status, location) {
            Step::Done => break,
            Step::Dispatch(next) => current = next,
            Step::Failed(e) => panic!("{:?}", e),
        }
    }
    assert_eq!(exchanges, 2);
    assert_eq!(last_status, 200);
    assert_eq!(final_url, "https://second.example/landing");
}

#[test]
fn firefox_client_follows_one_redirect() {
    let config = ImpitBuilder::default()
        .with_fingerprint(firefox_135::fingerprint())
        .with_redirect(RedirectPolicy::Follow(5))
        .build()
        .unwrap();
    let first = config.begin(HttpMethod::Get, "https://first.example/start", None, &options()).unwrap();
    assert_eq!(first, hop(HttpMethod::Get, "https://first.example/start", None, 0));
    let mut exchanges = 1;
    let second = match config.next_step(first, 301, Some("https://second.example/end".to_string())) {
        Step::Dispatch(next) => next,
        other => panic!("{:?}", other),
    };
    assert_eq!(second, hop(HttpMethod::Get, "https://second.example/end", None, 1));
    exchanges += 1;
    let final_url = second.url.clone();
    assert_eq!(config.next_step(second, 200, None), Step::Done);
    assert_eq!(exchanges, 2);
    assert_eq!(final_url, "https://second.example/end");
}

#[test]
fn begin_normalises_the_url() {
    let r = begin(HttpMethod::Post, "HTTPS://Example.COM", Some(vec![1]), &options(), false);
    assert_eq!(r, Ok(hop(HttpMethod::Post, "https://example.com/", Some(vec![1]), 0)));
}

#[test]
fn begin_rejects_what_is_no_url() {
    let r = begin(HttpMethod::Get, "not a url", None, &options(), false);
    assert_eq!(r, Err(ImpitError::UrlParsingError("not a url".to_string())));
}

#[test]
fn begin_rejects_missing_host() {
    let r = begin(HttpMethod::Get, "file:///etc/hosts", None, &options(), false);
    assert_eq!(r, Err(ImpitError::UrlMissingHostnameError("file:///etc/hosts".to_string())));
}

#[test]
fn begin_rejects_unsupported_scheme() {
    let r = begin(HttpMethod::Get, "ftp://example.com/file", None, &options(), false);
    assert_eq!(r, Err(ImpitError::UrlProtocolError("ftp".to_string())));
}

#[test]
fn forced_http3_needs_http3() {
    let opts = RequestOptions { headers: vec![], timeout: None, http3_prior_knowledge: true };
    let r = begin(HttpMethod::Get, "https://example.com/", None, &opts, false);
    assert_eq!(r, Err(ImpitError::Http3Disabled));
    let r = begin(HttpMethod::Get, "https://example.com/", None, &opts, true);
    assert_eq!(r, Ok(hop(HttpMethod::Get, "https://example.com/", None, 0)));
}

#[test]
fn body_check_comes_before_url_check() {
    let r = begin(HttpMethod::Get, "not a url", Some(vec![1]), &options(), false);
    assert_eq!(r, Err(ImpitError::BodyNotAllowed));
}

#[test]
fn method_names_in_any_case() {
    assert_eq!(HttpMethod::from_name("GET"), Ok(HttpMethod::Get));
    assert_eq!(HttpMethod::from_name("head"), Ok(HttpMethod::Head));
    assert_eq!(HttpMethod::from_name("Post"), Ok(HttpMethod::Post));
    assert_eq!(HttpMethod::from_name("pUt"), Ok(HttpMethod::Put));
    assert_eq!(HttpMethod::from_name("DELETE"), Ok(HttpMethod::Delete));
    assert_eq!(HttpMethod::from_name("patch"), Ok(HttpMethod::Patch));
    assert_eq!(HttpMethod::from_name("OPTIONS"), Ok(HttpMethod::Options));
    assert_eq!(HttpMethod::from_name("Trace"), Ok(HttpMethod::Trace));
    assert_eq!(HttpMethod::from_name("FETCH"), Err(ImpitError::InvalidMethod("FETCH".to_string())));
    assert_eq!(HttpMethod::from_lowercase(&"GET".to_string()), None);
}

#[test]
fn request_deadline_outranks_client_deadline() {
    assert_eq!(effective_timeout(Some(100), Some(5000)), Some(100));
    assert_eq!(effective_timeout(None, Some(5000)), Some(5000));
    assert_eq!(effective_timeout(None, None), None);
    assert_eq!(time_left(None, 1_000_000), Ok(None));
    assert_eq!(time_left(Some(1000), 400), Ok(Some(600)));
    assert_eq!(time_left(Some(1000), 1000), Err(ImpitError::TimeoutError));
    assert_eq!(time_left(Some(1000), 2000), Err(ImpitError::TimeoutError));
}

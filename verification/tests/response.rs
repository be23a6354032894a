use impit::errors::ImpitError;
use impit::response::{
    is_redirection, is_success, pick_encoding, raise_for_status, AbortSlot, BodySource, BodyState,
    Headers, HttpVersion, InnerResponseState, ReadDecision,
};

#[test]
fn second_stream_fails() {
    let mut body = BodyState::new(true);
    assert_eq!(body.state, InnerResponseState::Unread);
    assert_eq!(body.iter_bytes(), Ok(BodySource::Network));
    assert_eq!(body.state, InnerResponseState::Streaming);
    assert_eq!(body.iter_bytes(), Err(ImpitError::StreamAlreadyConsumed));
    assert_eq!(body.read(), Err(ImpitError::StreamAlreadyConsumed));
    assert_eq!(body.state, InnerResponseState::Streaming);
}

#[test]
fn read_body_is_kept() {
    let mut body = BodyState::new(true);
    assert_eq!(body.read(), Ok(BodySource::Network));
    assert_eq!(body, BodyState { state: InnerResponseState::Read, is_closed: true, is_stream_consumed: true });
    assert_eq!(body.read(), Ok(BodySource::Cached));
    assert_eq!(body.iter_bytes(), Ok(BodySource::Cached));
    assert_eq!(body.state, InnerResponseState::Read);
}

#[test]
fn eager_body_starts_read() {
    let mut body = BodyState::new(false);
    assert_eq!(body, BodyState { state: InnerResponseState::Read, is_closed: true, is_stream_consumed: true });
    assert_eq!(body.read(), Ok(BodySource::Cached));
    body.close();
    assert_eq!(body.state, InnerResponseState::Read);
}

#[test]
fn closed_body_cannot_be_read() {
    let mut body = BodyState::new(true);
    body.close();
    assert_eq!(
        body,
        BodyState { state: InnerResponseState::StreamingClosed, is_closed: true, is_stream_consumed: true }
    );
    assert_eq!(body.read(), Err(ImpitError::StreamAlreadyConsumed));
    assert_eq!(body.iter_bytes(), Err(ImpitError::StreamAlreadyConsumed));
    body.close();
    assert_eq!(body.state, InnerResponseState::StreamingClosed);
}

#[test]
fn abort_is_reported_on_next_read() {
    let mut slot = AbortSlot::new();
    assert_eq!(slot.poll(), ReadDecision::Poll);
    slot.abort();
    slot.abort();
    assert_eq!(slot.poll(), ReadDecision::Aborted);
    assert_eq!(slot.poll(), ReadDecision::End);
    slot.abort();
    assert_eq!(slot, AbortSlot { pending: false, finished: true });
    assert_eq!(slot.poll(), ReadDecision::End);
}

#[test]
fn abort_after_end_is_ignored() {
    let mut slot = AbortSlot::new();
    slot.finish();
    slot.abort();
    assert_eq!(slot, AbortSlot { pending: false, finished: true });
    assert_eq!(slot.poll(), ReadDecision::End);
}

#[test]
fn header_lookup_ignores_ascii_case() {
    let headers = Headers(vec![
        ("Content-Type".to_string(), "text/html".to_string()),
        ("content-type".to_string(), "second".to_string()),
        ("X-K".to_string(), "kelvin".to_string()),
    ]);
    assert_eq!(headers.get("content-type"), Some("text/html"));
    assert_eq!(headers.get("CONTENT-TYPE"), Some("text/html"));
    assert_eq!(headers.get("x-k"), Some("kelvin"));
    assert_eq!(headers.get("x-\u{212a}"), None);
    assert_eq!(headers.get("content"), None);
    assert_eq!(Headers(vec![]).get("a"), None);
}

#[test]
fn version_labels() {
    assert_eq!(HttpVersion::Http09.label(), "HTTP/0.9");
    assert_eq!(HttpVersion::Http10.label(), "HTTP/1.0");
    assert_eq!(HttpVersion::Http11.label(), "HTTP/1.1");
    assert_eq!(HttpVersion::Http2.label(), "HTTP/2");
    assert_eq!(HttpVersion::Http3.label(), "HTTP/3");
    assert_eq!(HttpVersion::Other.label(), "Unknown");
}

#[test]
fn status_ranges() {
    assert!(!is_success(199));
    assert!(is_success(200));
    assert!(is_success(299));
    assert!(!is_success(300));
    assert!(!is_redirection(299));
    assert!(is_redirection(300));
    assert!(is_redirection(399));
    assert!(!is_redirection(400));
    assert_eq!(raise_for_status(399), Ok(()));
    assert_eq!(raise_for_status(400), Err(ImpitError::HTTPStatusError(400)));
    assert_eq!(raise_for_status(503), Err(ImpitError::HTTPStatusError(503)));
}

#[test]
fn encoding_preference() {
    let s = |x: &str| Some(x.to_string());
    assert_eq!(pick_encoding(s("windows-1250"), s("utf-8"), s("koi8-r")), "windows-1250");
    assert_eq!(pick_encoding(None, s("iso-8859-2"), s("koi8-r")), "iso-8859-2");
    assert_eq!(pick_encoding(None, None, s("koi8-r")), "koi8-r");
    assert_eq!(pick_encoding(None, None, None), "utf-8");
}

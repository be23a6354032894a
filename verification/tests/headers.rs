use impit::emulation::Browser;
use impit::errors::ImpitError;
use impit::fingerprint::database::{chrome_125, firefox_128, firefox_135};
use impit::header_args::{
    form_to_bytes, process_headers, request_body, set_header, split_header, RequestBody,
};
use impit::http_headers::{
    chain_headers, drop_empty, keep_first, lowercase_names, resolve, resolve_sources, validate,
    HttpHeaders,
};

fn h(pairs: &[(&str, &str)]) -> Vec<(String, String)> {
    pairs.iter().map(|(k, v)| (k.to_string(), v.to_string())).collect()
}

#[test]
fn request_header_wins_over_client_and_fingerprint() {
    let request = h(&[("X-Token", "request")]);
    let client = h(&[("x-token", "client"), ("Accept", "client-accept")]);
    let fingerprint = h(&[("X-TOKEN", "fingerprint"), ("accept", "fp-accept"), ("te", "trailers")]);
    let out = resolve_sources(&request, &client, &fingerprint);
    assert_eq!(out, h(&[("X-Token", "request"), ("Accept", "client-accept"), ("te", "trailers")]));
}

#[test]
fn client_header_wins_over_fingerprint() {
    let out = resolve_sources(&h(&[]), &h(&[("User-Agent", "mine")]), &h(&[("user-agent", "theirs")]));
    assert_eq!(out, h(&[("User-Agent", "mine")]));
}

#[test]
fn first_of_equal_names_stays() {
    let out = resolve(&h(&[("a", "1"), ("A", "2"), ("b", "3"), ("a", "4"), ("B", "5")]));
    assert_eq!(out, h(&[("a", "1"), ("b", "3")]));
}

#[test]
fn resolve_of_nothing_is_nothing() {
    assert_eq!(resolve(&h(&[])), h(&[]));
}

#[test]
fn keys_are_lowercase_names() {
    let keys = lowercase_names(&h(&[("User-Agent", "x"), ("ACCEPT", "y"), ("te", "z")]));
    assert_eq!(keys, vec!["user-agent".to_string(), "accept".to_string(), "te".to_string()]);
}

#[test]
fn keep_first_goes_by_the_keys_alone() {
    let entries = h(&[("one", "1"), ("two", "2"), ("three", "3")]);
    let keys = vec!["k".to_string(), "k".to_string(), "other".to_string()];
    assert_eq!(keep_first(&entries, &keys), h(&[("one", "1"), ("three", "3")]));
}

#[test]
fn chain_puts_high_first() {
    assert_eq!(chain_headers(&h(&[("a", "1")]), &h(&[("b", "2")])), h(&[("a", "1"), ("b", "2")]));
}

#[test]
fn drop_empty_removes_empty_values() {
    assert_eq!(drop_empty(&h(&[("a", ""), ("b", "2"), ("c", "")])), h(&[("b", "2")]));
}

#[test]
fn empty_override_suppresses_fingerprint_header() {
    let mut builder = HttpHeaders::get_builder();
    builder
        .with_fingerprint(&Some(firefox_135::fingerprint()))
        .with_custom_headers(Some(h(&[("User-Agent", "")])));
    let headers = builder.build();
    let listed = headers.iter();
    assert_eq!(listed[0], ("User-Agent".to_string(), String::new()));
    let sent = headers.to_wire().unwrap();
    assert!(sent.iter().all(|(k, _)| k.to_lowercase() != "user-agent"));
    assert_eq!(sent.len(), firefox_135::headers().len() - 1);
    assert_eq!(sent[0], ("accept".to_string(), "text/html,application/xhtml+xml,application/xml;q=0.9,*/*;q=0.8".to_string()));
}

#[test]
fn later_custom_headers_outrank_earlier_ones() {
    let mut builder = HttpHeaders::get_builder();
    builder.with_custom_headers(Some(h(&[("a", "client"), ("b", "client")])));
    builder.with_custom_headers(None);
    builder.with_custom_headers(Some(h(&[("A", "request")])));
    assert_eq!(builder.build().iter(), h(&[("A", "request"), ("b", "client")]));
}

#[test]
fn browser_headers_come_from_the_database() {
    let mut builder = HttpHeaders::get_builder();
    builder.with_browser(&Some(Browser::Chrome)).with_https(true).with_host(&"example.com".to_string());
    assert_eq!(builder.build().iter(), chrome_125::headers());
    let mut builder = HttpHeaders::get_builder();
    builder.with_browser(&Some(Browser::Firefox));
    assert_eq!(builder.build().iter(), firefox_128::headers());
}

#[test]
fn fingerprint_outranks_browser() {
    let mut builder = HttpHeaders::get_builder();
    builder.with_browser(&Some(Browser::Chrome)).with_fingerprint(&Some(firefox_135::fingerprint()));
    assert_eq!(builder.build().iter(), firefox_135::headers());
}

#[test]
fn no_source_gives_no_headers() {
    assert_eq!(HttpHeaders::get_builder().build().iter(), h(&[]));
    assert_eq!(HttpHeaders::from_list(h(&[("a", "1")])).iter(), h(&[("a", "1")]));
}

#[test]
fn invalid_header_name_is_reported() {
    let r = validate(&h(&[("ok", "fine"), ("bad name", "x"), ("worse\n", "y")]));
    assert_eq!(r, Err(ImpitError::InvalidHeaderName("bad name".to_string())));
    assert_eq!(validate(&h(&[("", "x")])), Err(ImpitError::InvalidHeaderName(String::new())));
}

#[test]
fn invalid_header_value_is_reported() {
    let r = validate(&h(&[("ok", "fine"), ("x-a", "line\nbreak"), ("bad name", "y")]));
    assert_eq!(r, Err(ImpitError::InvalidHeaderValue("line\nbreak".to_string())));
    assert_eq!(validate(&h(&[("x", "del\u{7f}")])), Err(ImpitError::InvalidHeaderValue("del\u{7f}".to_string())));
}

#[test]
fn valid_headers_pass() {
    assert_eq!(validate(&h(&[("Accept", "*/*"), ("x-tab", "a\tb"), ("x-utf", "caf\u{e9}")])), Ok(()));
    assert_eq!(validate(&h(&[])), Ok(()));
}

#[test]
fn name_error_comes_before_value_error_of_one_header() {
    let r = validate(&h(&[("bad name", "bad\nvalue")]));
    assert_eq!(r, Err(ImpitError::InvalidHeaderName("bad name".to_string())));
}

#[test]
fn to_wire_reports_invalid_custom_header() {
    let headers = HttpHeaders::from_list(h(&[("x y", "1")]));
    assert_eq!(headers.to_wire(), Err(ImpitError::InvalidHeaderName("x y".to_string())));
}

#[test]
fn header_arguments_are_split_and_trimmed() {
    let out = process_headers(vec![
        "Accept: text/html".to_string(),
        "  X-Padded  :   value with spaces  ".to_string(),
        "NoColon".to_string(),
        "Host: example.com:8080".to_string(),
        ":".to_string(),
        "".to_string(),
    ]);
    assert_eq!(
        out,
        h(&[("Accept", "text/html"), ("X-Padded", "value with spaces"), ("", ""), ("", ""), ("", ""), ("", "")])
    );
}

#[test]
fn split_header_needs_exactly_one_colon() {
    assert_eq!(split_header("a:b"), Some(("a".to_string(), "b".to_string())));
    assert_eq!(split_header(" a : b "), Some((" a ".to_string(), " b ".to_string())));
    assert_eq!(split_header("\u{e9}t\u{e9}:\u{fc}"), Some(("\u{e9}t\u{e9}".to_string(), "\u{fc}".to_string())));
    assert_eq!(split_header(":"), Some((String::new(), String::new())));
    assert_eq!(split_header("a:b:c"), None);
    assert_eq!(split_header("abc"), None);
    assert_eq!(split_header(""), None);
}

#[test]
fn form_body_is_written_field_by_field() {
    assert_eq!(form_to_bytes(h(&[("a", "1"), ("b", "two")])), b"a=1&b=two&".to_vec());
    assert_eq!(form_to_bytes(h(&[])), Vec::<u8>::new());
    assert_eq!(form_to_bytes(h(&[("k", "a b&c")])), b"k=a b&c&".to_vec());
    assert_eq!(form_to_bytes(h(&[("\u{e9}", "")])), vec![0xc3, 0xa9, b'=', b'&']);
}

#[test]
fn trimming_goes_by_unicode_white_space() {
    let out = process_headers(vec![
        "\t\n\u{b}\u{c}\r a \u{85}\u{a0}:\u{1680}\u{2000}\u{200a}\u{2028}\u{2029}\u{202f}\u{205f}\u{3000}b c\u{3000}".to_string(),
        "\u{200b}a:b\u{feff}".to_string(),
        "   :   ".to_string(),
        " a\u{a0}b : c ".to_string(),
    ]);
    assert_eq!(
        out,
        h(&[("a", "b c"), ("\u{200b}a", "b\u{feff}"), ("", ""), ("a\u{a0}b", "c")])
    );
}

#[test]
fn header_name_bytes() {
    for ok in ["a", "A", "Content-Type", "x!#$%&'*+-.^_`|~09", "Zz"] {
        assert_eq!(validate(&h(&[(ok, "v")])), Ok(()), "{}", ok);
    }
    for bad in ["", "a b", "a\"b", "a(b", "a,b", "a/b", "a:b", "a;b", "a<b", "a=b", "a@b", "a[b", "a\\b", "a]b", "a{b", "a}b", "a\u{7f}", "caf\u{e9}", "a\0"] {
        assert_eq!(
            validate(&h(&[(bad, "v")])),
            Err(ImpitError::InvalidHeaderName(bad.to_string())),
            "{:?}",
            bad
        );
    }
    let longest = "a".repeat(65535);
    assert_eq!(validate(&vec![(longest, String::new())]), Ok(()));
    let too_long = "a".repeat(65536);
    assert_eq!(
        validate(&vec![(too_long.clone(), String::new())]),
        Err(ImpitError::InvalidHeaderName(too_long))
    );
    let long_bad = format!("{}(", "a".repeat(70));
    assert_eq!(
        validate(&vec![(long_bad.clone(), String::new())]),
        Err(ImpitError::InvalidHeaderName(long_bad))
    );
}

#[test]
fn header_value_bytes() {
    for ok in ["", " ", "\t", "~", "\u{80}", "\u{ff}"] {
        assert_eq!(validate(&h(&[("a", ok)])), Ok(()), "{:?}", ok);
    }
    for bad in ["\0", "\u{1f}", "\u{7f}", "a\rb"] {
        assert_eq!(validate(&h(&[("a", bad)])), Err(ImpitError::InvalidHeaderValue(bad.to_string())));
    }
}

#[test]
fn set_header_replaces_the_first_of_that_name() {
    assert_eq!(set_header(h(&[]), "a", "1"), h(&[("a", "1")]));
    assert_eq!(set_header(h(&[("b", "2")]), "a", "1"), h(&[("b", "2"), ("a", "1")]));
    assert_eq!(
        set_header(h(&[("b", "2"), ("a", "0"), ("a", "9")]), "a", "1"),
        h(&[("b", "2"), ("a", "1"), ("a", "9")])
    );
    assert_eq!(set_header(h(&[("A", "0")]), "a", "1"), h(&[("A", "0"), ("a", "1")]));
}

#[test]
fn body_is_chosen_from_content_and_data() {
    let form = || RequestBody::Form(h(&[("a", "1"), ("b", "2")]));
    assert_eq!(request_body(None, None, None), Ok((vec![], h(&[]))));
    assert_eq!(
        request_body(None, None, Some(h(&[("x", "y")]))),
        Ok((vec![], h(&[("x", "y")])))
    );
    assert_eq!(
        request_body(Some(vec![1, 2]), Some(form()), Some(h(&[("x", "y")]))),
        Ok((vec![1, 2], h(&[("x", "y")])))
    );
    assert_eq!(
        request_body(Some(vec![1]), Some(RequestBody::CatchAll("12".to_string())), None),
        Ok((vec![1], h(&[])))
    );
    assert_eq!(
        request_body(None, Some(RequestBody::Bytes(vec![7])), None),
        Ok((vec![7], h(&[])))
    );
    assert_eq!(
        request_body(None, Some(form()), None),
        Ok((b"a=1&b=2&".to_vec(), h(&[("Content-Type", "application/x-www-form-urlencoded")])))
    );
    assert_eq!(
        request_body(None, Some(form()), Some(h(&[("x", "y"), ("Content-Type", "text/plain")]))),
        Ok((
            b"a=1&b=2&".to_vec(),
            h(&[("x", "y"), ("Content-Type", "application/x-www-form-urlencoded")])
        ))
    );
    assert_eq!(
        request_body(None, Some(RequestBody::CatchAll("12".to_string())), Some(h(&[("x", "y")]))),
        Err(ImpitError::UnsupportedBody("12".to_string()))
    );
}

fn white_space(c: char) -> bool {
    matches!(
        c as u32,
        0x09..=0x0d | 0x20 | 0x85 | 0xa0 | 0x1680 | 0x2000..=0x200a | 0x2028 | 0x2029 | 0x202f | 0x205f | 0x3000
    )
}

#[test]
fn white_space_is_the_same_for_every_character() {
    let chars: Vec<char> = (0u32..=0x10ffff).filter_map(char::from_u32).filter(|c| *c != ':').collect();
    let arguments: Vec<String> = chars.iter().map(|c| format!("{}a{}:{}b{}", c, c, c, c)).collect();
    let out = process_headers(arguments);
    assert_eq!(out.len(), chars.len());
    for (c, (name, value)) in chars.iter().zip(out.iter()) {
        if white_space(*c) {
            assert_eq!((name.as_str(), value.as_str()), ("a", "b"), "{:x}", *c as u32);
        } else {
            assert_eq!(*name, format!("{}a{}", c, c), "{:x}", *c as u32);
            assert_eq!(*value, format!("{}b{}", c, c), "{:x}", *c as u32);
        }
    }
}

#[test]
fn header_bytes_are_the_same_for_every_byte() {
    for n in 0u32..=0xff {
        let c = char::from_u32(n).unwrap();
        let text = c.to_string();
        let name_ok = n < 0x80
            && (c.is_ascii_alphanumeric() || "!#$%&'*+-.^_`|~".contains(c));
        let value_ok = (n >= 32 && n != 127) || n == 9;
        let expected = if !name_ok {
            Err(ImpitError::InvalidHeaderName(text.clone()))
        } else {
            Ok(())
        };
        assert_eq!(validate(&vec![(text.clone(), String::new())]), expected, "{:x}", n);
        let expected = if !value_ok {
            Err(ImpitError::InvalidHeaderValue(text.clone()))
        } else {
            Ok(())
        };
        assert_eq!(validate(&vec![("a".to_string(), text.clone())]), expected, "{:x}", n);
    }
}

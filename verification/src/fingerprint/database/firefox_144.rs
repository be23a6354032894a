//! The Firefox 144 fingerprint.

use crate::fingerprint::BrowserFingerprint;
use crate::fingerprint::BrowserFingerprintView;
use crate::fingerprint::database::firefox_135;
use vstd::prelude::*;

verus! {

/// The headers that Firefox 144 sends with a navigation request, in order.
pub open spec fn headers_model() -> Seq<(Seq<char>, Seq<char>)> {
    seq![
        ("user-agent"@, "Mozilla/5.0 (Macintosh; Intel Mac OS X 10.15; rv:144.0) Gecko/20100101 Firefox/144.0"@),
        ("accept"@, "text/html,application/xhtml+xml,application/xml;q=0.9,*/*;q=0.8"@),
        ("accept-language"@, "en-US,en;q=0.5"@),
        ("accept-encoding"@, "gzip, deflate, br, zstd"@),
        ("upgrade-insecure-requests"@, "1"@),
        ("sec-fetch-dest"@, "document"@),
        ("sec-fetch-mode"@, "navigate"@),
        ("sec-fetch-site"@, "none"@),
        ("sec-fetch-user"@, "?1"@),
        ("priority"@, "u=0, i"@),
        ("te"@, "trailers"@),
    ]
}

/// Builds the default headers of Firefox 144.
pub fn headers() -> (r: Vec<(String, String)>)
    ensures
        r.deep_view() == headers_model(),
{
    let list = vec![
        ("user-agent".to_owned(), "Mozilla/5.0 (Macintosh; Intel Mac OS X 10.15; rv:144.0) Gecko/20100101 Firefox/144.0".to_owned()),
        ("accept".to_owned(), "text/html,application/xhtml+xml,application/xml;q=0.9,*/*;q=0.8".to_owned()),
        ("accept-language".to_owned(), "en-US,en;q=0.5".to_owned()),
        ("accept-encoding".to_owned(), "gzip, deflate, br, zstd".to_owned()),
        ("upgrade-insecure-requests".to_owned(), "1".to_owned()),
        ("sec-fetch-dest".to_owned(), "document".to_owned()),
        ("sec-fetch-mode".to_owned(), "navigate".to_owned()),
        ("sec-fetch-site".to_owned(), "none".to_owned()),
        ("sec-fetch-user".to_owned(), "?1".to_owned()),
        ("priority".to_owned(), "u=0, i".to_owned()),
        ("te".to_owned(), "trailers".to_owned()),
    ];
    proof {
        assert(list.deep_view() =~= headers_model());
    }
    list
}

/// The complete Firefox 144 fingerprint as a value.
pub open spec fn model() -> BrowserFingerprintView {
    BrowserFingerprintView {
        name: "Firefox"@,
        version: "144"@,
        tls: firefox_135::tls_model(),
        http2: firefox_135::http2_model(),
        headers: headers_model(),
    }
}

/// Returns the complete Firefox 144 fingerprint. Every call builds the same
/// value, and the caller owns it.
pub fn fingerprint() -> (r: BrowserFingerprint)
    ensures
        r@ == model(),
{
    BrowserFingerprint::new("Firefox", "144", firefox_135::tls_fingerprint(), firefox_135::http2_fingerprint(), headers())
}

} // verus!

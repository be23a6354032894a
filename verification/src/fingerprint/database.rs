//! Pre-defined browser fingerprints.
//!
//! Each browser version has a module of its own that holds the fingerprint
//! as a mathematical value and a function that builds it.

pub mod chrome_100;
pub mod chrome_124;
pub mod chrome_125;
pub mod chrome_131;
pub mod chrome_133;
pub mod chrome_136;
pub mod chrome_142;
pub mod firefox_128;
pub mod firefox_133;
pub mod firefox_135;
pub mod firefox_144;

use crate::emulation::Browser;
use crate::fingerprint::BrowserFingerprint;
use crate::fingerprint::extensions_consistent;
use crate::fingerprint::BrowserFingerprintView;
use crate::text::text_is;
use vstd::prelude::*;

verus! {

/// The database entry that stands for a browser when no version is asked
/// for.
pub open spec fn fingerprint_model(browser: Browser) -> BrowserFingerprintView {
    match browser {
        Browser::Chrome => chrome_125::model(),
        Browser::Firefox => firefox_128::model(),
    }
}

/// Returns a fingerprint for the specified browser.
///
/// The result is a fresh value that depends on the argument alone: two
/// lookups of one browser give equal fingerprints.
pub fn get_fingerprint(browser: Browser) -> (r: BrowserFingerprint)
    ensures
        r@ == fingerprint_model(browser),
{
    match browser {
        Browser::Chrome => chrome_125::fingerprint(),
        Browser::Firefox => firefox_128::fingerprint(),
    }
}

/// The catalogue: the entry of a browser name and version, and `None` for
/// a pair that the database does not hold.
pub open spec fn catalogue(name: Seq<char>, version: Seq<char>) -> Option<BrowserFingerprintView> {
    if name == "Chrome"@ {
        if version == "100"@ {
            Some(chrome_100::model())
        } else if version == "124"@ {
            Some(chrome_124::model())
        } else if version == "125"@ {
            Some(chrome_125::model())
        } else if version == "131"@ {
            Some(chrome_131::model())
        } else if version == "133"@ {
            Some(chrome_133::model())
        } else if version == "136"@ {
            Some(chrome_136::model())
        } else if version == "142"@ {
            Some(chrome_142::model())
        } else {
            None
        }
    } else if name == "Firefox"@ {
        if version == "128"@ {
            Some(firefox_128::model())
        } else if version == "133"@ {
            Some(firefox_133::model())
        } else if version == "135"@ {
            Some(firefox_135::model())
        } else if version == "144"@ {
            Some(firefox_144::model())
        } else {
            None
        }
    } else {
        None
    }
}

/// Looks a fingerprint up by browser name and version. A pair that the
/// database does not hold gives `None`.
pub fn lookup(name: &String, version: &String) -> (r: Option<BrowserFingerprint>)
    ensures
        match r {
            Some(fp) => catalogue(name@, version@) == Some(fp@),
            None => catalogue(name@, version@).is_none(),
        },
{
    if text_is(name, "Chrome") {
        if text_is(version, "100") {
            Some(chrome_100::fingerprint())
        } else if text_is(version, "124") {
            Some(chrome_124::fingerprint())
        } else if text_is(version, "125") {
            Some(chrome_125::fingerprint())
        } else if text_is(version, "131") {
            Some(chrome_131::fingerprint())
        } else if text_is(version, "133") {
            Some(chrome_133::fingerprint())
        } else if text_is(version, "136") {
            Some(chrome_136::fingerprint())
        } else if text_is(version, "142") {
            Some(chrome_142::fingerprint())
        } else {
            None
        }
    } else if text_is(name, "Firefox") {
        if text_is(version, "128") {
            Some(firefox_128::fingerprint())
        } else if text_is(version, "133") {
            Some(firefox_133::fingerprint())
        } else if text_is(version, "135") {
            Some(firefox_135::fingerprint())
        } else if text_is(version, "144") {
            Some(firefox_144::fingerprint())
        } else {
            None
        }
    } else {
        None
    }
}

/// In every entry of the database the extension flags agree with the send
/// order: no extension that is listed is switched off.
pub proof fn lemma_entries_consistent()
    ensures
        extensions_consistent(chrome_100::tls_model().extensions),
        extensions_consistent(chrome_124::tls_model().extensions),
        extensions_consistent(chrome_125::tls_model().extensions),
        extensions_consistent(chrome_131::tls_model().extensions),
        extensions_consistent(chrome_133::tls_model().extensions),
        extensions_consistent(chrome_136::tls_model().extensions),
        extensions_consistent(chrome_142::tls_model().extensions),
        extensions_consistent(firefox_128::tls_model().extensions),
        extensions_consistent(firefox_133::tls_model().extensions),
        extensions_consistent(firefox_135::tls_model().extensions),
{
}

/// The ALPN token of HTTP/2, `h2`.
pub open spec fn alpn_h2() -> Seq<u8> {
    seq![0x68u8, 0x32u8]
}

/// The ALPN token of HTTP/1.1, `http/1.1`.
pub open spec fn alpn_http11() -> Seq<u8> {
    seq![0x68u8, 0x74u8, 0x74u8, 0x70u8, 0x2fu8, 0x31u8, 0x2eu8, 0x31u8]
}

/// The ALPN protocols that every browser in the database offers: HTTP/2
/// first, then HTTP/1.1.
pub fn alpn_list() -> (r: Vec<Vec<u8>>)
    ensures
        r.deep_view() == seq![alpn_h2(), alpn_http11()],
{
    let h2: Vec<u8> = vec![0x68u8, 0x32u8];
    let http11: Vec<u8> = vec![0x68u8, 0x74u8, 0x74u8, 0x70u8, 0x2fu8, 0x31u8, 0x2eu8, 0x31u8];
    let list = vec![h2, http11];
    proof {
        assert(list[0]@ =~= alpn_h2());
        assert(list[1]@ =~= alpn_http11());
        assert(list[0].deep_view() =~= alpn_h2());
        assert(list[1].deep_view() =~= alpn_http11());
        assert(list.deep_view() =~= seq![alpn_h2(), alpn_http11()]);
    }
    list
}

} // verus!

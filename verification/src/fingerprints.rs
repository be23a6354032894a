//! Fingerprints as tables of wire values: the code points of a ClientHello
//! and the settings of an HTTP/2 preface, as they are seen in a capture.

use vstd::prelude::*;

verus! {

/// The HTTP/2 connection preface of a browser.
#[derive(Debug, Clone, Default, PartialEq, Eq)]
pub struct H2Fingerprint {
    pub window_size: u32,
    pub max_frame_size: u32,
    pub initial_conn_window_size: u32,
    /// Identifier and value of each setting, in the order of the frame.
    pub settings: Vec<(u16, u32)>,
    pub pseudo_headers_order: Vec<String>,
}

/// The code points of a ClientHello.
#[derive(Debug, Clone, Default, PartialEq, Eq)]
pub struct TlsFingerprint {
    pub ciphers: Vec<u16>,
    pub extensions: Vec<u16>,
    pub groups: Vec<u16>,
    pub sig_algs: Vec<u16>,
}

/// Headers, ClientHello and HTTP/2 preface of one browser.
#[derive(Debug, Clone, Default, PartialEq, Eq)]
pub struct Fingerprint {
    pub headers: Vec<(String, String)>,
    pub tls_fingerprint: TlsFingerprint,
    pub h2_fingerprint: H2Fingerprint,
}

/// The cipher suites of Chrome 136.
pub open spec fn chrome_136_ciphers() -> Seq<u16> {
    seq![
        0x1301u16, 0x1302u16, 0x1303u16, 0xcca9u16, 0xcca8u16, 0xcca7u16, 0xc02bu16, 0xc02fu16,
        0xc02cu16, 0xc030u16, 0x009eu16, 0x009du16, 0x002fu16, 0x0035u16, 0x000au16,
    ]
}

/// The extensions of Chrome 136.
pub open spec fn chrome_136_extensions() -> Seq<u16> {
    seq![
        0x0000u16, 0x000bu16, 0x000au16, 0x0015u16, 0x0017u16, 0x0023u16, 0x002bu16, 0x0033u16,
        0x000du16, 0x001cu16, 0x002du16, 0x0005u16, 0x0010u16,
    ]
}

/// The groups of Chrome 136.
pub open spec fn chrome_136_groups() -> Seq<u16> {
    seq![0x001du16, 0x0017u16, 0x001eu16, 0x0100u16]
}

/// The signature algorithms of Chrome 136.
pub open spec fn chrome_136_sig_algs() -> Seq<u16> {
    seq![
        0x0403u16, 0x0503u16, 0x0603u16, 0x0804u16, 0x0805u16, 0x0806u16, 0x0201u16, 0x0401u16,
        0x0501u16, 0x0601u16,
    ]
}

/// The HTTP/2 settings of Chrome 136: header table size, push, concurrent
/// streams, initial window, frame size and header list size.
pub open spec fn chrome_136_settings() -> Seq<(u16, u32)> {
    seq![
        (0x1u16, 0x100u32),
        (0x2u16, 0u32),
        (0x3u16, 0x4000u32),
        (0x4u16, 0x10000u32),
        (0x5u16, 0u32),
        (0x6u16, 0xffffu32),
    ]
}

/// The pseudo-header order of Chrome 136.
pub open spec fn chrome_136_pseudo_headers() -> Seq<Seq<char>> {
    seq![":method"@, ":authority"@, ":scheme"@, ":path"@, ":protocol"@, ":status"@]
}

/// The headers of Chrome 136.
pub open spec fn chrome_136_headers() -> Seq<(Seq<char>, Seq<char>)> {
    seq![
        ("sec-ch-ua"@, "\"Chromium\";v=\"136\", \"Google Chrome\";v=\"136\", \"Not.A/Brand\";v=\"99\""@),
        ("sec-ch-ua-mobile"@, "?0"@),
        ("sec-ch-ua-platform"@, "\"macOS\""@),
        ("Upgrade-Insecure-Requests"@, "1"@),
        ("User-Agent"@, "Mozilla/5.0 (Macintosh; Intel Mac OS X 10_15_7) AppleWebKit/537.36 (KHTML, like Gecko) Chrome/136.0.0.0 Safari/537.36"@),
        ("Accept"@, "text/html,application/xhtml+xml,application/xml;q=0.9,image/avif,image/webp,image/apng,*/*;q=0.8,application/signed-exchange;v=b3;q=0.7"@),
        ("Sec-Fetch-Site"@, "none"@),
        ("Sec-Fetch-Mode"@, "navigate"@),
        ("Sec-Fetch-User"@, "?1"@),
        ("Sec-Fetch-Dest"@, "document"@),
        ("Accept-Encoding"@, "gzip, deflate, br, zstd"@),
        ("Accept-Language"@, "en-US,en;q=0.9"@),
        ("Priority"@, "u=0, i"@),
    ]
}

/// The table of Chrome 136. Every call gives the same value.
pub fn chrome_136_fingerprint() -> (r: Fingerprint)
    ensures
        r.headers.deep_view() == chrome_136_headers(),
        r.tls_fingerprint.ciphers@ == chrome_136_ciphers(),
        r.tls_fingerprint.extensions@ == chrome_136_extensions(),
        r.tls_fingerprint.groups@ == chrome_136_groups(),
        r.tls_fingerprint.sig_algs@ == chrome_136_sig_algs(),
        r.h2_fingerprint.window_size == 6291456,
        r.h2_fingerprint.max_frame_size == 16384,
        r.h2_fingerprint.initial_conn_window_size == 15728640,
        r.h2_fingerprint.settings@ == chrome_136_settings(),
        r.h2_fingerprint.pseudo_headers_order.deep_view() == chrome_136_pseudo_headers(),
{
    let headers = vec![
        ("sec-ch-ua".to_owned(), "\"Chromium\";v=\"136\", \"Google Chrome\";v=\"136\", \"Not.A/Brand\";v=\"99\"".to_owned()),
        ("sec-ch-ua-mobile".to_owned(), "?0".to_owned()),
        ("sec-ch-ua-platform".to_owned(), "\"macOS\"".to_owned()),
        ("Upgrade-Insecure-Requests".to_owned(), "1".to_owned()),
        ("User-Agent".to_owned(), "Mozilla/5.0 (Macintosh; Intel Mac OS X 10_15_7) AppleWebKit/537.36 (KHTML, like Gecko) Chrome/136.0.0.0 Safari/537.36".to_owned()),
        ("Accept".to_owned(), "text/html,application/xhtml+xml,application/xml;q=0.9,image/avif,image/webp,image/apng,*/*;q=0.8,application/signed-exchange;v=b3;q=0.7".to_owned()),
        ("Sec-Fetch-Site".to_owned(), "none".to_owned()),
        ("Sec-Fetch-Mode".to_owned(), "navigate".to_owned()),
        ("Sec-Fetch-User".to_owned(), "?1".to_owned()),
        ("Sec-Fetch-Dest".to_owned(), "document".to_owned()),
        ("Accept-Encoding".to_owned(), "gzip, deflate, br, zstd".to_owned()),
        ("Accept-Language".to_owned(), "en-US,en;q=0.9".to_owned()),
        ("Priority".to_owned(), "u=0, i".to_owned()),
    ];
    let ciphers: Vec<u16> = vec![
        0x1301u16, 0x1302u16, 0x1303u16, 0xcca9u16, 0xcca8u16, 0xcca7u16, 0xc02bu16, 0xc02fu16,
        0xc02cu16, 0xc030u16, 0x009eu16, 0x009du16, 0x002fu16, 0x0035u16, 0x000au16,
    ];
    let extensions: Vec<u16> = vec![
        0x0000u16, 0x000bu16, 0x000au16, 0x0015u16, 0x0017u16, 0x0023u16, 0x002bu16, 0x0033u16,
        0x000du16, 0x001cu16, 0x002du16, 0x0005u16, 0x0010u16,
    ];
    let groups: Vec<u16> = vec![0x001du16, 0x0017u16, 0x001eu16, 0x0100u16];
    let sig_algs: Vec<u16> = vec![
        0x0403u16, 0x0503u16, 0x0603u16, 0x0804u16, 0x0805u16, 0x0806u16, 0x0201u16, 0x0401u16,
        0x0501u16, 0x0601u16,
    ];
    let settings: Vec<(u16, u32)> = vec![
        (0x1u16, 0x100u32),
        (0x2u16, 0u32),
        (0x3u16, 0x4000u32),
        (0x4u16, 0x10000u32),
        (0x5u16, 0u32),
        (0x6u16, 0xffffu32),
    ];
    let pseudo_headers_order = vec![
        ":method".to_owned(),
        ":authority".to_owned(),
        ":scheme".to_owned(),
        ":path".to_owned(),
        ":protocol".to_owned(),
        ":status".to_owned(),
    ];
    proof {
        assert(headers.deep_view() =~= chrome_136_headers());
        assert(ciphers@ =~= chrome_136_ciphers());
        assert(extensions@ =~= chrome_136_extensions());
        assert(groups@ =~= chrome_136_groups());
        assert(sig_algs@ =~= chrome_136_sig_algs());
        assert(settings@ =~= chrome_136_settings());
        assert(pseudo_headers_order.deep_view() =~= chrome_136_pseudo_headers());
    }
    Fingerprint {
        headers,
        tls_fingerprint: TlsFingerprint { ciphers, extensions, groups, sig_algs },
        h2_fingerprint: H2Fingerprint {
            window_size: 6291456,
            max_frame_size: 16384,
            initial_conn_window_size: 15728640,
            settings,
            pseudo_headers_order,
        },
    }
}

} // verus!

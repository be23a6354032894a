//! The cookie store as the request pipeline sees it: a capability with two
//! operations.

use crate::client::CookieHandling;
use crate::http_headers::header_value_accepted;
use crate::http_headers::is_header_value;
use crate::http_headers::lowercase_names;
use crate::http_headers::name_keys;
use crate::http_headers::HeaderSeq;
use crate::text::text_is;
use vstd::prelude::*;

verus! {

/// A place that keeps cookies by URL. The pipeline asks it before an
/// exchange and tells it after a response; how the store answers is its own
/// business.
pub trait CookieStore {
    /// The `Cookie` header for a request to `url`, if there is anything to
    /// send.
    fn cookies(&self, url: &str) -> Option<String>;

    /// Takes in the `Set-Cookie` headers of a response from `url`.
    fn set_cookies(&mut self, cookie_headers: &Vec<String>, url: &str);
}

/// The store of a client whose caller keeps the cookies: it holds nothing
/// and forgets what it is told.
#[derive(Clone, Copy, Debug, PartialEq, Eq, Structural)]
pub struct NoCookies;

impl CookieStore for NoCookies {
    fn cookies(&self, url: &str) -> (r: Option<String>)
        ensures
            r.is_none(),
    {
        None
    }

    fn set_cookies(&mut self, cookie_headers: &Vec<String>, url: &str)
        ensures
            *final(self) == *old(self),
    {
    }
}

/// What of a store's answer is sent: the answer itself where it is not
/// empty and can stand in a header, and nothing otherwise.
pub open spec fn usable_cookie(answer: Option<Seq<char>>) -> Option<Seq<char>> {
    match answer {
        Some(text) => if text.len() > 0 && header_value_accepted(text) {
            Some(text)
        } else {
            None
        },
        None => None,
    }
}

/// Decides what of a store's answer is sent as the `Cookie` header.
pub fn cookie_header(answer: Option<String>) -> (r: Option<String>)
    ensures
        r.deep_view() == usable_cookie(answer.deep_view()),
{
    match answer {
        Some(text) => {
            if text.as_str().is_empty() {
                None
            } else if is_header_value(text.as_str()) {
                Some(text)
            } else {
                None
            }
        },
        None => None,
    }
}

/// The headers of a request with the cookies of the store: they are added
/// as the last header, under the name `cookie`, unless there are none or
/// the request names such a header itself, in any case of the letters.
pub open spec fn with_cookie(headers: HeaderSeq, cookie: Option<Seq<char>>) -> HeaderSeq {
    match cookie {
        Some(value) => if name_keys(headers).contains("cookie"@) {
            headers
        } else {
            headers.push(("cookie"@, value))
        },
        None => headers,
    }
}

/// Adds the cookies of the store to the headers of a request.
pub fn attach_cookie(headers: Vec<(String, String)>, cookie: Option<String>) -> (r: Vec<
    (String, String),
>)
    ensures
        r.deep_view() == with_cookie(headers.deep_view(), cookie.deep_view()),
{
    match cookie {
        None => headers,
        Some(value) => {
            let keys = lowercase_names(&headers);
            let mut i: usize = 0;
            while i < keys.len()
                invariant
                    i <= keys.len(),
                    keys.deep_view() == name_keys(headers.deep_view()),
                    forall|j: int| 0 <= j < i ==> keys.deep_view()[j] != "cookie"@,
                decreases keys.len() - i,
            {
                if text_is(&keys[i], "cookie") {
                    assert(keys.deep_view()[i as int] == "cookie"@);
                    return headers;
                }
                i += 1;
            }
            let mut out = headers;
            let ghost before = out.deep_view();
            out.push(("cookie".to_owned(), value));
            assert(out.deep_view() =~= before.push(("cookie"@, value@)));
            out
        },
    }
}

/// Whether a store may give `answer` when it is asked for the cookies of
/// `url`: whether the contract of its `cookies` admits that answer.
pub open spec fn may_answer<S: CookieStore>(store: &S, url: &str, answer: Option<String>) -> bool {
    call_ensures(S::cookies, (store, url), answer)
}

/// Whether `cookie` is what is sent of an answer that the store may give
/// for the URL with the given text.
pub open spec fn cookie_from<S: CookieStore>(store: &S, url: Seq<char>, cookie: Option<Seq<char>>) -> bool {
    exists|answer: Option<String>, asked: &str|
        asked@ == url && #[trigger] may_answer(store, asked, answer) && cookie == usable_cookie(
            answer.deep_view(),
        )
}

/// Asks the store of a client for the `Cookie` header of a request. Where
/// the client keeps the cookies, the store is asked for this URL, and the
/// result is what of its answer can be sent. A store is never asked where
/// the caller keeps the cookies.
pub fn cookies_for<S: CookieStore>(handling: CookieHandling, store: &S, url: &str) -> (r: Option<
    String,
>)
    ensures
        handling == CookieHandling::Delegated ==> r.is_none(),
        handling == CookieHandling::Store ==> exists|answer: Option<String>|
            #[trigger] may_answer(store, url, answer) && r.deep_view() == usable_cookie(
                answer.deep_view(),
            ),
{
    match handling {
        CookieHandling::Delegated => None,
        CookieHandling::Store => {
            let answer = store.cookies(url);
            let ghost given = answer;
            let r = cookie_header(answer);
            assert(may_answer(store, url, given));
            r
        },
    }
}

/// Hands the `Set-Cookie` headers of a response to the store of a client.
/// The store is left as it is where the caller keeps the cookies and where
/// the response set none; otherwise the store takes the headers in, for
/// this URL.
pub fn commit_cookies<S: CookieStore>(
    handling: CookieHandling,
    store: &mut S,
    set_cookie: &Vec<String>,
    url: &str,
)
    ensures
        handling == CookieHandling::Delegated || set_cookie.len() == 0 ==> *final(store) == *old(
            store,
        ),
        handling == CookieHandling::Store && set_cookie.len() > 0 ==> exists|handle: &mut S|
            *handle == *old(store) && *final(handle) == *final(store) && #[trigger] call_ensures(
                S::set_cookies,
                (handle, set_cookie, url),
                (),
            ),
{
    match handling {
        CookieHandling::Store => {
            if set_cookie.len() > 0 {
                store.set_cookies(set_cookie, url);
            }
        },
        CookieHandling::Delegated => {},
    }
}

} // verus!

//! URLs as the request pipeline sees them.
//!
//! Parsing and joining are done by the `url` crate that `reqwest` exports.
//! The pipeline reads three things of a parsed URL: its serialisation, its
//! scheme and its host.

use crate::errors::ErrorView;
use crate::errors::ImpitError;
use crate::text::text_is;
use reqwest::Url;
use vstd::prelude::*;

verus! {

/// A parsed URL.
#[derive(Clone, Debug, PartialEq, Eq)]
pub struct Target {
    /// The URL in its normal form.
    pub href: String,
    /// The scheme, in lowercase and without the colon.
    pub scheme: String,
    /// The host, where the URL has one.
    pub host: Option<String>,
}

/// Model of a [`Target`].
pub struct TargetView {
    pub href: Seq<char>,
    pub scheme: Seq<char>,
    pub host: Option<Seq<char>>,
}

impl View for Target {
    type V = TargetView;

    open spec fn view(&self) -> TargetView {
        TargetView {
            href: self.href@,
            scheme: self.scheme@,
            host: match self.host {
                Some(h) => Some(h@),
                None => None,
            },
        }
    }
}

/// Model of an optional [`Target`].
pub open spec fn target_view(target: Option<Target>) -> Option<TargetView> {
    match target {
        Some(t) => Some(t@),
        None => None,
    }
}

/// What `Url::parse` makes of a text: the parts of the URL, or `None` where
/// the text is rejected.
pub uninterp spec fn parsed_url(input: Seq<char>) -> Option<TargetView>;

/// What `Url::join` makes of a reference when it is called on the URL that
/// `base` parses to: the parts of the resulting URL, or `None` where either
/// step is rejected.
pub uninterp spec fn joined_url(base: Seq<char>, reference: Seq<char>) -> Option<TargetView>;

/// `Url::parse`, with `Url::as_str`, `Url::scheme` and `Url::host_str` read
/// off the result. The outcome depends on the text alone.
#[verifier::external_body]
pub(crate) fn parse_url(input: &str) -> (r: Option<Target>)
    ensures
        target_view(r) == parsed_url(input@),
{
    match Url::parse(input) {
        Ok(url) => Some(Target {
            href: url.as_str().to_owned(),
            scheme: url.scheme().to_owned(),
            host: url.host_str().map(|h| h.to_owned()),
        }),
        Err(_) => None,
    }
}

/// `Url::join` on the parsed `base`, with the same three parts read off the
/// result. The outcome depends on the two texts alone.
#[verifier::external_body]
pub(crate) fn join_url(base: &str, reference: &str) -> (r: Option<Target>)
    ensures
        target_view(r) == joined_url(base@, reference@),
{
    match Url::parse(base).and_then(|b| b.join(reference)) {
        Ok(url) => Some(Target {
            href: url.as_str().to_owned(),
            scheme: url.scheme().to_owned(),
            host: url.host_str().map(|h| h.to_owned()),
        }),
        Err(_) => None,
    }
}

/// Whether a scheme is one that requests are sent over.
pub open spec fn scheme_supported(scheme: Seq<char>) -> bool {
    scheme == "http"@ || scheme == "https"@
}

/// What a request to `input` is dispatched to, given what the text parsed
/// to: the URL itself where it has a host and its scheme is `http` or
/// `https`, and otherwise the reason for which the request is rejected.
/// A text that is no URL is reported with the text, a URL without a host
/// with the text, an unsupported scheme with the scheme.
pub open spec fn checked_target(input: Seq<char>, parsed: Option<TargetView>) -> Result<
    TargetView,
    ErrorView,
> {
    match parsed {
        None => Err(ErrorView::UrlParsingError(input)),
        Some(t) => if t.host.is_none() {
            Err(ErrorView::UrlMissingHostnameError(input))
        } else if !scheme_supported(t.scheme) {
            Err(ErrorView::UrlProtocolError(t.scheme))
        } else {
            Ok(t)
        },
    }
}

/// Model of the result of a check.
pub open spec fn check_view(r: Result<Target, ImpitError>) -> Result<TargetView, ErrorView> {
    match r {
        Ok(t) => Ok(t@),
        Err(e) => Err(e@),
    }
}

/// Decides whether a parsed URL can be the target of a request.
pub fn check_target(input: &str, parsed: Option<Target>) -> (r: Result<Target, ImpitError>)
    ensures
        check_view(r) == checked_target(input@, target_view(parsed)),
{
    match parsed {
        None => Err(ImpitError::UrlParsingError(input.to_owned())),
        Some(t) => {
            if t.host.is_none() {
                Err(ImpitError::UrlMissingHostnameError(input.to_owned()))
            } else if !(text_is(&t.scheme, "http") || text_is(&t.scheme, "https")) {
                let scheme = t.scheme;
                Err(ImpitError::UrlProtocolError(scheme))
            } else {
                Ok(t)
            }
        },
    }
}

/// Parses a URL and decides whether a request can be sent to it.
pub fn resolve_target(input: &str) -> (r: Result<Target, ImpitError>)
    ensures
        check_view(r) == checked_target(input@, parsed_url(input@)),
{
    let parsed = parse_url(input);
    check_target(input, parsed)
}

} // verus!

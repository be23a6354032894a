//! One logical request: the first exchange, and what follows each response.
//!
//! The pipeline is a state machine that the caller drives. [`begin`] checks
//! the request and names the first exchange. After each exchange the caller
//! hands the status and the `Location` header to [`next_step`], which says
//! whether the response is final, which exchange comes next, or why the
//! request failed. Nothing here touches the network, so every decision is
//! made before anything is sent.

use crate::errors::ErrorView;
use crate::errors::ImpitError;
use crate::text::lowercase;
use crate::text::to_lowercase;
use crate::url::check_target;
use crate::url::checked_target;
use crate::url::join_url;
use crate::url::joined_url;
use crate::url::parse_url;
use crate::url::parsed_url;
use crate::text::text_is;
use crate::url::target_view;
use crate::url::Target;
use crate::url::TargetView;
use vstd::prelude::*;

verus! {

/// The request methods.
#[derive(Clone, Copy, Debug, PartialEq, Eq, Hash, Structural)]
pub enum HttpMethod {
    Get,
    Head,
    Post,
    Put,
    Delete,
    Patch,
    Options,
    Trace,
}

/// The method that a name in lowercase stands for.
pub open spec fn method_named(lower: Seq<char>) -> Option<HttpMethod> {
    if lower == "get"@ {
        Some(HttpMethod::Get)
    } else if lower == "head"@ {
        Some(HttpMethod::Head)
    } else if lower == "post"@ {
        Some(HttpMethod::Post)
    } else if lower == "put"@ {
        Some(HttpMethod::Put)
    } else if lower == "delete"@ {
        Some(HttpMethod::Delete)
    } else if lower == "patch"@ {
        Some(HttpMethod::Patch)
    } else if lower == "options"@ {
        Some(HttpMethod::Options)
    } else if lower == "trace"@ {
        Some(HttpMethod::Trace)
    } else {
        None
    }
}

impl HttpMethod {
    /// The method of a name that is already in lowercase.
    pub fn from_lowercase(lower: &String) -> (r: Option<HttpMethod>)
        ensures
            r == method_named(lower@),
    {
        if text_is(lower, "get") {
            Some(HttpMethod::Get)
        } else if text_is(lower, "head") {
            Some(HttpMethod::Head)
        } else if text_is(lower, "post") {
            Some(HttpMethod::Post)
        } else if text_is(lower, "put") {
            Some(HttpMethod::Put)
        } else if text_is(lower, "delete") {
            Some(HttpMethod::Delete)
        } else if text_is(lower, "patch") {
            Some(HttpMethod::Patch)
        } else if text_is(lower, "options") {
            Some(HttpMethod::Options)
        } else if text_is(lower, "trace") {
            Some(HttpMethod::Trace)
        } else {
            None
        }
    }

    /// The method of a name in any case. A name that is none of the eight
    /// is reported as it was given.
    pub fn from_name(name: &str) -> (r: Result<HttpMethod, ImpitError>)
        ensures
            match method_named(lowercase(name@)) {
                Some(method) => r == Ok::<HttpMethod, ImpitError>(method),
                None => r matches Err(ImpitError::InvalidMethod(text)) && text@ == name@,
            },
    {
        let lower = to_lowercase(name);
        match HttpMethod::from_lowercase(&lower) {
            Some(method) => Ok(method),
            None => Err(ImpitError::InvalidMethod(name.to_owned())),
        }
    }
}

impl Default for HttpMethod {
    fn default() -> (r: Self)
        ensures
            r == HttpMethod::Get,
    {
        HttpMethod::Get
    }
}

/// What to do with a redirect.
#[derive(Clone, Copy, Debug, PartialEq, Eq, Hash, Structural)]
pub enum RedirectPolicy {
    /// Hand every response to the caller as it is.
    Manual,
    /// Follow redirects, at most this many in one request.
    Follow(usize),
}

/// Per-call overrides.
#[derive(Clone, Debug, PartialEq, Eq)]
pub struct RequestOptions {
    /// Headers of the request; they outrank the client's and the
    /// fingerprint's.
    pub headers: Vec<(String, String)>,
    /// Deadline of the whole request in milliseconds, in place of the
    /// client's.
    pub timeout: Option<u64>,
    /// Send the request over HTTP/3 without negotiating.
    pub http3_prior_knowledge: bool,
}

/// A request as a caller describes it, every part optional.
#[derive(Clone, Debug, Default, PartialEq, Eq)]
pub struct RequestInit {
    /// The method; `GET` where none is given.
    pub method: Option<HttpMethod>,
    /// Headers of the request.
    pub headers: Option<Vec<(String, String)>>,
    /// The body.
    pub body: Option<Vec<u8>>,
    /// Deadline in milliseconds, in place of the client's.
    pub timeout: Option<u32>,
    /// Send the request over HTTP/3 without negotiating.
    pub force_http3: Option<bool>,
}

/// Model of the three parts that a request is taken apart into.
pub struct RequestParts {
    pub method: HttpMethod,
    pub body: Option<Seq<u8>>,
    pub headers: Seq<(Seq<char>, Seq<char>)>,
    pub timeout: Option<u64>,
    pub http3_prior_knowledge: bool,
}

/// The parts of a request with everything that was left out filled in: the
/// method is `GET`, there are no headers, no body and no deadline of its
/// own, and HTTP/3 is not forced.
pub open spec fn request_parts(init: Option<RequestInit>) -> RequestParts {
    match init {
        Some(i) => RequestParts {
            method: match i.method {
                Some(m) => m,
                None => HttpMethod::Get,
            },
            body: body_view(i.body),
            headers: match i.headers {
                Some(h) => h.deep_view(),
                None => Seq::empty(),
            },
            timeout: match i.timeout {
                Some(t) => Some(t as u64),
                None => None,
            },
            http3_prior_knowledge: i.force_http3 == Some(true),
        },
        None => RequestParts {
            method: HttpMethod::Get,
            body: None,
            headers: Seq::empty(),
            timeout: None,
            http3_prior_knowledge: false,
        },
    }
}

/// Takes a request apart into its method, its body and its options.
pub fn unpack(init: Option<RequestInit>) -> (r: (HttpMethod, Option<Vec<u8>>, RequestOptions))
    ensures
        request_parts(init) == (RequestParts {
            method: r.0,
            body: body_view(r.1),
            headers: r.2.headers.deep_view(),
            timeout: r.2.timeout,
            http3_prior_knowledge: r.2.http3_prior_knowledge,
        }),
{
    match init {
        Some(i) => {
            let method = match i.method {
                Some(m) => m,
                None => HttpMethod::Get,
            };
            let headers = match i.headers {
                Some(h) => h,
                None => {
                    let none: Vec<(String, String)> = Vec::new();
                    assert(none.deep_view() =~= Seq::empty());
                    none
                },
            };
            let timeout = match i.timeout {
                Some(t) => Some(t as u64),
                None => None,
            };
            let http3_prior_knowledge = match i.force_http3 {
                Some(f) => f,
                None => false,
            };
            (method, i.body, RequestOptions { headers, timeout, http3_prior_knowledge })
        },
        None => {
            let none: Vec<(String, String)> = Vec::new();
            assert(none.deep_view() =~= Seq::empty());
            (
                HttpMethod::Get,
                None,
                RequestOptions { headers: none, timeout: None, http3_prior_knowledge: false },
            )
        },
    }
}

/// One exchange that is about to be made.
#[derive(Clone, Debug, PartialEq, Eq)]
pub struct Hop {
    pub method: HttpMethod,
    /// The URL in its normal form.
    pub url: String,
    pub body: Option<Vec<u8>>,
    /// How many redirects were followed to get here.
    pub redirects: usize,
}

/// Model of a [`Hop`].
pub struct HopView {
    pub method: HttpMethod,
    pub url: Seq<char>,
    pub body: Option<Seq<u8>>,
    pub redirects: nat,
}

impl View for Hop {
    type V = HopView;

    open spec fn view(&self) -> HopView {
        HopView {
            method: self.method,
            url: self.url@,
            body: match self.body {
                Some(b) => Some(b@),
                None => None,
            },
            redirects: self.redirects as nat,
        }
    }
}

/// Where the pipeline stands after a response.
#[derive(Clone, Debug, PartialEq, Eq)]
pub enum Step {
    /// The response is the result of the request.
    Done,
    /// The response was a redirect: its cookies are stored, then this
    /// exchange is made.
    Dispatch(Hop),
    /// The request has failed.
    Failed(ImpitError),
}

/// Model of a [`Step`].
pub enum StepView {
    Done,
    Dispatch(HopView),
    Failed(ErrorView),
}

impl View for Step {
    type V = StepView;

    open spec fn view(&self) -> StepView {
        match self {
            Step::Done => StepView::Done,
            Step::Dispatch(hop) => StepView::Dispatch(hop@),
            Step::Failed(e) => StepView::Failed(e@),
        }
    }
}

/// Whether a method carries no body.
pub open spec fn bodiless(method: HttpMethod) -> bool {
    method == HttpMethod::Get || method == HttpMethod::Head
}

/// Model of an optional body.
pub open spec fn body_view(body: Option<Vec<u8>>) -> Option<Seq<u8>> {
    match body {
        Some(b) => Some(b@),
        None => None,
    }
}

/// Model of the result of [`begin`].
pub open spec fn begin_view(r: Result<Hop, ImpitError>) -> Result<HopView, ErrorView> {
    match r {
        Ok(hop) => Ok(hop@),
        Err(e) => Err(e@),
    }
}

/// The first exchange of a request, or the reason for which nothing is
/// sent. A body that is not empty is rejected with `GET` and `HEAD`; then
/// the URL must be one that requests go to; then HTTP/3 must be enabled
/// where the request insists on it.
pub open spec fn first_hop(
    method: HttpMethod,
    url: Seq<char>,
    parsed: Option<TargetView>,
    body: Option<Seq<u8>>,
    force_http3: bool,
    http3_enabled: bool,
) -> Result<HopView, ErrorView> {
    if bodiless(method) && body.is_some() && body.unwrap().len() > 0 {
        Err(ErrorView::BodyNotAllowed)
    } else {
        match checked_target(url, parsed) {
            Err(e) => Err(e),
            Ok(t) => if force_http3 && !http3_enabled {
                Err(ErrorView::Http3Disabled)
            } else {
                Ok(HopView { method, url: t.href, body, redirects: 0 })
            },
        }
    }
}

/// Checks a request against what its URL parsed to and names the first
/// exchange.
pub fn begin_with(
    method: HttpMethod,
    url: &str,
    parsed: Option<Target>,
    body: Option<Vec<u8>>,
    force_http3: bool,
    http3_enabled: bool,
) -> (r: Result<Hop, ImpitError>)
    ensures
        begin_view(r) == first_hop(
            method,
            url@,
            target_view(parsed),
            body_view(body),
            force_http3,
            http3_enabled,
        ),
{
    let no_body = match method {
        HttpMethod::Get => true,
        HttpMethod::Head => true,
        _ => false,
    };
    let has_content = match &body {
        Some(b) => b.len() > 0,
        None => false,
    };
    if no_body && has_content {
        return Err(ImpitError::BodyNotAllowed);
    }
    match check_target(url, parsed) {
        Err(e) => Err(e),
        Ok(t) => {
            if force_http3 && !http3_enabled {
                Err(ImpitError::Http3Disabled)
            } else {
                Ok(Hop { method, url: t.href, body, redirects: 0 })
            }
        },
    }
}

/// Checks a request and names its first exchange. On `Err` nothing is to be
/// sent.
pub fn begin(
    method: HttpMethod,
    url: &str,
    body: Option<Vec<u8>>,
    options: &RequestOptions,
    http3_enabled: bool,
) -> (r: Result<Hop, ImpitError>)
    ensures
        begin_view(r) == first_hop(
            method,
            url@,
            parsed_url(url@),
            body_view(body),
            options.http3_prior_knowledge,
            http3_enabled,
        ),
{
    let parsed = parse_url(url);
    begin_with(method, url, parsed, body, options.http3_prior_knowledge, http3_enabled)
}

/// Whether a response sends the client elsewhere: a status between 300 and
/// 399 together with a `Location` header.
pub open spec fn is_redirect(status: u16, has_location: bool) -> bool {
    300 <= status <= 399 && has_location
}

/// Whether a redirect status turns the request into a `GET` without body.
pub open spec fn rewrites_to_get(status: u16) -> bool {
    status == 301 || status == 302 || status == 303
}

/// What follows a response. Under the manual policy every response is
/// final. Under the following policy a redirect leads to the next exchange
/// unless the limit is reached or the new URL is rejected; `joined` is what
/// the `Location` header resolved to against the URL of this exchange.
pub open spec fn step_after(
    policy: RedirectPolicy,
    hop: HopView,
    status: u16,
    location: Option<Seq<char>>,
    joined: Option<TargetView>,
) -> StepView {
    match policy {
        RedirectPolicy::Manual => StepView::Done,
        RedirectPolicy::Follow(max) => if !is_redirect(status, location.is_some()) {
            StepView::Done
        } else if hop.redirects >= max {
            StepView::Failed(ErrorView::TooManyRedirects)
        } else {
            match checked_target(location.unwrap(), joined) {
                Err(e) => StepView::Failed(e),
                Ok(t) => StepView::Dispatch(
                    HopView {
                        method: if rewrites_to_get(status) {
                            HttpMethod::Get
                        } else {
                            hop.method
                        },
                        url: t.href,
                        body: if rewrites_to_get(status) {
                            None
                        } else {
                            hop.body
                        },
                        redirects: hop.redirects + 1,
                    },
                ),
            }
        },
    }
}

/// Model of an optional header value.
pub open spec fn text_view(text: Option<String>) -> Option<Seq<char>> {
    match text {
        Some(t) => Some(t@),
        None => None,
    }
}

/// Decides what follows a response, given what its `Location` header
/// resolved to.
pub fn decide(
    policy: RedirectPolicy,
    hop: Hop,
    status: u16,
    location: Option<String>,
    joined: Option<Target>,
) -> (r: Step)
    ensures
        r@ == step_after(policy, hop@, status, text_view(location), target_view(joined)),
{
    match policy {
        RedirectPolicy::Manual => Step::Done,
        RedirectPolicy::Follow(max) => {
            match location {
                None => Step::Done,
                Some(reference) => {
                    if status < 300 || status > 399 {
                        Step::Done
                    } else if hop.redirects >= max {
                        Step::Failed(ImpitError::TooManyRedirects)
                    } else {
                        match check_target(reference.as_str(), joined) {
                            Err(e) => Step::Failed(e),
                            Ok(t) => {
                                if status == 301 || status == 302 || status == 303 {
                                    Step::Dispatch(
                                        Hop {
                                            method: HttpMethod::Get,
                                            url: t.href,
                                            body: None,
                                            redirects: hop.redirects + 1,
                                        },
                                    )
                                } else {
                                    Step::Dispatch(
                                        Hop {
                                            method: hop.method,
                                            url: t.href,
                                            body: hop.body,
                                            redirects: hop.redirects + 1,
                                        },
                                    )
                                }
                            },
                        }
                    }
                },
            }
        },
    }
}

/// What [`next_step`] resolves the `Location` header to: nothing where the
/// response is final anyway, and otherwise the header joined to the URL of
/// the exchange.
pub open spec fn resolved_location(
    policy: RedirectPolicy,
    hop: HopView,
    status: u16,
    location: Option<Seq<char>>,
) -> Option<TargetView> {
    if policy != RedirectPolicy::Manual && is_redirect(status, location.is_some()) {
        joined_url(hop.url, location.unwrap())
    } else {
        None
    }
}

/// Decides what follows a response with the given status and `Location`
/// header.
pub fn next_step(policy: RedirectPolicy, hop: Hop, status: u16, location: Option<String>) -> (r:
    Step)
    ensures
        r@ == step_after(
            policy,
            hop@,
            status,
            text_view(location),
            resolved_location(policy, hop@, status, text_view(location)),
        ),
{
    let follows = match policy {
        RedirectPolicy::Manual => false,
        RedirectPolicy::Follow(_) => true,
    };
    let joined = match &location {
        Some(reference) => {
            if follows && 300 <= status && status <= 399 {
                join_url(hop.url.as_str(), reference.as_str())
            } else {
                None
            }
        },
        None => None,
    };
    decide(policy, hop, status, location, joined)
}

/// Under the manual policy no response leads to another exchange, whatever
/// its status and headers.
pub proof fn lemma_manual_is_final(
    hop: HopView,
    status: u16,
    location: Option<Seq<char>>,
    joined: Option<TargetView>,
)
    ensures
        step_after(RedirectPolicy::Manual, hop, status, location, joined) == StepView::Done,
{
}

/// With a limit of zero every redirect fails with the too-many-redirects
/// error; the response is not handed out.
pub proof fn lemma_limit_zero_fails(
    hop: HopView,
    status: u16,
    location: Option<Seq<char>>,
    joined: Option<TargetView>,
)
    requires
        is_redirect(status, location.is_some()),
    ensures
        step_after(RedirectPolicy::Follow(0), hop, status, location, joined) == StepView::Failed(
            ErrorView::TooManyRedirects,
        ),
{
}

/// A redirect is never followed beyond the limit: the exchange that follows
/// has followed at most `max` redirects.
pub proof fn lemma_limit_is_kept(
    max: usize,
    hop: HopView,
    status: u16,
    location: Option<Seq<char>>,
    joined: Option<TargetView>,
)
    ensures
        step_after(RedirectPolicy::Follow(max), hop, status, location, joined) matches StepView::Dispatch(
            next,
        ) ==> next.redirects == hop.redirects + 1 && next.redirects <= max,
{
}

/// A followed redirect with status 301, 302 or 303 continues as a `GET`
/// without body.
pub proof fn lemma_see_other_becomes_get(
    max: usize,
    hop: HopView,
    status: u16,
    location: Option<Seq<char>>,
    joined: Option<TargetView>,
)
    requires
        status == 301 || status == 302 || status == 303,
    ensures
        step_after(RedirectPolicy::Follow(max), hop, status, location, joined) matches StepView::Dispatch(
            next,
        ) ==> next.method == HttpMethod::Get && next.body.is_none(),
{
}

/// A followed redirect with any other status, 307 and 308 among them,
/// keeps method and body.
pub proof fn lemma_temporary_redirect_keeps_request(
    max: usize,
    hop: HopView,
    status: u16,
    location: Option<Seq<char>>,
    joined: Option<TargetView>,
)
    requires
        !rewrites_to_get(status),
    ensures
        step_after(RedirectPolicy::Follow(max), hop, status, location, joined) matches StepView::Dispatch(
            next,
        ) ==> next.method == hop.method && next.body == hop.body,
{
}

/// A redirect below the limit whose target is accepted is followed: the
/// pipeline neither stops nor fails.
pub proof fn lemma_redirect_is_followed(
    max: usize,
    hop: HopView,
    status: u16,
    location: Option<Seq<char>>,
    joined: Option<TargetView>,
)
    requires
        is_redirect(status, location.is_some()),
        hop.redirects < max,
        checked_target(location.unwrap(), joined) is Ok,
    ensures
        step_after(RedirectPolicy::Follow(max), hop, status, location, joined) is Dispatch,
{
}

/// The deadline of a request: the request's own where it has one, the
/// client's otherwise. It bounds the whole request, redirects included.
pub fn effective_timeout(request: Option<u64>, client: Option<u64>) -> (r: Option<u64>)
    ensures
        r == (match request {
            Some(t) => Some(t),
            None => client,
        }),
{
    match request {
        Some(t) => Some(t),
        None => client,
    }
}

/// The time that is left for the next exchange, `elapsed` milliseconds into
/// the request: no limit where there is no deadline, a timeout error where
/// the deadline has passed, and the rest of it otherwise.
pub fn time_left(deadline: Option<u64>, elapsed: u64) -> (r: Result<Option<u64>, ImpitError>)
    ensures
        match deadline {
            None => r == Ok::<Option<u64>, ImpitError>(None),
            Some(limit) => if elapsed >= limit {
                r == Err::<Option<u64>, ImpitError>(ImpitError::TimeoutError)
            } else {
                r == Ok::<Option<u64>, ImpitError>(Some((limit - elapsed) as u64))
            },
        },
{
    match deadline {
        None => Ok(None),
        Some(limit) => {
            if elapsed >= limit {
                Err(ImpitError::TimeoutError)
            } else {
                Ok(Some(limit - elapsed))
            }
        },
    }
}

} // verus!

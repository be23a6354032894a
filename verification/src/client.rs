//! Assembling a client: the builder, and the immutable configuration that
//! it builds.
//!
//! Every combination that cannot work is rejected by [`ImpitBuilder::build`],
//! before any request is made.

use crate::emulation::Browser;
use crate::cookies::attach_cookie;
use crate::cookies::commit_cookies;
use crate::cookies::cookie_from;
use crate::cookies::cookies_for;
use crate::cookies::with_cookie;
use crate::cookies::CookieStore;
use crate::errors::ErrorView;
use crate::errors::ImpitError;
use crate::fingerprint::database::fingerprint_model;
use crate::fingerprint::database::get_fingerprint;
use crate::fingerprint::copy_pairs;
use crate::fingerprint::BrowserFingerprint;
use crate::fingerprint::BrowserFingerprintView;
use crate::fingerprint::TlsFingerprintView;
use crate::http_headers::chain_headers;
use crate::http_headers::clone_headers;
use crate::http_headers::drop_empty;
use crate::http_headers::first_rejected;
use crate::http_headers::resolve;
use crate::http_headers::transmitted;
use crate::http_headers::validate;
use crate::http_headers::HeaderSeq;
use crate::request::begin;
use crate::request::begin_view;
use crate::request::body_view;
use crate::request::effective_timeout;
use crate::request::first_hop;
use crate::request::next_step;
use crate::request::resolved_location;
use crate::request::step_after;
use crate::request::text_view;
use crate::request::Hop;
use crate::request::HttpMethod;
use crate::request::RedirectPolicy;
use crate::request::RequestOptions;
use crate::request::Step;
use crate::tls::settings_of;
use crate::tls::tls_settings;
use crate::tls::HttpVersionCeiling;
use crate::tls::TlsSettings;
use crate::tls::TlsSettingsView;
use crate::url::parse_url;
use crate::url::parsed_url;
use crate::url::target_view;
use crate::text::text_is;
use crate::url::Target;
use crate::url::TargetView;
use vstd::prelude::*;

verus! {

/// The redirects that a client follows unless it is told otherwise.
pub const DEFAULT_MAX_REDIRECTS: usize = 10;

/// An address to bind outgoing connections to.
#[derive(Clone, Copy, Debug, PartialEq, Eq, Hash, Structural)]
pub enum LocalAddress {
    V4(u8, u8, u8, u8),
    V6(u16, u16, u16, u16, u16, u16, u16, u16),
}

/// Who keeps the cookies.
#[derive(Clone, Copy, Debug, PartialEq, Eq, Hash, Structural)]
pub enum CookieHandling {
    /// The client's store is asked before every exchange and told after
    /// every response.
    Store,
    /// The caller keeps the cookies; the client neither reads nor stores
    /// any.
    Delegated,
}

/// The redirect policy that two optional settings stand for: redirects are
/// followed unless that is switched off, and up to ten of them unless
/// another limit is given.
pub fn redirect_policy(follow_redirects: Option<bool>, max_redirects: Option<u32>) -> (r:
    RedirectPolicy)
    ensures
        r == (if follow_redirects == Some(false) {
            RedirectPolicy::Manual
        } else {
            RedirectPolicy::Follow(
                match max_redirects {
                    Some(max) => max as usize,
                    None => DEFAULT_MAX_REDIRECTS,
                },
            )
        }),
{
    let follow = match follow_redirects {
        Some(f) => f,
        None => true,
    };
    if !follow {
        RedirectPolicy::Manual
    } else {
        match max_redirects {
            Some(max) => RedirectPolicy::Follow(max as usize),
            None => RedirectPolicy::Follow(DEFAULT_MAX_REDIRECTS),
        }
    }
}

/// Whether a scheme is one that a proxy is reached over.
pub open spec fn proxy_scheme_supported(scheme: Seq<char>) -> bool {
    scheme == "http"@ || scheme == "https"@ || scheme == "socks4"@ || scheme == "socks5"@
}

/// Whether a proxy URL is accepted, given what it parsed to: it is a URL
/// with a host and one of the four proxy schemes.
pub open spec fn proxy_accepted(parsed: Option<TargetView>) -> bool {
    match parsed {
        Some(t) => t.host.is_some() && proxy_scheme_supported(t.scheme),
        None => false,
    }
}

/// Decides whether a proxy URL is accepted, given what it parsed to.
pub fn check_proxy(parsed: &Option<Target>) -> (r: bool)
    ensures
        r == proxy_accepted(target_view(*parsed)),
{
    match parsed {
        Some(t) => t.host.is_some() && (text_is(&t.scheme, "http") || text_is(&t.scheme, "https")
            || text_is(&t.scheme, "socks4") || text_is(&t.scheme, "socks5")),
        None => false,
    }
}

/// Model of an [`ImpitBuilder`] and of a [`ClientConfig`].
pub struct ClientView {
    pub browser: Option<Browser>,
    pub fingerprint: Option<BrowserFingerprintView>,
    pub ignore_tls_errors: bool,
    pub vanilla_fallback: bool,
    pub proxy_url: Option<Seq<char>>,
    pub request_timeout: Option<u64>,
    pub http3: bool,
    pub redirect: RedirectPolicy,
    pub headers: HeaderSeq,
    pub local_address: Option<LocalAddress>,
    pub cookies: CookieHandling,
}

/// The fingerprint that a client impersonates: the one that was set, else
/// the database entry of the browser, else none.
pub open spec fn impersonated(client: ClientView) -> Option<BrowserFingerprintView> {
    match client.fingerprint {
        Some(fp) => Some(fp),
        None => match client.browser {
            Some(browser) => Some(fingerprint_model(browser)),
            None => None,
        },
    }
}

/// The reason for which a client cannot be built, if there is one: HTTP/3
/// together with a proxy, or a proxy URL that is not accepted.
pub open spec fn build_error(client: ClientView, proxy_parsed: Option<TargetView>) -> Option<
    ErrorView,
> {
    match client.proxy_url {
        Some(proxy) => if client.http3 {
            Some(ErrorView::Http3WithProxy)
        } else if !proxy_accepted(proxy_parsed) {
            Some(ErrorView::ProxyError(proxy))
        } else {
            None
        },
        None => None,
    }
}

/// The ceiling that goes with the HTTP/3 switch.
pub open spec fn ceiling_of(http3: bool) -> HttpVersionCeiling {
    if http3 {
        HttpVersionCeiling::Http3
    } else {
        HttpVersionCeiling::Http2
    }
}

/// The TLS fingerprint of an optional browser fingerprint.
pub open spec fn tls_of(fp: Option<BrowserFingerprintView>) -> Option<TlsFingerprintView> {
    match fp {
        Some(f) => Some(f.tls),
        None => None,
    }
}

/// What a build gives: the reason for which it fails, where there is one,
/// and otherwise the configuration of the builder with the fingerprint
/// selected, together with the TLS settings for that fingerprint.
pub open spec fn build_outcome(client: ClientView, proxy_parsed: Option<TargetView>) -> Result<
    (ClientView, TlsSettingsView),
    ErrorView,
> {
    match build_error(client, proxy_parsed) {
        Some(e) => Err(e),
        None => Ok(
            (
                ClientView { fingerprint: impersonated(client), ..client },
                settings_of(
                    tls_of(impersonated(client)),
                    client.ignore_tls_errors,
                    ceiling_of(client.http3),
                ),
            ),
        ),
    }
}

/// Model of the result of a build.
pub open spec fn build_view(r: Result<ClientConfig, ImpitError>) -> Result<
    (ClientView, TlsSettingsView),
    ErrorView,
> {
    match r {
        Ok(config) => Ok((config@, config.tls_model())),
        Err(e) => Err(e@),
    }
}

/// Collects the configuration of a client. The calls can come in any order.
#[derive(Debug)]
pub struct ImpitBuilder {
    browser: Option<Browser>,
    fingerprint: Option<BrowserFingerprint>,
    ignore_tls_errors: bool,
    vanilla_fallback: bool,
    proxy_url: Option<String>,
    request_timeout: Option<u64>,
    http3: bool,
    redirect: RedirectPolicy,
    headers: Vec<(String, String)>,
    local_address: Option<LocalAddress>,
    cookies: CookieHandling,
}

impl View for ImpitBuilder {
    type V = ClientView;

    closed spec fn view(&self) -> ClientView {
        ClientView {
            browser: self.browser,
            fingerprint: match self.fingerprint {
                Some(fp) => Some(fp@),
                None => None,
            },
            ignore_tls_errors: self.ignore_tls_errors,
            vanilla_fallback: self.vanilla_fallback,
            proxy_url: match self.proxy_url {
                Some(p) => Some(p@),
                None => None,
            },
            request_timeout: self.request_timeout,
            http3: self.http3,
            redirect: self.redirect,
            headers: self.headers.deep_view(),
            local_address: self.local_address,
            cookies: self.cookies,
        }
    }
}

/// The configuration that a new builder starts from: no impersonation,
/// certificates verified, no proxy, no deadline, HTTP/3 off, up to ten
/// redirects followed, no default headers, cookies kept by the client.
pub open spec fn default_client() -> ClientView {
    ClientView {
        browser: None,
        fingerprint: None,
        ignore_tls_errors: false,
        vanilla_fallback: false,
        proxy_url: None,
        request_timeout: None,
        http3: false,
        redirect: RedirectPolicy::Follow(DEFAULT_MAX_REDIRECTS),
        headers: Seq::empty(),
        local_address: None,
        cookies: CookieHandling::Store,
    }
}

impl Default for ImpitBuilder {
    fn default() -> (r: Self)
        ensures
            r@ == default_client(),
    {
        let r = ImpitBuilder {
            browser: None,
            fingerprint: None,
            ignore_tls_errors: false,
            vanilla_fallback: false,
            proxy_url: None,
            request_timeout: None,
            http3: false,
            redirect: RedirectPolicy::Follow(DEFAULT_MAX_REDIRECTS),
            headers: Vec::new(),
            local_address: None,
            cookies: CookieHandling::Store,
        };
        assert(r.headers.deep_view() =~= Seq::empty());
        r
    }
}

impl ImpitBuilder {
    /// Impersonates the database entry of a browser.
    pub fn with_browser(self, browser: Browser) -> (r: Self)
        ensures
            r@ == (ClientView { browser: Some(browser), ..self@ }),
    {
        let mut this = self;
        this.browser = Some(browser);
        this
    }

    /// Impersonates the given fingerprint; it outranks a browser.
    pub fn with_fingerprint(self, fingerprint: BrowserFingerprint) -> (r: Self)
        ensures
            r@ == (ClientView { fingerprint: Some(fingerprint@), ..self@ }),
    {
        let mut this = self;
        this.fingerprint = Some(fingerprint);
        this
    }

    /// Accepts any server certificate, or verifies them again.
    pub fn with_ignore_tls_errors(self, ignore_tls_errors: bool) -> (r: Self)
        ensures
            r@ == (ClientView { ignore_tls_errors, ..self@ }),
    {
        let mut this = self;
        this.ignore_tls_errors = ignore_tls_errors;
        this
    }

    /// Lets a request that fails in the handshake be tried again without
    /// impersonation.
    pub fn with_fallback_to_vanilla(self, vanilla_fallback: bool) -> (r: Self)
        ensures
            r@ == (ClientView { vanilla_fallback, ..self@ }),
    {
        let mut this = self;
        this.vanilla_fallback = vanilla_fallback;
        this
    }

    /// Sends every request through a proxy.
    pub fn with_proxy(self, proxy_url: String) -> (r: Self)
        ensures
            r@ == (ClientView { proxy_url: Some(proxy_url@), ..self@ }),
    {
        let mut this = self;
        this.proxy_url = Some(proxy_url);
        this
    }

    /// Sets the deadline of every request, in milliseconds.
    pub fn with_default_timeout(self, milliseconds: u64) -> (r: Self)
        ensures
            r@ == (ClientView { request_timeout: Some(milliseconds), ..self@ }),
    {
        let mut this = self;
        this.request_timeout = Some(milliseconds);
        this
    }

    /// Enables HTTP/3.
    pub fn with_http3(self) -> (r: Self)
        ensures
            r@ == (ClientView { http3: true, ..self@ }),
    {
        let mut this = self;
        this.http3 = true;
        this
    }

    /// Sets what happens on a redirect.
    pub fn with_redirect(self, redirect: RedirectPolicy) -> (r: Self)
        ensures
            r@ == (ClientView { redirect, ..self@ }),
    {
        let mut this = self;
        this.redirect = redirect;
        this
    }

    /// Sets the headers that every request carries unless it overrides them.
    pub fn with_headers(self, headers: Vec<(String, String)>) -> (r: Self)
        ensures
            r@ == (ClientView { headers: headers.deep_view(), ..self@ }),
    {
        let mut this = self;
        this.headers = headers;
        this
    }

    /// Binds outgoing connections to an address.
    pub fn with_local_address(self, address: LocalAddress) -> (r: Self)
        ensures
            r@ == (ClientView { local_address: Some(address), ..self@ }),
    {
        let mut this = self;
        this.local_address = Some(address);
        this
    }

    /// Says who keeps the cookies.
    pub fn with_cookie_handling(self, cookies: CookieHandling) -> (r: Self)
        ensures
            r@ == (ClientView { cookies, ..self@ }),
    {
        let mut this = self;
        this.cookies = cookies;
        this
    }

    /// Builds the client from what the proxy URL parsed to.
    pub fn build_with(self, proxy_parsed: Option<Target>) -> (r: Result<ClientConfig, ImpitError>)
        ensures
            build_view(r) == build_outcome(self@, target_view(proxy_parsed)),
    {
        match &self.proxy_url {
            Some(proxy) => {
                if self.http3 {
                    return Err(ImpitError::Http3WithProxy);
                }
                if !check_proxy(&proxy_parsed) {
                    return Err(ImpitError::ProxyError(proxy.clone()));
                }
            },
            None => {},
        }
        let fingerprint = match self.fingerprint {
            Some(fp) => Some(fp),
            None => match self.browser {
                Some(browser) => Some(get_fingerprint(browser)),
                None => None,
            },
        };
        let ceiling = if self.http3 {
            HttpVersionCeiling::Http3
        } else {
            HttpVersionCeiling::Http2
        };
        let tls = match &fingerprint {
            Some(fp) => tls_settings(Some(fp.tls()), self.ignore_tls_errors, ceiling),
            None => tls_settings(None, self.ignore_tls_errors, ceiling),
        };
        Ok(
            ClientConfig {
                browser: self.browser,
                fingerprint,
                tls,
                ignore_tls_errors: self.ignore_tls_errors,
                vanilla_fallback: self.vanilla_fallback,
                proxy_url: self.proxy_url,
                request_timeout: self.request_timeout,
                http3: self.http3,
                redirect: self.redirect,
                headers: self.headers,
                local_address: self.local_address,
                cookies: self.cookies,
            },
        )
    }

    /// Builds the client.
    pub fn build(self) -> (r: Result<ClientConfig, ImpitError>)
        ensures
            build_view(r) == build_outcome(self@, proxy_parse(self@)),
    {
        let parsed = match &self.proxy_url {
            Some(proxy) => parse_url(proxy.as_str()),
            None => None,
        };
        self.build_with(parsed)
    }
}

/// What the proxy URL of a client parses to.
pub open spec fn proxy_parse(client: ClientView) -> Option<TargetView> {
    match client.proxy_url {
        Some(proxy) => parsed_url(proxy),
        None => None,
    }
}

/// The configuration of a client. It is fixed when the client is built: to
/// change it, another client is built.
#[derive(Debug)]
pub struct ClientConfig {
    browser: Option<Browser>,
    fingerprint: Option<BrowserFingerprint>,
    tls: TlsSettings,
    ignore_tls_errors: bool,
    vanilla_fallback: bool,
    proxy_url: Option<String>,
    request_timeout: Option<u64>,
    http3: bool,
    redirect: RedirectPolicy,
    headers: Vec<(String, String)>,
    local_address: Option<LocalAddress>,
    cookies: CookieHandling,
}

impl View for ClientConfig {
    type V = ClientView;

    closed spec fn view(&self) -> ClientView {
        ClientView {
            browser: self.browser,
            fingerprint: match self.fingerprint {
                Some(fp) => Some(fp@),
                None => None,
            },
            ignore_tls_errors: self.ignore_tls_errors,
            vanilla_fallback: self.vanilla_fallback,
            proxy_url: match self.proxy_url {
                Some(p) => Some(p@),
                None => None,
            },
            request_timeout: self.request_timeout,
            http3: self.http3,
            redirect: self.redirect,
            headers: self.headers.deep_view(),
            local_address: self.local_address,
            cookies: self.cookies,
        }
    }
}

/// The headers of the fingerprint that a client impersonates.
pub open spec fn fingerprint_headers(client: ClientView) -> HeaderSeq {
    match client.fingerprint {
        Some(fp) => fp.headers,
        None => Seq::empty(),
    }
}

impl ClientConfig {
    /// A builder with the default configuration.
    pub fn builder() -> (r: ImpitBuilder)
        ensures
            r@ == default_client(),
    {
        ImpitBuilder::default()
    }

    /// Model of the TLS settings of the client.
    pub closed spec fn tls_model(&self) -> TlsSettingsView {
        self.tls@
    }

    /// The TLS settings of the client.
    pub fn tls(&self) -> (r: &TlsSettings)
        ensures
            r@ == self.tls_model(),
    {
        &self.tls
    }

    /// The fingerprint that the client impersonates.
    pub fn fingerprint(&self) -> (r: Option<&BrowserFingerprint>)
        ensures
            r.is_some() == self@.fingerprint.is_some(),
            r.is_some() ==> r.unwrap()@ == self@.fingerprint.unwrap(),
    {
        self.fingerprint.as_ref()
    }

    /// The proxy that requests go through.
    pub fn proxy_url(&self) -> (r: Option<&String>)
        ensures
            r.is_some() == self@.proxy_url.is_some(),
            r.is_some() ==> r.unwrap()@ == self@.proxy_url.unwrap(),
    {
        self.proxy_url.as_ref()
    }

    /// What happens on a redirect.
    pub fn redirect(&self) -> (r: RedirectPolicy)
        ensures
            r == self@.redirect,
    {
        self.redirect
    }

    /// Whether HTTP/3 is enabled.
    pub fn http3(&self) -> (r: bool)
        ensures
            r == self@.http3,
    {
        self.http3
    }

    /// The address that connections are bound to.
    pub fn local_address(&self) -> (r: Option<LocalAddress>)
        ensures
            r == self@.local_address,
    {
        self.local_address
    }

    /// Who keeps the cookies.
    pub fn cookies(&self) -> (r: CookieHandling)
        ensures
            r == self@.cookies,
    {
        self.cookies
    }

    /// The deadline of a request with the given options, in milliseconds.
    pub fn deadline(&self, options: &RequestOptions) -> (r: Option<u64>)
        ensures
            r == (match options.timeout {
                Some(t) => Some(t),
                None => self@.request_timeout,
            }),
    {
        effective_timeout(options.timeout, self.request_timeout)
    }

    /// The headers that a request with the given options carries: those of
    /// the request, of the client and of the fingerprint, merged by
    /// precedence, without the headers whose value is empty. The client is
    /// left as it is.
    pub fn request_headers(&self, options: &RequestOptions) -> (r: Vec<(String, String)>)
        ensures
            r.deep_view() == transmitted(
                options.headers.deep_view() + self@.headers + fingerprint_headers(self@),
            ),
    {
        let upper = chain_headers(&options.headers, &self.headers);
        let all = match &self.fingerprint {
            Some(fp) => {
                let lower = copy_pairs(fp.headers());
                assert(lower.deep_view() =~= fp@.headers);
                chain_headers(&upper, &lower)
            },
            None => {
                assert(upper.deep_view() + Seq::<(Seq<char>, Seq<char>)>::empty()
                    =~= upper.deep_view());
                upper
            },
        };
        let kept = resolve(&all);
        drop_empty(&kept)
    }

    /// Checks a request and names its first exchange.
    pub fn begin(&self, method: HttpMethod, url: &str, body: Option<Vec<u8>>, options: &RequestOptions) -> (r:
        Result<Hop, ImpitError>)
        ensures
            begin_view(r) == first_hop(
                method,
                url@,
                parsed_url(url@),
                body_view(body),
                options.http3_prior_knowledge,
                self@.http3,
            ),
    {
        begin(method, url, body, options, self.http3)
    }

    /// Decides what follows a response, by the redirect policy of the
    /// client.
    pub fn next_step(&self, hop: Hop, status: u16, location: Option<String>) -> (r: Step)
        ensures
            r@ == step_after(
                self@.redirect,
                hop@,
                status,
                text_view(location),
                resolved_location(self@.redirect, hop@, status, text_view(location)),
            ),
    {
        next_step(self.redirect, hop, status, location)
    }

    /// The headers of one exchange: those of [`ClientConfig::request_headers`]
    /// with the cookie that comes of the store's answer for the URL of the
    /// exchange, if that answer can be sent. Fails on the first header that
    /// cannot be sent. The store is only read, and it is not even read
    /// where the caller keeps the cookies.
    pub fn exchange_headers<S: CookieStore>(&self, store: &S, hop: &Hop, options: &RequestOptions) -> (r:
        Result<Vec<(String, String)>, ImpitError>)
        ensures
            exists|cookie: Option<Seq<char>>|
                (self@.cookies == CookieHandling::Delegated ==> cookie.is_none()) && (self@.cookies
                    == CookieHandling::Store ==> cookie_from(store, hop@.url, cookie)) && (match r {
                    Ok(list) => list.deep_view() == #[trigger] with_cookie(
                        transmitted(
                            options.headers.deep_view() + self@.headers + fingerprint_headers(
                                self@,
                            ),
                        ),
                        cookie,
                    ) && first_rejected(list.deep_view()).is_none(),
                    Err(e) => first_rejected(
                        with_cookie(
                            transmitted(
                                options.headers.deep_view() + self@.headers + fingerprint_headers(
                                    self@,
                                ),
                            ),
                            cookie,
                        ),
                    ) == Some(e@),
                }),
    {
        let base = self.request_headers(options);
        let cookie = cookies_for(self.cookies, store, hop.url.as_str());
        let ghost plain = base.deep_view();
        let ghost answer = cookie.deep_view();
        let all = attach_cookie(base, cookie);
        assert(all.deep_view() == with_cookie(plain, answer));
        match validate(&all) {
            Ok(_) => Ok(all),
            Err(e) => Err(e),
        }
    }

    /// Takes in a response: its cookies are handed to the store first, for
    /// the URL of the exchange, and then it is decided what follows, as
    /// [`ClientConfig::next_step`] does. The store is left as it is where
    /// the caller keeps the cookies and where the response set none.
    pub fn advance<S: CookieStore>(
        &self,
        store: &mut S,
        hop: Hop,
        status: u16,
        location: Option<String>,
        set_cookie: &Vec<String>,
    ) -> (r: Step)
        ensures
            r@ == step_after(
                self@.redirect,
                hop@,
                status,
                text_view(location),
                resolved_location(self@.redirect, hop@, status, text_view(location)),
            ),
            self@.cookies == CookieHandling::Delegated || set_cookie.len() == 0 ==> *final(store)
                == *old(store),
            self@.cookies == CookieHandling::Store && set_cookie.len() > 0 ==> exists|
                handle: &mut S,
                told: &str,
            |
                *handle == *old(store) && *final(handle) == *final(store) && told@ == hop@.url
                    && #[trigger] call_ensures(S::set_cookies, (handle, set_cookie, told), ()),
    {
        commit_cookies(self.cookies, store, set_cookie, hop.url.as_str());
        next_step(self.redirect, hop, status, location)
    }

    /// The same client without impersonation, for the second try of a
    /// request: it has no browser and no fingerprint, so the TLS engine is
    /// left as it is and no header of a browser is sent, and it does not
    /// fall back again.
    pub fn vanilla(&self) -> (r: ClientConfig)
        ensures
            r@ == (ClientView {
                browser: None,
                fingerprint: None,
                vanilla_fallback: false,
                ..self@
            }),
            r.tls_model() == settings_of(None, self@.ignore_tls_errors, ceiling_of(self@.http3)),
    {
        let ceiling = if self.http3 {
            HttpVersionCeiling::Http3
        } else {
            HttpVersionCeiling::Http2
        };
        ClientConfig {
            browser: None,
            fingerprint: None,
            tls: tls_settings(None, self.ignore_tls_errors, ceiling),
            ignore_tls_errors: self.ignore_tls_errors,
            vanilla_fallback: false,
            proxy_url: match &self.proxy_url {
                Some(proxy) => Some(proxy.clone()),
                None => None,
            },
            request_timeout: self.request_timeout,
            http3: self.http3,
            redirect: self.redirect,
            headers: clone_headers(&self.headers),
            local_address: self.local_address,
            cookies: self.cookies,
        }
    }

    /// Whether a request that failed with the given error is tried once
    /// more without impersonation: only where the client allows it, only
    /// where it impersonates a browser, and only after a failure to
    /// connect.
    pub fn falls_back_on(&self, error: &ImpitError) -> (r: bool)
        ensures
            r == (self@.vanilla_fallback && self@.fingerprint.is_some()
                && error@ is ConnectError),
    {
        let connect = match error {
            ImpitError::ConnectError(_) => true,
            _ => false,
        };
        self.vanilla_fallback && self.fingerprint.is_some() && connect
    }
}

/// The options of a client as a caller gives them, every one optional.
#[derive(Clone, Debug, Default, PartialEq, Eq)]
pub struct ImpitOptions {
    pub browser: Option<Browser>,
    pub ignore_tls_errors: Option<bool>,
    pub vanilla_fallback: Option<bool>,
    pub proxy_url: Option<String>,
    /// Default timeout for this client in milliseconds.
    pub timeout: Option<u32>,
    /// Enable HTTP/3 support.
    pub http3: Option<bool>,
    /// Follow redirects.
    pub follow_redirects: Option<bool>,
    /// Maximum number of redirects to follow. Default is `10`.
    pub max_redirects: Option<u32>,
}

/// The configuration that a set of options stands for: what is given
/// replaces the default, and redirects are followed unless that is switched
/// off.
pub open spec fn options_client(options: ImpitOptions) -> ClientView {
    ClientView {
        browser: options.browser,
        ignore_tls_errors: options.ignore_tls_errors == Some(true),
        vanilla_fallback: options.vanilla_fallback == Some(true),
        proxy_url: match options.proxy_url {
            Some(p) => Some(p@),
            None => None,
        },
        request_timeout: match options.timeout {
            Some(t) => Some(t as u64),
            None => None,
        },
        http3: options.http3 == Some(true),
        redirect: if options.follow_redirects == Some(false) {
            RedirectPolicy::Manual
        } else {
            RedirectPolicy::Follow(
                match options.max_redirects {
                    Some(max) => max as usize,
                    None => DEFAULT_MAX_REDIRECTS,
                },
            )
        },
        ..default_client()
    }
}

impl ImpitOptions {
    /// The builder that these options stand for.
    pub fn into_builder(self) -> (r: ImpitBuilder)
        ensures
            r@ == options_client(self),
    {
        let mut config = ImpitBuilder::default();
        if let Some(browser) = self.browser {
            config = config.with_browser(browser);
        }
        if let Some(ignore_tls_errors) = self.ignore_tls_errors {
            config = config.with_ignore_tls_errors(ignore_tls_errors);
        }
        if let Some(vanilla_fallback) = self.vanilla_fallback {
            config = config.with_fallback_to_vanilla(vanilla_fallback);
        }
        if let Some(proxy_url) = self.proxy_url {
            config = config.with_proxy(proxy_url);
        }
        if let Some(timeout) = self.timeout {
            config = config.with_default_timeout(timeout as u64);
        }
        if let Some(http3) = self.http3 {
            if http3 {
                config = config.with_http3();
            }
        }
        config.with_redirect(redirect_policy(self.follow_redirects, self.max_redirects))
    }
}

/// HTTP/3 and a proxy exclude each other: a builder that holds both builds
/// no client, whatever else it holds and whatever the proxy URL is.
pub proof fn lemma_http3_excludes_proxy(client: ClientView, proxy_parsed: Option<TargetView>)
    requires
        client.http3,
        client.proxy_url.is_some(),
    ensures
        build_outcome(client, proxy_parsed) == Err::<(ClientView, TlsSettingsView), ErrorView>(
            ErrorView::Http3WithProxy,
        ),
{
}

} // verus!

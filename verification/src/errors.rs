//! The errors of the client, and the classes they fall into.

use vstd::prelude::*;

verus! {

/// The class of an error: whether the caller has to fix what was passed in,
/// or whether trying again may help.
#[derive(Clone, Copy, Debug, PartialEq, Eq, Hash, Structural)]
pub enum ErrorClass {
    /// The request itself is wrong; nothing was sent.
    Input,
    /// The client could not be built from its configuration.
    Configuration,
    /// The request ran into a policy of the client.
    Policy,
    /// The exchange failed on the network or while the body was read.
    Transport,
    /// The server answered with an error status.
    Status,
}

/// Everything that can go wrong while a client is built or a request runs.
#[derive(Clone, Debug, PartialEq, Eq)]
pub enum ImpitError {
    /// The URL has no hostname.
    UrlMissingHostnameError(String),
    /// The URL's scheme is neither `http` nor `https`.
    UrlProtocolError(String),
    /// The text is no URL.
    UrlParsingError(String),
    /// The method name is none of the eight that are supported.
    InvalidMethod(String),
    /// A header name that cannot be sent.
    InvalidHeaderName(String),
    /// A header value that cannot be sent.
    InvalidHeaderValue(String),
    /// A body was given with a method that carries none.
    BodyNotAllowed,
    /// The body is neither bytes nor a form.
    UnsupportedBody(String),
    /// The proxy URL is malformed or has an unsupported scheme.
    ProxyError(String),
    /// The address to bind to is no IP address.
    InvalidLocalAddress(String),
    /// HTTP/3 cannot go through a proxy.
    Http3WithProxy,
    /// The cookie store could not be set up.
    CookieStoreError(String),
    /// HTTP/3 was asked for, but the client was built without it.
    Http3Disabled,
    /// The redirect limit was reached.
    TooManyRedirects,
    /// The connection or the TLS handshake failed.
    ConnectError(String),
    /// The deadline passed.
    TimeoutError,
    /// The body was read before.
    StreamAlreadyConsumed,
    /// The body was closed before it was read.
    StreamClosed,
    /// The caller aborted the transfer.
    Aborted,
    /// The transfer broke off.
    NetworkError,
    /// The server answered with a status of 400 or above.
    HTTPStatusError(u16),
}

/// Model of an [`ImpitError`]: the same cases over sequences of characters.
pub enum ErrorView {
    UrlMissingHostnameError(Seq<char>),
    UrlProtocolError(Seq<char>),
    UrlParsingError(Seq<char>),
    InvalidMethod(Seq<char>),
    InvalidHeaderName(Seq<char>),
    InvalidHeaderValue(Seq<char>),
    BodyNotAllowed,
    UnsupportedBody(Seq<char>),
    ProxyError(Seq<char>),
    InvalidLocalAddress(Seq<char>),
    Http3WithProxy,
    CookieStoreError(Seq<char>),
    Http3Disabled,
    TooManyRedirects,
    ConnectError(Seq<char>),
    TimeoutError,
    StreamAlreadyConsumed,
    StreamClosed,
    Aborted,
    NetworkError,
    HTTPStatusError(u16),
}

impl View for ImpitError {
    type V = ErrorView;

    open spec fn view(&self) -> ErrorView {
        match self {
            ImpitError::UrlMissingHostnameError(s) => ErrorView::UrlMissingHostnameError(s@),
            ImpitError::UrlProtocolError(s) => ErrorView::UrlProtocolError(s@),
            ImpitError::UrlParsingError(s) => ErrorView::UrlParsingError(s@),
            ImpitError::InvalidMethod(s) => ErrorView::InvalidMethod(s@),
            ImpitError::InvalidHeaderName(s) => ErrorView::InvalidHeaderName(s@),
            ImpitError::InvalidHeaderValue(s) => ErrorView::InvalidHeaderValue(s@),
            ImpitError::BodyNotAllowed => ErrorView::BodyNotAllowed,
            ImpitError::UnsupportedBody(s) => ErrorView::UnsupportedBody(s@),
            ImpitError::ProxyError(s) => ErrorView::ProxyError(s@),
            ImpitError::InvalidLocalAddress(s) => ErrorView::InvalidLocalAddress(s@),
            ImpitError::Http3WithProxy => ErrorView::Http3WithProxy,
            ImpitError::CookieStoreError(s) => ErrorView::CookieStoreError(s@),
            ImpitError::Http3Disabled => ErrorView::Http3Disabled,
            ImpitError::TooManyRedirects => ErrorView::TooManyRedirects,
            ImpitError::ConnectError(s) => ErrorView::ConnectError(s@),
            ImpitError::TimeoutError => ErrorView::TimeoutError,
            ImpitError::StreamAlreadyConsumed => ErrorView::StreamAlreadyConsumed,
            ImpitError::StreamClosed => ErrorView::StreamClosed,
            ImpitError::Aborted => ErrorView::Aborted,
            ImpitError::NetworkError => ErrorView::NetworkError,
            ImpitError::HTTPStatusError(code) => ErrorView::HTTPStatusError(*code),
        }
    }
}

/// The class of each error.
pub open spec fn class_of(error: ErrorView) -> ErrorClass {
    match error {
        ErrorView::UrlMissingHostnameError(_) => ErrorClass::Input,
        ErrorView::UrlProtocolError(_) => ErrorClass::Input,
        ErrorView::UrlParsingError(_) => ErrorClass::Input,
        ErrorView::InvalidMethod(_) => ErrorClass::Input,
        ErrorView::InvalidHeaderName(_) => ErrorClass::Input,
        ErrorView::InvalidHeaderValue(_) => ErrorClass::Input,
        ErrorView::BodyNotAllowed => ErrorClass::Input,
        ErrorView::UnsupportedBody(_) => ErrorClass::Input,
        ErrorView::ProxyError(_) => ErrorClass::Configuration,
        ErrorView::InvalidLocalAddress(_) => ErrorClass::Configuration,
        ErrorView::Http3WithProxy => ErrorClass::Configuration,
        ErrorView::CookieStoreError(_) => ErrorClass::Configuration,
        ErrorView::Http3Disabled => ErrorClass::Policy,
        ErrorView::TooManyRedirects => ErrorClass::Policy,
        ErrorView::ConnectError(_) => ErrorClass::Transport,
        ErrorView::TimeoutError => ErrorClass::Transport,
        ErrorView::StreamAlreadyConsumed => ErrorClass::Transport,
        ErrorView::StreamClosed => ErrorClass::Transport,
        ErrorView::Aborted => ErrorClass::Transport,
        ErrorView::NetworkError => ErrorClass::Transport,
        ErrorView::HTTPStatusError(_) => ErrorClass::Status,
    }
}

impl ImpitError {
    /// The class of this error.
    pub fn class(&self) -> (r: ErrorClass)
        ensures
            r == class_of(self@),
    {
        match self {
            ImpitError::UrlMissingHostnameError(_) => ErrorClass::Input,
            ImpitError::UrlProtocolError(_) => ErrorClass::Input,
            ImpitError::UrlParsingError(_) => ErrorClass::Input,
            ImpitError::InvalidMethod(_) => ErrorClass::Input,
            ImpitError::InvalidHeaderName(_) => ErrorClass::Input,
            ImpitError::InvalidHeaderValue(_) => ErrorClass::Input,
            ImpitError::BodyNotAllowed => ErrorClass::Input,
            ImpitError::UnsupportedBody(_) => ErrorClass::Input,
            ImpitError::ProxyError(_) => ErrorClass::Configuration,
            ImpitError::InvalidLocalAddress(_) => ErrorClass::Configuration,
            ImpitError::Http3WithProxy => ErrorClass::Configuration,
            ImpitError::CookieStoreError(_) => ErrorClass::Configuration,
            ImpitError::Http3Disabled => ErrorClass::Policy,
            ImpitError::TooManyRedirects => ErrorClass::Policy,
            ImpitError::ConnectError(_) => ErrorClass::Transport,
            ImpitError::TimeoutError => ErrorClass::Transport,
            ImpitError::StreamAlreadyConsumed => ErrorClass::Transport,
            ImpitError::StreamClosed => ErrorClass::Transport,
            ImpitError::Aborted => ErrorClass::Transport,
            ImpitError::NetworkError => ErrorClass::Transport,
            ImpitError::HTTPStatusError(_) => ErrorClass::Status,
        }
    }

    /// Whether sending the same request again may succeed: true of the
    /// transport errors and of no other.
    pub fn may_succeed_on_retry(&self) -> (r: bool)
        ensures
            r == (class_of(self@) == ErrorClass::Transport),
    {
        match self.class() {
            ErrorClass::Transport => true,
            _ => false,
        }
    }

    /// Whether the error was found before anything was sent, in what the
    /// caller passed in.
    pub fn is_invalid_argument(&self) -> (r: bool)
        ensures
            r == (class_of(self@) == ErrorClass::Input),
    {
        match self.class() {
            ErrorClass::Input => true,
            _ => false,
        }
    }
}

} // verus!

//! The data that crosses the boundary of the core, each with its
//! mathematical view.

use vstd::prelude::*;
use vstd::string::StringExecFns;

verus! {

/// One candidate request header. A header that is not `enabled` has no effect
/// on the outgoing request.
#[derive(Debug, Clone, PartialEq, Eq)]
pub struct HttpHeader {
    pub key: String,
    pub value: String,
    pub enabled: bool,
}

/// What a contract sees of an `HttpHeader`.
pub ghost struct HeaderView {
    pub key: Seq<char>,
    pub value: Seq<char>,
    pub enabled: bool,
}

impl View for HttpHeader {
    type V = HeaderView;

    open spec fn view(&self) -> HeaderView {
        HeaderView { key: self.key@, value: self.value@, enabled: self.enabled }
    }
}

/// The views of a list of headers.
pub open spec fn header_views(headers: Seq<HttpHeader>) -> Seq<HeaderView> {
    headers.map_values(|h: HttpHeader| h@)
}

/// The descriptor of one HTTP request, as the user wrote it.
#[derive(Debug, Clone, PartialEq, Eq)]
pub struct HttpRequest {
    pub method: String,
    pub url: String,
    pub headers: Vec<HttpHeader>,
    pub body: String,
}

/// What a contract sees of an `HttpRequest`.
pub ghost struct RequestView {
    pub method: Seq<char>,
    pub url: Seq<char>,
    pub headers: Seq<HeaderView>,
    pub body: Seq<char>,
}

impl View for HttpRequest {
    type V = RequestView;

    open spec fn view(&self) -> RequestView {
        RequestView {
            method: self.method@,
            url: self.url@,
            headers: header_views(self.headers@),
            body: self.body@,
        }
    }
}

/// The methods that the core sends.
#[derive(Debug, Clone, Copy, PartialEq, Eq, Structural)]
pub enum HttpMethod {
    Get,
    Post,
    Put,
    Patch,
    Delete,
    Head,
    Options,
}

/// Why a call failed. Each variant carries a human-readable detail.
#[derive(Debug, Clone, PartialEq, Eq)]
pub enum HttpClientError {
    /// The transport failed, or the body could not be read.
    RequestError(String),
    /// The URL of the descriptor is empty.
    InvalidUrl(String),
    /// An enabled header has an illegal name or value.
    InvalidHeader(String),
}

/// What a contract sees of an `HttpClientError`.
pub ghost enum ErrorView {
    RequestError(Seq<char>),
    InvalidUrl(Seq<char>),
    InvalidHeader(Seq<char>),
}

impl View for HttpClientError {
    type V = ErrorView;

    open spec fn view(&self) -> ErrorView {
        match self {
            HttpClientError::RequestError(d) => ErrorView::RequestError(d@),
            HttpClientError::InvalidUrl(d) => ErrorView::InvalidUrl(d@),
            HttpClientError::InvalidHeader(d) => ErrorView::InvalidHeader(d@),
        }
    }
}

impl ErrorView {
    /// The detail that the error carries.
    pub open spec fn detail(self) -> Seq<char> {
        match self {
            ErrorView::RequestError(text) => text,
            ErrorView::InvalidUrl(text) => text,
            ErrorView::InvalidHeader(text) => text,
        }
    }

    /// The sentence that names the kind of the error.
    pub open spec fn kind(self) -> Seq<char> {
        match self {
            ErrorView::RequestError(_) => "Request failed: "@,
            ErrorView::InvalidUrl(_) => "Invalid URL: "@,
            ErrorView::InvalidHeader(_) => "Invalid header: "@,
        }
    }

    /// The error as one line of text: its kind, then its detail.
    pub open spec fn message(self) -> Seq<char> {
        self.kind() + self.detail()
    }
}

impl HttpClientError {
    /// The error as one line of text, for display.
    pub fn to_string(&self) -> (line: String)
        ensures
            line@ == self@.message(),
    {
        match self {
            HttpClientError::RequestError(detail) => String::from_str("Request failed: ").concat(
                detail.as_str(),
            ),
            HttpClientError::InvalidUrl(detail) => String::from_str("Invalid URL: ").concat(
                detail.as_str(),
            ),
            HttpClientError::InvalidHeader(detail) => String::from_str("Invalid header: ").concat(
                detail.as_str(),
            ),
        }
    }
}

} // verus!

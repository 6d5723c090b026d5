//! Requests and response heads, as plain values around their header maps.

use vstd::prelude::*;
use http::{HeaderMap, HeaderValue};
use crate::headers::fields;

verus! {

/// A request method.
#[derive(Clone, Copy, Debug, PartialEq, Eq, Structural)]
pub enum Method {
    Options,
    Get,
    Post,
    Put,
    Delete,
    Head,
    Trace,
    Connect,
    Patch,
}

/// A protocol version.
#[derive(Clone, Copy, Debug, PartialEq, Eq, Structural)]
pub enum Version {
    Http09,
    Http10,
    Http11,
    Http2,
    Http3,
}

/// A request: what to ask, from where, with which headers and body.  The
/// library carries the body of a request and never looks into it.
#[derive(Debug)]
pub struct Request<B> {
    pub method: Method,
    pub uri: String,
    pub headers: HeaderMap<HeaderValue>,
    pub body: B,
}

/// The head of a response: status, headers and protocol version.
#[derive(Debug)]
pub struct Parts {
    pub status: u16,
    pub version: Version,
    pub headers: HeaderMap<HeaderValue>,
}

/// The head of a response as the contracts see it.
pub struct PartsView {
    pub status: u16,
    pub version: Version,
    pub headers: Map<Seq<char>, Seq<Seq<u8>>>,
}

impl View for Parts {
    type V = PartsView;

    open spec fn view(&self) -> PartsView {
        PartsView { status: self.status, version: self.version, headers: fields(self.headers) }
    }
}

/// The host that the URI `uri` names: what `http::Uri::host` gives for the
/// URI that the text parses to.  Nothing where the text is no URI or the
/// URI has no authority.
pub uninterp spec fn host_of(uri: Seq<char>) -> Option<Seq<char>>;

/// The view of a text that may be missing.
pub open spec fn host_view(host: Option<String>) -> Option<Seq<char>> {
    match host {
        Some(text) => Some(text@),
        None => None,
    }
}

/// Parses `uri` with `http::Uri::from_str` and asks the URI for its host
/// with `http::Uri::host`.
#[verifier::external_body]
pub(crate) fn uri_host(uri: &str) -> (r: Option<String>)
    ensures
        host_view(r) == host_of(uri@),
{
    match uri.parse::<http::Uri>() {
        Ok(parsed) => parsed.host().map(|host| host.to_string()),
        Err(_) => None,
    }
}

} // verus!

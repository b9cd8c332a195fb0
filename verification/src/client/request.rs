use crate::api::metadata::Method;
use crate::client::headers::{header_map, new_headers, no_headers};
use azure_core::http::headers::Headers;
use azure_core::http::Url;
use bytes::Bytes;
use vstd::prelude::*;

verus! {

/// An HTTP request as the engine hands it to whoever sends it.
#[derive(Debug)]
pub struct Request {
    pub method: Method,
    pub url: Url,
    pub headers: Headers,
    pub body: Option<Bytes>,
}

impl Request {
    /// Whether this is a request without headers and without a body.
    pub open spec fn is_bare(&self, method: Method, url: Url) -> bool {
        &&& self.method == method
        &&& self.url == url
        &&& header_map(self.headers) == no_headers()
        &&& self.body is None
    }

    /// A request without headers and without a body.
    pub fn new(url: Url, method: Method) -> (r: Request)
        ensures
            r.is_bare(method, url),
    {
        Request { method, url, headers: new_headers(), body: None }
    }

    /// A bare GET of `url`.
    pub fn get(url: Url) -> (r: Request)
        ensures
            r.is_bare(Method::Get, url),
    {
        Request::new(url, Method::Get)
    }
}

} // verus!

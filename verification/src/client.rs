pub mod headers;
pub mod poller;
pub mod request;
pub mod response;
pub mod time;
pub mod url;

use crate::api::metadata::Method;
use headers::{header_map, insert_header, is_plain_name, new_headers, no_headers};
use poller::Poller;
use request::Request;
use response::{agrees, plain_error, Error, ErrorKind, ErrorView, Response};
use url::{join_url, parse_url, url_join, url_parse, url_with_query_pair, with_query_pair};
use azure_core::http::Url;
use bytes::Bytes;
use vstd::prelude::*;

verus! {

/// Makes the requests to one service and decides what follows their first response.
#[derive(Debug)]
pub struct Client {
    pub endpoint: Url,
}

/// The headers of a request: JSON is asked for, and JSON is announced where
/// the request has a body.
pub open spec fn request_headers(with_body: bool) -> Map<Seq<char>, Seq<char>> {
    let accept = no_headers().insert("accept"@, "application/json"@);
    if with_body {
        accept.insert("content-type"@, "application/json"@)
    } else {
        accept
    }
}

/// Whether an operation with this method may go on after its first response.
pub open spec fn spec_may_be_long_running(method: Method) -> bool {
    method == Method::Put || method == Method::Post || method == Method::Delete || method
        == Method::Patch
}

/// Whether an operation with this method may go on after its first response.
#[verifier::when_used_as_spec(spec_may_be_long_running)]
pub fn may_be_long_running(method: Method) -> (r: bool)
    ensures
        r == spec_may_be_long_running(method),
{
    match method {
        Method::Put | Method::Post | Method::Delete | Method::Patch => true,
        _ => false,
    }
}

impl Client {
    /// The client for the service at `endpoint`, or the reason why there is none.
    pub open spec fn created(endpoint: Seq<char>) -> Result<Client, ErrorView> {
        match url_parse(endpoint) {
            Some(url) => Ok(Client { endpoint: url }),
            None => Err(plain_error(ErrorKind::Transport, "the endpoint is not a URL"@)),
        }
    }

    /// The client for the service at `endpoint`.
    pub fn new(endpoint: &str) -> (r: Result<Client, Error>)
        ensures
            agrees(r, Client::created(endpoint@)),
    {
        match parse_url(endpoint) {
            Some(url) => Ok(Client { endpoint: url }),
            None => Err(Error::new(ErrorKind::Transport, "the endpoint is not a URL")),
        }
    }

    /// The URL of the request for `api_path` in the version `api_version`: the
    /// path joined to the endpoint, with the version as the query pair
    /// `api-version`. None where the path does not join.
    pub open spec fn request_url(&self, api_path: Seq<char>, api_version: Seq<char>) -> Option<
        Url,
    > {
        match url_join(self.endpoint, api_path) {
            Some(url) => Some(url_with_query_pair(url, "api-version"@, api_version)),
            None => None,
        }
    }

    /// The request for `api_path` in the version `api_version`, with `body` as
    /// its JSON body where there is one.
    pub fn request(
        &self,
        method: Method,
        api_path: &str,
        api_version: &str,
        body: Option<Bytes>,
    ) -> (r: Result<Request, Error>)
        ensures
            match self.request_url(api_path@, api_version@) {
                Some(url) => {
                    &&& r matches Ok(q)
                    &&& q.method == method
                    &&& q.url == url
                    &&& header_map(q.headers) == request_headers(body is Some)
                    &&& q.body == body
                },
                None => r matches Err(e) && e@ == plain_error(
                    ErrorKind::Transport,
                    "the path does not join the endpoint to a URL"@,
                ),
            },
    {
        let joined = match join_url(&self.endpoint, api_path) {
            Some(url) => url,
            None => {
                return Err(
                    Error::new(
                        ErrorKind::Transport,
                        "the path does not join the endpoint to a URL",
                    ),
                );
            },
        };
        let url = with_query_pair(joined, "api-version", api_version);
        let mut headers = new_headers();
        proof {
            reveal_strlit("accept");
            reveal_strlit("content-type");
            assert(is_plain_name("accept"@));
            assert(is_plain_name("content-type"@));
        }
        insert_header(&mut headers, "accept", "application/json");
        if body.is_some() {
            insert_header(&mut headers, "content-type", "application/json");
        }
        Ok(Request { method, url, headers, body })
    }

    /// The driver for what follows the first response `resp` to `req`, where
    /// anything follows: the method is one of PUT, POST, PATCH and DELETE,
    /// and a way of polling is chosen for the response. Where there is none,
    /// `resp` is the result as it is.
    pub open spec fn started(req: Request, resp: Response) -> Option<Poller> {
        if may_be_long_running(req.method) {
            match Poller::created(req, resp, Poller::no_options()) {
                Ok(p) => Some(p),
                Err(_) => None,
            }
        } else {
            None
        }
    }

    /// Decides what follows the first response `resp` to the request `req`:
    /// the driver to drive to its end, or nothing, and then `resp` is the result.
    pub fn run(&self, req: &Request, resp: &Response) -> (r: Option<Poller>)
        ensures
            r == Client::started(*req, *resp),
            r matches Some(p) ==> p.final_state_fits(),
    {
        if !may_be_long_running(req.method) {
            return None;
        }
        match Poller::new(req, resp, None) {
            Ok(p) => Some(p),
            Err(_) => None,
        }
    }
}

} // verus!

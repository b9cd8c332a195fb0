use crate::client::request::Request;
use crate::client::response::{Error, Response};
use vstd::prelude::*;

verus! {

/// Stands for an operation that was finished when its first response came.
#[derive(Debug)]
pub struct Poller {
    /// The first response.
    pub resp: Response,
}

impl Poller {
    /// The handler for the first response `resp`.
    pub fn new(resp: &Response) -> (r: Poller)
        ensures
            r.resp == *resp,
    {
        Poller { resp: resp.clone() }
    }

    /// Every response allows this way of polling.
    pub fn applicable(req: &Request, resp: &Response) -> (r: bool)
        ensures
            r,
    {
        true
    }

    /// The operation is done from the start.
    pub open spec fn spec_done(&self) -> bool {
        true
    }

    /// The operation is done from the start.
    #[verifier::when_used_as_spec(spec_done)]
    pub fn done(&self) -> (r: bool)
        ensures
            r == self.spec_done(),
    {
        true
    }

    /// No poll is ever sent.
    pub fn poll_request(&self) -> (r: Option<Request>)
        ensures
            r is None,
    {
        None
    }

    /// Returns the first response, whatever `reply` is.
    pub fn poll(&mut self, reply: Response) -> (r: Result<Response, Error>)
        ensures
            *final(self) == *old(self),
            r matches Ok(out) && out == old(self).resp,
    {
        Ok(self.resp.clone())
    }

    /// No final GET is made.
    pub fn result_request(&self) -> (r: Option<Request>)
        ensures
            r is None,
    {
        None
    }

    /// The result is the first response.
    pub fn result(&self) -> (r: Result<Response, Error>)
        ensures
            r matches Ok(out) && out == self.resp,
    {
        Ok(self.resp.clone())
    }
}

} // verus!

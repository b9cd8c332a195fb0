use crate::api::metadata::Method;
use crate::client::headers::lemma_protocol_names_are_lower;
use crate::client::poller::utils::{
    get_header_url, get_initial_state, get_lro_status, get_required_header_url,
    get_resource_location, has_header, header_present, header_url, helper_outcome, initial_state,
    is_valid_status_code, lro_status_of, required_header_url, resource_location_of,
    result_helper, yields, FinalStateVia, LROStatus, Outcome,
};
use crate::client::request::Request;
use crate::client::response::{
    agrees, bytes_seq, plain_error, response_error, Error, ErrorKind, ErrorView, Response,
};
use crate::text::opt_text;
use crate::client::url::clone_url;
use azure_core::http::Url;
use vstd::prelude::*;

verus! {

/// Polls the URL that the header `operation-location` of the first response gave.
#[derive(Debug)]
pub struct Poller {
    /// The response of the last call, the first or a poll.
    pub resp: Response,
    /// The URL from the header `operation-location`.
    pub op_loc_url: Url,
    /// The URL from the header `location`, if the first response had one.
    pub loc_url: Option<Url>,
    /// The URL of the request that started the operation.
    pub origin_url: Url,
    /// The method of the request that started the operation.
    pub method: Method,
    /// Where the service description says the final state is found.
    pub final_state: Option<FinalStateVia>,
    /// The member of the final response that holds the result, where the
    /// result comes inside the response.
    pub result_path: Option<String>,
    /// The state of the operation as last seen.
    pub cur_state: LROStatus,
}

impl Poller {
    /// The handler that the first response `resp` to the request `req` gives,
    /// or the reason why it gives none.
    pub open spec fn created(
        req: Request,
        resp: Response,
        final_state: Option<FinalStateVia>,
        result_path: Option<String>,
    ) -> Result<Poller, ErrorView> {
        match required_header_url(resp, "operation-location"@) {
            Err(e) => Err(e),
            Ok(op_loc_url) => match header_url(resp, "location"@) {
                Err(e) => Err(e),
                Ok(loc_url) => Ok(
                    Poller {
                        resp,
                        op_loc_url,
                        loc_url,
                        origin_url: req.url,
                        method: req.method,
                        final_state,
                        result_path,
                        cur_state: initial_state(resp),
                    },
                ),
            },
        }
    }

    /// The handler for the first response `resp` to the request `req`.
    pub fn new(
        req: &Request,
        resp: Response,
        final_state: Option<FinalStateVia>,
        result_path: Option<String>,
    ) -> (r: Result<Poller, Error>)
        ensures
            agrees(r, Poller::created(*req, resp, final_state, result_path)),
    {
        proof {
            lemma_protocol_names_are_lower();
        }
        let op_loc_url = get_required_header_url(&resp, "operation-location")?;
        let loc_url = get_header_url(&resp, "location")?;
        let cur_state = get_initial_state(&resp);
        Ok(
            Poller {
                resp,
                op_loc_url,
                loc_url,
                origin_url: clone_url(&req.url),
                method: req.method,
                final_state,
                result_path,
                cur_state,
            },
        )
    }

    /// Whether the first response asks for this way of polling.
    pub fn applicable(req: &Request, resp: &Response) -> (r: bool)
        ensures
            r == has_header(*resp, "operation-location"@),
    {
        proof {
            lemma_protocol_names_are_lower();
        }
        header_present(resp, "operation-location")
    }

    /// Whether the operation has reached a terminal state.
    pub open spec fn spec_done(&self) -> bool {
        self.cur_state.is_terminal()
    }

    /// Whether the operation has reached a terminal state.
    #[verifier::when_used_as_spec(spec_done)]
    pub fn done(&self) -> (r: bool)
        ensures
            r == self.spec_done(),
    {
        self.cur_state.is_terminal()
    }

    /// The URL to ask for the state of the operation; none once it is done.
    pub open spec fn poll_url(&self) -> Option<Url> {
        if self.done() {
            None
        } else {
            Some(self.op_loc_url)
        }
    }

    /// The request that the next poll sends; none once the operation is done.
    pub fn poll_request(&self) -> (r: Option<Request>)
        ensures
            match self.poll_url() {
                Some(url) => r matches Some(q) && q.is_bare(Method::Get, url),
                None => r is None,
            },
    {
        if self.done() {
            None
        } else {
            Some(Request::get(clone_url(&self.op_loc_url)))
        }
    }

    /// The handler after the answer `reply` to a poll.
    pub open spec fn after_poll(self, reply: Response) -> Poller {
        if self.done() {
            self
        } else if !is_valid_status_code(reply.status_code) {
            Poller { resp: reply, ..self }
        } else {
            match lro_status_of(bytes_seq(reply.body)) {
                Some(status) => Poller { resp: reply, cur_state: status, ..self },
                None => self,
            }
        }
    }

    /// What a poll returns that was answered with `reply`.
    pub open spec fn poll_outcome(self, reply: Response) -> Result<Response, ErrorView> {
        if self.done() {
            Ok(self.resp)
        } else if !is_valid_status_code(reply.status_code) {
            Err(response_error(ErrorKind::Protocol, "invalid response status code"@, reply))
        } else {
            match lro_status_of(bytes_seq(reply.body)) {
                Some(_) => Ok(reply),
                None => Err(
                    response_error(
                        ErrorKind::Protocol,
                        "the response did not contain a status"@,
                        reply,
                    ),
                ),
            }
        }
    }

    /// Takes the answer to the request of `poll_request`. Once the operation is
    /// done nothing changes and the response of the last call is returned.
    pub fn poll(&mut self, reply: Response) -> (r: Result<Response, Error>)
        ensures
            *final(self) == old(self).after_poll(reply),
            agrees(r, old(self).poll_outcome(reply)),
    {
        if self.done() {
            return Ok(self.resp.clone());
        }
        if !is_valid_status_code(reply.status_code) {
            self.resp = reply.clone();
            return Err(
                Error::from_response(ErrorKind::Protocol, "invalid response status code", reply),
            );
        }
        match get_lro_status(&reply) {
            Some(status) => {
                self.cur_state = status;
                self.resp = reply.clone();
                Ok(reply)
            },
            None => Err(
                Error::from_response(
                    ErrorKind::Protocol,
                    "the response did not contain a status",
                    reply,
                ),
            ),
        }
    }

    /// The URL of the final GET that the method of the first request asks
    /// for: its own URL after PUT and PATCH, the location that the first
    /// response gave after POST, none after other methods.
    pub open spec fn method_final_get(&self) -> Option<Url> {
        match self.method {
            Method::Put | Method::Patch => Some(self.origin_url),
            Method::Post => self.loc_url,
            _ => None,
        }
    }

    /// The URL of the final GET, where the operation has succeeded and one is
    /// to be made. The location that the first response gave comes first,
    /// where the final state is said to be found by it; then the resource
    /// location that the last response reports; then what the method asks for.
    pub open spec fn final_get(&self) -> Result<Option<Url>, ErrorView> {
        if !self.cur_state.is_succeeded() {
            Ok(None)
        } else if self.final_state == Some(FinalStateVia::Location) && self.loc_url is Some {
            Ok(self.loc_url)
        } else {
            match resource_location_of(self.resp) {
                Err(e) => Err(e),
                Ok(Some(url)) => Ok(Some(url)),
                Ok(None) => Ok(self.method_final_get()),
            }
        }
    }

    /// The URL of the final GET, where one is to be made.
    fn final_url(&self) -> (r: Result<Option<Url>, Error>)
        ensures
            agrees(r, self.final_get()),
    {
        if !self.cur_state.is_succeeded() {
            return Ok(None);
        }
        if let Some(FinalStateVia::Location) = self.final_state {
            if let Some(url) = &self.loc_url {
                return Ok(Some(clone_url(url)));
            }
        }
        if let Some(url) = get_resource_location(&self.resp)? {
            return Ok(Some(url));
        }
        match self.method {
            Method::Put | Method::Patch => Ok(Some(clone_url(&self.origin_url))),
            Method::Post => match &self.loc_url {
                Some(url) => Ok(Some(clone_url(url))),
                None => Ok(None),
            },
            _ => Ok(None),
        }
    }

    /// The request of the final GET, where one is to be made.
    pub fn result_request(&self) -> (r: Option<Request>)
        ensures
            match self.final_get() {
                Ok(Some(url)) => r matches Some(q) && q.is_bare(Method::Get, url),
                _ => r is None,
            },
    {
        match self.final_url() {
            Ok(Some(url)) => Some(Request::get(url)),
            _ => None,
        }
    }

    /// The result of the operation, given the answer `reply` to the final GET
    /// where one was to be made: an error before the operation is done and
    /// after it has failed; the response of the last call where no final GET is
    /// made; else what the answer comes to, with the member at the result path
    /// as its body where there is such a path.
    pub open spec fn result_outcome(&self, reply: Option<Response>) -> Outcome {
        if !self.done() {
            Err(plain_error(ErrorKind::Usage, "the operation has not reached a terminal state"@))
        } else if self.cur_state.is_failed() {
            Err(response_error(ErrorKind::TerminalFailure, ""@, self.resp))
        } else {
            match self.final_get() {
                Err(e) => Err(e),
                Ok(None) => Ok((self.resp, None)),
                Ok(Some(_)) => match reply {
                    None => Err(plain_error(ErrorKind::Usage, "the final response is missing"@)),
                    Some(last) => helper_outcome(last, false, opt_text(self.result_path)),
                },
            }
        }
    }

    /// The result of the operation. `reply` is the answer to the request of
    /// `result_request`, where that gave one.
    pub fn result(&self, reply: Option<Response>) -> (r: Result<Response, Error>)
        ensures
            yields(r, self.result_outcome(reply)),
    {
        if !self.done() {
            return Err(
                Error::new(ErrorKind::Usage, "the operation has not reached a terminal state"),
            );
        }
        if self.cur_state.is_failed() {
            return Err(Error::from_response(ErrorKind::TerminalFailure, "", self.resp.clone()));
        }
        match self.final_url() {
            Err(e) => Err(e),
            Ok(None) => Ok(self.resp.clone()),
            Ok(Some(_)) => match reply {
                None => Err(Error::new(ErrorKind::Usage, "the final response is missing")),
                Some(last) => match &self.result_path {
                    Some(path) => result_helper(&last, false, Some(path.as_str())),
                    None => result_helper(&last, false, None),
                },
            },
        }
    }
}

} // verus!

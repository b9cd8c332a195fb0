use crate::api::metadata::Method;
use crate::client::headers::lemma_protocol_names_are_lower;
use crate::client::poller::utils::{
    get_header_url, get_initial_state, get_lro_status, get_required_header_url, has_header,
    header_present, header_url, initial_state, is_valid_status_code, lro_status_of,
    required_header_url, result_helper, yields, helper_outcome, FinalStateVia, LROStatus, Outcome,
};
use crate::client::request::Request;
use crate::client::response::{
    agrees, bytes_seq, plain_error, response_error, Error, ErrorKind, ErrorView, Response,
};
use crate::client::url::clone_url;
use azure_core::http::Url;
use vstd::prelude::*;

verus! {

/// Polls the URL that the header `azure-asyncoperation` of the first response gave.
#[derive(Debug)]
pub struct Poller {
    /// The response of the last call, the first or a poll.
    pub resp: Response,
    /// The URL from the header `azure-asyncoperation`.
    pub async_url: Url,
    /// The URL from the header `location`, if the first response had one.
    pub loc_url: Option<Url>,
    /// The URL of the request that started the operation.
    pub origin_url: Url,
    /// The method of the request that started the operation.
    pub method: Method,
    /// Where the service description says the final state is found.
    pub final_state: Option<FinalStateVia>,
    /// The state of the operation as last seen.
    pub cur_state: LROStatus,
}

impl Poller {
    /// The handler that the first response `resp` to the request `req` gives,
    /// or the reason why it gives none.
    pub open spec fn created(req: Request, resp: Response, final_state: Option<FinalStateVia>) -> Result<
        Poller,
        ErrorView,
    > {
        match required_header_url(resp, "azure-asyncoperation"@) {
            Err(e) => Err(e),
            Ok(async_url) => match header_url(resp, "location"@) {
                Err(e) => Err(e),
                Ok(loc_url) => Ok(
                    Poller {
                        resp,
                        async_url,
                        loc_url,
                        origin_url: req.url,
                        method: req.method,
                        final_state,
                        cur_state: initial_state(resp),
                    },
                ),
            },
        }
    }

    /// The handler for the first response `resp` to the request `req`.
    pub fn new(req: &Request, resp: Response, final_state: Option<FinalStateVia>) -> (r: Result<
        Poller,
        Error,
    >)
        ensures
            agrees(r, Poller::created(*req, resp, final_state)),
    {
        proof {
            lemma_protocol_names_are_lower();
        }
        let async_url = get_required_header_url(&resp, "azure-asyncoperation")?;
        let loc_url = get_header_url(&resp, "location")?;
        let cur_state = get_initial_state(&resp);
        Ok(
            Poller {
                resp,
                async_url,
                loc_url,
                origin_url: clone_url(&req.url),
                method: req.method,
                final_state,
                cur_state,
            },
        )
    }

    /// Whether the first response asks for this way of polling.
    pub fn applicable(req: &Request, resp: &Response) -> (r: bool)
        ensures
            r == has_header(*resp, "azure-asyncoperation"@),
    {
        proof {
            lemma_protocol_names_are_lower();
        }
        header_present(resp, "azure-asyncoperation")
    }

    /// Whether the operation has reached a terminal state.
    pub open spec fn spec_done(&self) -> bool {
        self.cur_state.is_terminal()
    }

    /// Whether the operation has reached a terminal state.
    #[verifier::when_used_as_spec(spec_done)]
    pub fn done(&self) -> (r: bool)
        ensures
            r == self.spec_done(),
    {
        self.cur_state.is_terminal()
    }

    /// The URL to ask for the state of the operation; none once it is done.
    pub open spec fn poll_url(&self) -> Option<Url> {
        if self.done() {
            None
        } else {
            Some(self.async_url)
        }
    }

    /// The request that the next poll sends; none once the operation is done.
    pub fn poll_request(&self) -> (r: Option<Request>)
        ensures
            match self.poll_url() {
                Some(url) => r matches Some(q) && q.is_bare(Method::Get, url),
                None => r is None,
            },
    {
        if self.done() {
            None
        } else {
            Some(Request::get(clone_url(&self.async_url)))
        }
    }

    /// The handler after the answer `reply` to a poll.
    pub open spec fn after_poll(self, reply: Response) -> Poller {
        if self.done() {
            self
        } else if !is_valid_status_code(reply.status_code) {
            Poller { resp: reply, ..self }
        } else {
            match lro_status_of(bytes_seq(reply.body)) {
                Some(status) => Poller { resp: reply, cur_state: status, ..self },
                None => self,
            }
        }
    }

    /// What a poll returns that was answered with `reply`.
    pub open spec fn poll_outcome(self, reply: Response) -> Result<Response, ErrorView> {
        if self.done() {
            Ok(self.resp)
        } else if !is_valid_status_code(reply.status_code) {
            Err(response_error(ErrorKind::Protocol, "invalid response status code"@, reply))
        } else {
            match lro_status_of(bytes_seq(reply.body)) {
                Some(_) => Ok(reply),
                None => Err(
                    response_error(
                        ErrorKind::Protocol,
                        "the response did not contain a status"@,
                        reply,
                    ),
                ),
            }
        }
    }

    /// Takes the answer to the request of `poll_request`. Once the operation is
    /// done nothing changes and the response of the last call is returned.
    pub fn poll(&mut self, reply: Response) -> (r: Result<Response, Error>)
        ensures
            *final(self) == old(self).after_poll(reply),
            agrees(r, old(self).poll_outcome(reply)),
    {
        if self.done() {
            return Ok(self.resp.clone());
        }
        if !is_valid_status_code(reply.status_code) {
            self.resp = reply.clone();
            return Err(
                Error::from_response(ErrorKind::Protocol, "invalid response status code", reply),
            );
        }
        match get_lro_status(&reply) {
            Some(status) => {
                self.cur_state = status;
                self.resp = reply.clone();
                Ok(reply)
            },
            None => Err(
                Error::from_response(
                    ErrorKind::Protocol,
                    "the response did not contain a status",
                    reply,
                ),
            ),
        }
    }

    /// Whether the place named for the final state is one that this way of
    /// polling can serve: after a POST, not `Location` and not `OperationLocation`.
    pub open spec fn spec_final_state_fits(&self) -> bool {
        self.method == Method::Post ==> self.final_state != Some(FinalStateVia::Location)
            && self.final_state != Some(FinalStateVia::OperationLocation)
    }

    /// Whether the place named for the final state is one that this way of
    /// polling can serve.
    #[verifier::when_used_as_spec(spec_final_state_fits)]
    pub fn final_state_fits(&self) -> (r: bool)
        ensures
            r == self.spec_final_state_fits(),
    {
        match self.method {
            Method::Post => match self.final_state {
                Some(FinalStateVia::Location) | Some(FinalStateVia::OperationLocation) => false,
                _ => true,
            },
            _ => true,
        }
    }

    /// The URL of the final GET, where the operation has succeeded and one is
    /// to be made: the URL of the first request after PUT and PATCH; after POST
    /// what the final state is said to be found by, and without such a word the
    /// location that the first response gave; none after other methods.
    pub open spec fn final_get(&self) -> Option<Url> {
        if !self.cur_state.is_succeeded() {
            None
        } else {
            match self.method {
                Method::Put | Method::Patch => Some(self.origin_url),
                Method::Post => match self.final_state {
                    Some(FinalStateVia::OriginalUri) => Some(self.origin_url),
                    Some(_) => None,
                    None => self.loc_url,
                },
                _ => None,
            }
        }
    }

    /// The URL of the final GET, where one is to be made.
    fn final_url(&self) -> (r: Option<Url>)
        requires
            self.final_state_fits(),
        ensures
            r == self.final_get(),
    {
        if !self.cur_state.is_succeeded() {
            return None;
        }
        match self.method {
            Method::Put | Method::Patch => Some(clone_url(&self.origin_url)),
            Method::Post => match self.final_state {
                Some(FinalStateVia::OriginalUri) => Some(clone_url(&self.origin_url)),
                Some(_) => None,
                None => match &self.loc_url {
                    Some(url) => Some(clone_url(url)),
                    None => None,
                },
            },
            _ => None,
        }
    }

    /// The request of the final GET, where one is to be made.
    pub fn result_request(&self) -> (r: Option<Request>)
        requires
            self.final_state_fits(),
        ensures
            match self.final_get() {
                Some(url) => r matches Some(q) && q.is_bare(Method::Get, url),
                None => r is None,
            },
    {
        match self.final_url() {
            Some(url) => Some(Request::get(url)),
            None => None,
        }
    }

    /// The result of the operation, given the answer `reply` to the final GET
    /// where one was to be made: an error before the operation is done and
    /// after it has failed; the response of the last call where no final GET is
    /// made; else what the answer comes to.
    pub open spec fn result_outcome(&self, reply: Option<Response>) -> Outcome {
        if !self.done() {
            Err(plain_error(ErrorKind::Usage, "the operation has not reached a terminal state"@))
        } else if self.cur_state.is_failed() {
            Err(response_error(ErrorKind::TerminalFailure, ""@, self.resp))
        } else if self.final_get() is None {
            Ok((self.resp, None))
        } else {
            match reply {
                None => Err(plain_error(ErrorKind::Usage, "the final response is missing"@)),
                Some(last) => helper_outcome(last, false, None),
            }
        }
    }

    /// The result of the operation. `reply` is the answer to the request of
    /// `result_request`, where that gave one.
    pub fn result(&self, reply: Option<Response>) -> (r: Result<Response, Error>)
        requires
            self.final_state_fits(),
        ensures
            yields(r, self.result_outcome(reply)),
    {
        if !self.done() {
            return Err(
                Error::new(ErrorKind::Usage, "the operation has not reached a terminal state"),
            );
        }
        if self.cur_state.is_failed() {
            return Err(Error::from_response(ErrorKind::TerminalFailure, "", self.resp.clone()));
        }
        if self.final_url().is_none() {
            return Ok(self.resp.clone());
        }
        match reply {
            None => Err(Error::new(ErrorKind::Usage, "the final response is missing")),
            Some(last) => result_helper(&last, false, None),
        }
    }
}

} // verus!

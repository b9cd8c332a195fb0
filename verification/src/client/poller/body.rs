use crate::api::metadata::Method;
use crate::client::poller::utils::{
    get_provisioning_state, helper_outcome, is_valid_status_code, provisioning_state_of,
    result_helper, yields, LROStatus, Outcome,
};
use crate::client::request::Request;
use crate::client::response::{
    agrees, bytes_seq, plain_error, response_error, Error, ErrorKind, ErrorView, Response,
};
use crate::client::url::clone_url;
use azure_core::http::Url;
use vstd::prelude::*;

verus! {

/// Polls the URL of the first request and reads the provisioning state in the
/// body of the answer.
#[derive(Debug)]
pub struct Poller {
    /// The response of the last call, the first or a poll.
    pub resp: Response,
    /// The URL to poll.
    pub poll_url: Url,
    /// The state of the operation as last seen.
    pub cur_state: LROStatus,
}

/// The state in which polling starts after the first response `resp`: on 201
/// the provisioning state of the body and else in progress; on 200 the
/// provisioning state of the body and else succeeded; on 204 succeeded; on
/// any other status code in progress.
pub open spec fn first_state(resp: Response) -> LROStatus {
    let state = provisioning_state_of(bytes_seq(resp.body));
    if resp.status_code == 201 {
        match state {
            Some(s) => s,
            None => LROStatus::InProgress,
        }
    } else if resp.status_code == 200 {
        match state {
            Some(s) => s,
            None => LROStatus::Succeeded,
        }
    } else if resp.status_code == 204 {
        LROStatus::Succeeded
    } else {
        LROStatus::InProgress
    }
}

/// The state that the valid answer `reply` to a poll reports, where it
/// reports one: succeeded on 204; nothing where another answer has no body;
/// else the provisioning state of the body, and succeeded where the body
/// reports none.
pub open spec fn reported_state(reply: Response) -> Option<LROStatus> {
    if reply.status_code == 204 {
        Some(LROStatus::Succeeded)
    } else if bytes_seq(reply.body).len() == 0 {
        None
    } else {
        match provisioning_state_of(bytes_seq(reply.body)) {
            Some(state) => Some(state),
            None => Some(LROStatus::Succeeded),
        }
    }
}

impl Poller {
    /// The handler that the first response `resp` to the request `req` gives.
    pub open spec fn created(req: Request, resp: Response) -> Poller {
        Poller { resp, poll_url: req.url, cur_state: first_state(resp) }
    }

    /// The handler for the first response `resp` to the request `req`.
    pub fn new(req: &Request, resp: Response) -> (r: Result<Poller, Error>)
        ensures
            agrees(r, Ok(Poller::created(*req, resp))),
    {
        let state = get_provisioning_state(&resp);
        let cur_state = if resp.status_code == 201 {
            match state {
                Some(s) => s,
                None => LROStatus::InProgress,
            }
        } else if resp.status_code == 200 {
            match state {
                Some(s) => s,
                None => LROStatus::Succeeded,
            }
        } else if resp.status_code == 204 {
            LROStatus::Succeeded
        } else {
            LROStatus::InProgress
        };
        Ok(Poller { resp, poll_url: clone_url(&req.url), cur_state })
    }

    /// Whether a request is one whose answer reports the state of the
    /// resource in its body: a PUT or a PATCH.
    pub open spec fn spec_applicable(req: &Request, resp: &Response) -> bool {
        req.method == Method::Put || req.method == Method::Patch
    }

    /// Whether the first request allows this way of polling.
    #[verifier::when_used_as_spec(spec_applicable)]
    pub fn applicable(req: &Request, resp: &Response) -> (r: bool)
        ensures
            r == Poller::spec_applicable(req, resp),
    {
        match req.method {
            Method::Put | Method::Patch => true,
            _ => false,
        }
    }

    /// Whether the operation has reached a terminal state.
    pub open spec fn spec_done(&self) -> bool {
        self.cur_state.is_terminal()
    }

    /// Whether the operation has reached a terminal state.
    #[verifier::when_used_as_spec(spec_done)]
    pub fn done(&self) -> (r: bool)
        ensures
            r == self.spec_done(),
    {
        self.cur_state.is_terminal()
    }

    /// The URL to ask for the state of the operation; none once it is done.
    pub open spec fn poll_target(&self) -> Option<Url> {
        if self.done() {
            None
        } else {
            Some(self.poll_url)
        }
    }

    /// The request that the next poll sends; none once the operation is done.
    pub fn poll_request(&self) -> (r: Option<Request>)
        ensures
            match self.poll_target() {
                Some(url) => r matches Some(q) && q.is_bare(Method::Get, url),
                None => r is None,
            },
    {
        if self.done() {
            None
        } else {
            Some(Request::get(clone_url(&self.poll_url)))
        }
    }

    /// The handler after the answer `reply` to a poll.
    pub open spec fn after_poll(self, reply: Response) -> Poller {
        if self.done() {
            self
        } else if !is_valid_status_code(reply.status_code) {
            Poller { resp: reply, ..self }
        } else {
            match reported_state(reply) {
                Some(state) => Poller { resp: reply, cur_state: state, ..self },
                None => self,
            }
        }
    }

    /// What a poll returns that was answered with `reply`.
    pub open spec fn poll_outcome(self, reply: Response) -> Result<Response, ErrorView> {
        if self.done() {
            Ok(self.resp)
        } else if !is_valid_status_code(reply.status_code) {
            Err(response_error(ErrorKind::Protocol, "invalid response status code"@, reply))
        } else {
            match reported_state(reply) {
                Some(_) => Ok(reply),
                None => Err(
                    response_error(
                        ErrorKind::Protocol,
                        "non-204 response has no response body"@,
                        reply,
                    ),
                ),
            }
        }
    }

    /// Takes the answer to the request of `poll_request`. Once the operation is
    /// done nothing changes and the response of the last call is returned.
    pub fn poll(&mut self, reply: Response) -> (r: Result<Response, Error>)
        ensures
            *final(self) == old(self).after_poll(reply),
            agrees(r, old(self).poll_outcome(reply)),
    {
        if self.done() {
            return Ok(self.resp.clone());
        }
        if !is_valid_status_code(reply.status_code) {
            self.resp = reply.clone();
            return Err(
                Error::from_response(ErrorKind::Protocol, "invalid response status code", reply),
            );
        }
        if reply.status_code == 204 {
            self.resp = reply.clone();
            self.cur_state = LROStatus::Succeeded;
            return Ok(reply);
        }
        if reply.body_bytes().len() == 0 {
            return Err(
                Error::from_response(
                    ErrorKind::Protocol,
                    "non-204 response has no response body",
                    reply,
                ),
            );
        }
        let state = match get_provisioning_state(&reply) {
            Some(state) => state,
            None => LROStatus::Succeeded,
        };
        self.cur_state = state;
        self.resp = reply.clone();
        Ok(reply)
    }

    /// No final GET is made.
    pub fn result_request(&self) -> (r: Option<Request>)
        ensures
            r is None,
    {
        None
    }

    /// The result of the operation: an error before the operation is done,
    /// else what the response of the last call comes to.
    pub open spec fn result_outcome(&self) -> Outcome {
        if !self.done() {
            Err(plain_error(ErrorKind::Usage, "the operation has not reached a terminal state"@))
        } else {
            helper_outcome(self.resp, self.cur_state.is_failed(), None)
        }
    }

    /// The result of the operation.
    pub fn result(&self) -> (r: Result<Response, Error>)
        ensures
            yields(r, self.result_outcome()),
    {
        if !self.done() {
            return Err(
                Error::new(ErrorKind::Usage, "the operation has not reached a terminal state"),
            );
        }
        result_helper(&self.resp, self.cur_state.is_failed(), None)
    }
}

} // verus!

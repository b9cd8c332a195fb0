use crate::api::metadata::Method;
use crate::client::headers::lemma_protocol_names_are_lower;
use crate::client::poller::utils::{
    get_header_url, get_initial_state, get_provisioning_state, get_required_header_url,
    has_header, header_present, header_url, helper_outcome, initial_state,
    is_non_terminal_http_status_code, provisioning_state_of, required_header_url, result_helper,
    yields, LROStatus, Outcome,
};
use crate::client::request::Request;
use crate::client::response::{
    agrees, bytes_seq, plain_error, Error, ErrorKind, ErrorView, Response,
};
use crate::client::url::clone_url;
use azure_core::http::Url;
use vstd::prelude::*;

verus! {

/// Polls the URL that the header `location` gave, first and last.
#[derive(Debug)]
pub struct Poller {
    /// The response of the last call, the first or a poll.
    pub resp: Response,
    /// The URL to poll next.
    pub loc_url: Url,
    /// The state of the operation as last seen.
    pub cur_state: LROStatus,
}

/// The state of an operation after a poll of its location was answered with
/// `reply`: the provisioning state that the body reports; without one, in
/// progress on 202, succeeded on any other 2xx, unchanged on a status code
/// that tells of a passing trouble, failed on every other.
pub open spec fn state_after(cur_state: LROStatus, reply: Response) -> LROStatus {
    match provisioning_state_of(bytes_seq(reply.body)) {
        Some(state) => state,
        None => if reply.status_code == 202 {
            LROStatus::InProgress
        } else if 200 <= reply.status_code < 300 {
            LROStatus::Succeeded
        } else if is_non_terminal_http_status_code(reply.status_code) {
            cur_state
        } else {
            LROStatus::Failed
        },
    }
}

impl Poller {
    /// The handler that the first response `resp` gives, or the reason why it
    /// gives none.
    pub open spec fn created(resp: Response) -> Result<Poller, ErrorView> {
        match required_header_url(resp, "location"@) {
            Err(e) => Err(e),
            Ok(loc_url) => Ok(Poller { resp, loc_url, cur_state: initial_state(resp) }),
        }
    }

    /// The handler for the first response `resp`.
    pub fn new(resp: Response) -> (r: Result<Poller, Error>)
        ensures
            agrees(r, Poller::created(resp)),
    {
        proof {
            lemma_protocol_names_are_lower();
        }
        let loc_url = get_required_header_url(&resp, "location")?;
        let cur_state = get_initial_state(&resp);
        Ok(Poller { resp, loc_url, cur_state })
    }

    /// Whether the first response asks for this way of polling.
    pub fn applicable(req: &Request, resp: &Response) -> (r: bool)
        ensures
            r == has_header(*resp, "location"@),
    {
        proof {
            lemma_protocol_names_are_lower();
        }
        header_present(resp, "location")
    }

    /// Whether the operation has reached a terminal state.
    pub open spec fn spec_done(&self) -> bool {
        self.cur_state.is_terminal()
    }

    /// Whether the operation has reached a terminal state.
    #[verifier::when_used_as_spec(spec_done)]
    pub fn done(&self) -> (r: bool)
        ensures
            r == self.spec_done(),
    {
        self.cur_state.is_terminal()
    }

    /// The URL to ask for the state of the operation; none once it is done.
    pub open spec fn poll_url(&self) -> Option<Url> {
        if self.done() {
            None
        } else {
            Some(self.loc_url)
        }
    }

    /// The request that the next poll sends; none once the operation is done.
    pub fn poll_request(&self) -> (r: Option<Request>)
        ensures
            match self.poll_url() {
                Some(url) => r matches Some(q) && q.is_bare(Method::Get, url),
                None => r is None,
            },
    {
        if self.done() {
            None
        } else {
            Some(Request::get(clone_url(&self.loc_url)))
        }
    }

    /// The handler after the answer `reply` to a poll. The answer is kept; a
    /// location in it is the URL of the next poll.
    pub open spec fn after_poll(self, reply: Response) -> Poller {
        if self.done() {
            self
        } else {
            match header_url(reply, "location"@) {
                Err(_) => Poller { resp: reply, ..self },
                Ok(next) => Poller {
                    resp: reply,
                    loc_url: match next {
                        Some(url) => url,
                        None => self.loc_url,
                    },
                    cur_state: state_after(self.cur_state, reply),
                },
            }
        }
    }

    /// What a poll returns that was answered with `reply`.
    pub open spec fn poll_outcome(self, reply: Response) -> Result<Response, ErrorView> {
        if self.done() {
            Ok(self.resp)
        } else {
            match header_url(reply, "location"@) {
                Err(e) => Err(e),
                Ok(_) => Ok(reply),
            }
        }
    }

    /// Takes the answer to the request of `poll_request`. Once the operation is
    /// done nothing changes and the response of the last call is returned.
    pub fn poll(&mut self, reply: Response) -> (r: Result<Response, Error>)
        ensures
            *final(self) == old(self).after_poll(reply),
            agrees(r, old(self).poll_outcome(reply)),
    {
        if self.done() {
            return Ok(self.resp.clone());
        }
        proof {
            lemma_protocol_names_are_lower();
        }
        self.resp = reply.clone();
        match get_header_url(&reply, "location") {
            Err(e) => {
                return Err(e);
            },
            Ok(Some(url)) => {
                self.loc_url = url;
            },
            Ok(None) => {},
        }
        if let Some(state) = get_provisioning_state(&reply) {
            self.cur_state = state;
        } else if reply.status_code == 202 {
            self.cur_state = LROStatus::InProgress;
        } else if 200 <= reply.status_code && reply.status_code < 300 {
            self.cur_state = LROStatus::Succeeded;
        } else if is_non_terminal_http_status_code(reply.status_code) {
        } else {
            self.cur_state = LROStatus::Failed;
        }
        Ok(reply)
    }

    /// No final GET is made.
    pub fn result_request(&self) -> (r: Option<Request>)
        ensures
            r is None,
    {
        None
    }

    /// The result of the operation: an error before the operation is done,
    /// else what the response of the last call comes to.
    pub open spec fn result_outcome(&self) -> Outcome {
        if !self.done() {
            Err(plain_error(ErrorKind::Usage, "the operation has not reached a terminal state"@))
        } else {
            helper_outcome(self.resp, self.cur_state.is_failed(), None)
        }
    }

    /// The result of the operation.
    pub fn result(&self) -> (r: Result<Response, Error>)
        ensures
            yields(r, self.result_outcome()),
    {
        if !self.done() {
            return Err(
                Error::new(ErrorKind::Usage, "the operation has not reached a terminal state"),
            );
        }
        result_helper(&self.resp, self.cur_state.is_failed(), None)
    }
}

/// A handler that is in progress stays in progress when a poll is answered
/// with a status code that tells of a passing trouble, 503 among them, unless
/// the body of the answer reports a provisioning state.
pub proof fn lemma_transient_keeps_state(p: Poller, reply: Response)
    requires
        p.cur_state == LROStatus::InProgress,
        is_non_terminal_http_status_code(reply.status_code),
        provisioning_state_of(bytes_seq(reply.body)) is None,
    ensures
        p.after_poll(reply).cur_state == LROStatus::InProgress,
        !p.after_poll(reply).done(),
        header_url(reply, "location"@) is Ok ==> p.poll_outcome(reply) == Ok::<Response, ErrorView>(
            reply,
        ),
{
}

} // verus!

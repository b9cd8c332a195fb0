pub mod asyncop;
pub mod body;
pub mod loc;
pub mod noop;
pub mod op;
pub mod utils;

use crate::api::metadata::Method;
use crate::client::request::Request;
use crate::client::response::{
    agrees, plain_error, response_error, Error, ErrorKind, ErrorView, Response,
};
use crate::client::time::{
    duration_from_secs, duration_is_zero, duration_nanos, nanos_of_secs, now_millis,
};
use azure_core::http::Url;
use std::time::Duration;
use utils::{
    has_header, is_valid_status_code, retry_after_at, retry_after_nanos, yields, FinalStateVia,
    Outcome,
};
use vstd::prelude::*;

verus! {

/// The way of polling that was chosen for an operation, with its state.
#[derive(Debug)]
pub enum Handler {
    AsyncOp(asyncop::Poller),
    Loc(loc::Poller),
    Op(op::Poller),
    Body(body::Poller),
    Noop(noop::Poller),
}

impl Handler {
    /// Whether the operation has reached a terminal state.
    pub open spec fn done(self) -> bool {
        match self {
            Handler::AsyncOp(p) => p.done(),
            Handler::Loc(p) => p.done(),
            Handler::Op(p) => p.done(),
            Handler::Body(p) => p.done(),
            Handler::Noop(p) => p.done(),
        }
    }

    /// The URL that the next poll asks; none once the operation is done.
    pub open spec fn poll_url(self) -> Option<Url> {
        match self {
            Handler::AsyncOp(p) => p.poll_url(),
            Handler::Loc(p) => p.poll_url(),
            Handler::Op(p) => p.poll_url(),
            Handler::Body(p) => p.poll_target(),
            Handler::Noop(p) => None,
        }
    }

    /// The handler after the answer `reply` to a poll.
    pub open spec fn after_poll(self, reply: Response) -> Handler {
        match self {
            Handler::AsyncOp(p) => Handler::AsyncOp(p.after_poll(reply)),
            Handler::Loc(p) => Handler::Loc(p.after_poll(reply)),
            Handler::Op(p) => Handler::Op(p.after_poll(reply)),
            Handler::Body(p) => Handler::Body(p.after_poll(reply)),
            Handler::Noop(p) => self,
        }
    }

    /// What the handler's poll returns that was answered with `reply`.
    pub open spec fn poll_outcome(self, reply: Response) -> Result<Response, ErrorView> {
        match self {
            Handler::AsyncOp(p) => p.poll_outcome(reply),
            Handler::Loc(p) => p.poll_outcome(reply),
            Handler::Op(p) => p.poll_outcome(reply),
            Handler::Body(p) => p.poll_outcome(reply),
            Handler::Noop(p) => Ok(p.resp),
        }
    }

    /// The URL of the final GET, where one is to be made.
    pub open spec fn final_get(self) -> Option<Url> {
        match self {
            Handler::AsyncOp(p) => p.final_get(),
            Handler::Op(p) => match p.final_get() {
                Ok(url) => url,
                Err(_) => None,
            },
            _ => None,
        }
    }

    /// The result of the operation, given the answer `reply` to the final GET
    /// where one was to be made.
    pub open spec fn result_outcome(self, reply: Option<Response>) -> Outcome {
        match self {
            Handler::AsyncOp(p) => p.result_outcome(reply),
            Handler::Loc(p) => p.result_outcome(),
            Handler::Op(p) => p.result_outcome(reply),
            Handler::Body(p) => p.result_outcome(),
            Handler::Noop(p) => Ok((p.resp, None)),
        }
    }

    /// Whether the place named for the final state is one that the handler can serve.
    pub open spec fn final_state_fits(self) -> bool {
        match self {
            Handler::AsyncOp(p) => p.final_state_fits(),
            _ => true,
        }
    }
}

/// What the caller knows of an operation beyond its first response.
#[derive(Debug, Clone)]
pub struct NewPollerOptions {
    /// Where the final state is found. Read only where the operation is polled
    /// by `azure-asyncoperation` or by `operation-location`.
    pub final_state: Option<FinalStateVia>,
    /// The member of the final response that holds the result. Read only
    /// where the operation is polled by `operation-location`.
    pub operation_location_result_path: Option<String>,
}

impl Default for NewPollerOptions {
    fn default() -> (r: NewPollerOptions)
        ensures
            r.final_state is None,
            r.operation_location_result_path is None,
    {
        NewPollerOptions { final_state: None, operation_location_result_path: None }
    }
}

/// How to drive an operation to its end.
#[derive(Debug, Clone, Copy)]
pub struct PollUntilDoneOptions {
    /// The time to wait between polls where the response names none. `None`
    /// and a time of no length stand for 30 seconds.
    pub frequency: Option<Duration>,
}

impl Default for PollUntilDoneOptions {
    fn default() -> (r: PollUntilDoneOptions)
        ensures
            r.frequency is None,
    {
        PollUntilDoneOptions { frequency: None }
    }
}

/// The time between polls that the options ask for, in nanoseconds.
pub open spec fn frequency_nanos(opts: Option<PollUntilDoneOptions>) -> nat {
    match opts {
        Some(PollUntilDoneOptions { frequency: Some(d) }) => if duration_nanos(d) == 0 {
            nanos_of_secs(30)
        } else {
            duration_nanos(d)
        },
        _ => nanos_of_secs(30),
    }
}

/// The time to wait after the answer `resp` to a poll, in nanoseconds, at the
/// time `now`: what the headers of the answer ask for, else what the options
/// ask for.
pub open spec fn delay_nanos(resp: Response, opts: Option<PollUntilDoneOptions>, now: i64) -> nat {
    match retry_after_nanos(resp.headers, now) {
        Some(nanos) => nanos,
        None => frequency_nanos(opts),
    }
}

/// The time to wait after the answer `resp` to a poll, at the time `now_ms`
/// (milliseconds since the start of 1970).
pub fn next_delay_at(resp: &Response, opts: Option<PollUntilDoneOptions>, now_ms: i64) -> (d:
    Duration)
    ensures
        duration_nanos(d) == delay_nanos(*resp, opts, now_ms),
{
    if let Some(asked) = retry_after_at(resp, now_ms) {
        return asked;
    }
    if let Some(o) = opts {
        if let Some(frequency) = o.frequency {
            if !duration_is_zero(&frequency) {
                return frequency;
            }
        }
    }
    duration_from_secs(30)
}

/// Drives one operation: holds the handler chosen for it and the response of
/// the last call.
#[derive(Debug)]
pub struct Poller {
    pub handler: Handler,
    pub resp: Response,
}

/// What has happened since the driver last said what to do.
#[derive(Debug)]
pub enum Event {
    /// Nothing yet, or the wait that the driver asked for is over.
    Ready,
    /// The poll that the driver asked for was answered.
    Polled(Response),
    /// The final GET that the driver asked for was answered.
    Fetched(Response),
    /// The request that the driver asked for could not be sent, or its answer
    /// not read; the text says why.
    Failed(String),
    /// The caller gave the operation up.
    Cancelled,
}

/// What the driver asks its caller to do next.
#[derive(Debug)]
pub enum Action {
    /// Send the request and come back with `Event::Polled`.
    Poll(Request),
    /// Send the request and come back with `Event::Fetched`.
    Fetch(Request),
    /// Wait this long and come back with `Event::Ready`.
    Sleep(Duration),
    /// Stop: this is the result.
    Return(Result<Response, Error>),
}

/// Whether the request that started an operation is a DELETE or a POST.
pub open spec fn is_delete_or_post(method: Method) -> bool {
    method == Method::Delete || method == Method::Post
}

impl Poller {
    /// The handler chosen for the first response `resp` to the request `req`,
    /// or the reason why none is. A response whose status code is not valid is
    /// refused. The header `azure-asyncoperation` is asked first, then
    /// `operation-location`, then `location`; without any of them a PUT or
    /// PATCH is polled at its own URL, a DELETE or POST answered with 202 is
    /// refused, and every other operation was finished by its first response.
    pub open spec fn selected(req: Request, resp: Response, opts: NewPollerOptions) -> Result<
        Handler,
        ErrorView,
    > {
        if !is_valid_status_code(resp.status_code) {
            Err(
                response_error(ErrorKind::Protocol, "the operation failed or was cancelled"@, resp),
            )
        } else if has_header(resp, "azure-asyncoperation"@) {
            match asyncop::Poller::created(req, resp, opts.final_state) {
                Ok(p) => Ok(Handler::AsyncOp(p)),
                Err(e) => Err(e),
            }
        } else if has_header(resp, "operation-location"@) {
            match op::Poller::created(
                req,
                resp,
                opts.final_state,
                opts.operation_location_result_path,
            ) {
                Ok(p) => Ok(Handler::Op(p)),
                Err(e) => Err(e),
            }
        } else if has_header(resp, "location"@) {
            match loc::Poller::created(resp) {
                Ok(p) => Ok(Handler::Loc(p)),
                Err(e) => Err(e),
            }
        } else if body::Poller::applicable(&req, &resp) {
            Ok(Handler::Body(body::Poller::created(req, resp)))
        } else if resp.status_code == 202 && is_delete_or_post(req.method) {
            Err(response_error(ErrorKind::Protocol, "response is missing polling URL"@, resp))
        } else {
            Ok(Handler::Noop(noop::Poller { resp }))
        }
    }

    /// The driver that `Poller::new` makes, or the reason why it makes none.
    pub open spec fn created(req: Request, resp: Response, opts: NewPollerOptions) -> Result<
        Poller,
        ErrorView,
    > {
        match Poller::selected(req, resp, opts) {
            Ok(handler) => Ok(Poller { handler, resp }),
            Err(e) => Err(e),
        }
    }

    /// The options that stand for no options.
    pub open spec fn no_options() -> NewPollerOptions {
        NewPollerOptions { final_state: None, operation_location_result_path: None }
    }

    /// The options given, or those that stand for none.
    pub open spec fn options_or_default(opts: Option<NewPollerOptions>) -> NewPollerOptions {
        match opts {
            Some(o) => o,
            None => Poller::no_options(),
        }
    }

    /// Chooses the way of polling for the first response `resp` to the request
    /// `req`, and makes the driver.
    pub fn new(req: &Request, resp: &Response, opts: Option<NewPollerOptions>) -> (r: Result<
        Poller,
        Error,
    >)
        ensures
            agrees(r, Poller::created(*req, *resp, Poller::options_or_default(opts))),
    {
        let opts = match opts {
            Some(o) => o,
            None => NewPollerOptions { final_state: None, operation_location_result_path: None },
        };
        if !is_valid_status_code(resp.status_code) {
            return Err(
                Error::from_response(
                    ErrorKind::Protocol,
                    "the operation failed or was cancelled",
                    resp.clone(),
                ),
            );
        }
        let handler = if asyncop::Poller::applicable(req, resp) {
            Handler::AsyncOp(asyncop::Poller::new(req, resp.clone(), opts.final_state)?)
        } else if op::Poller::applicable(req, resp) {
            Handler::Op(
                op::Poller::new(
                    req,
                    resp.clone(),
                    opts.final_state,
                    opts.operation_location_result_path,
                )?,
            )
        } else if loc::Poller::applicable(req, resp) {
            Handler::Loc(loc::Poller::new(resp.clone())?)
        } else if body::Poller::applicable(req, resp) {
            Handler::Body(body::Poller::new(req, resp.clone())?)
        } else if resp.status_code == 202 && (req.method == Method::Delete || req.method
            == Method::Post) {
            return Err(
                Error::from_response(
                    ErrorKind::Protocol,
                    "response is missing polling URL",
                    resp.clone(),
                ),
            );
        } else {
            Handler::Noop(noop::Poller::new(resp))
        };
        Ok(Poller { handler, resp: resp.clone() })
    }

    /// Whether the operation has reached a terminal state.
    pub open spec fn spec_done(&self) -> bool {
        self.handler.done()
    }

    /// Whether the operation has reached a terminal state.
    #[verifier::when_used_as_spec(spec_done)]
    pub fn done(&self) -> (r: bool)
        ensures
            r == self.spec_done(),
    {
        match &self.handler {
            Handler::AsyncOp(p) => p.done(),
            Handler::Loc(p) => p.done(),
            Handler::Op(p) => p.done(),
            Handler::Body(p) => p.done(),
            Handler::Noop(p) => p.done(),
        }
    }

    /// The request that the next poll sends; none once the operation is done,
    /// when polling sends nothing.
    pub fn poll_request(&self) -> (r: Option<Request>)
        ensures
            match self.handler.poll_url() {
                Some(url) => r matches Some(q) && q.is_bare(Method::Get, url),
                None => r is None,
            },
            self.done() ==> r is None,
    {
        match &self.handler {
            Handler::AsyncOp(p) => p.poll_request(),
            Handler::Loc(p) => p.poll_request(),
            Handler::Op(p) => p.poll_request(),
            Handler::Body(p) => p.poll_request(),
            Handler::Noop(p) => p.poll_request(),
        }
    }

    /// The driver after the answer `reply` to a poll: the handler takes the
    /// answer, and what its poll returns is the response of the last call.
    pub open spec fn after_poll(self, reply: Response) -> Poller {
        if self.done() {
            self
        } else {
            Poller {
                handler: self.handler.after_poll(reply),
                resp: match self.handler.poll_outcome(reply) {
                    Ok(out) => out,
                    Err(_) => self.resp,
                },
            }
        }
    }

    /// What a poll returns that was answered with `reply`.
    pub open spec fn poll_outcome(self, reply: Response) -> Result<Response, ErrorView> {
        if self.done() {
            Ok(self.resp)
        } else {
            self.handler.poll_outcome(reply)
        }
    }

    /// Takes the answer to the request of `poll_request`. Once the operation is
    /// done nothing changes and the response of the last call is returned.
    pub fn poll(&mut self, reply: Response) -> (r: Result<Response, Error>)
        ensures
            *final(self) == old(self).after_poll(reply),
            agrees(r, old(self).poll_outcome(reply)),
            old(self).done() ==> *final(self) == *old(self),
            old(self).done() ==> (r matches Ok(out) && out == old(self).resp),
    {
        if self.done() {
            return Ok(self.resp.clone());
        }
        let resp = match &mut self.handler {
            Handler::AsyncOp(p) => p.poll(reply)?,
            Handler::Loc(p) => p.poll(reply)?,
            Handler::Op(p) => p.poll(reply)?,
            Handler::Body(p) => p.poll(reply)?,
            Handler::Noop(p) => p.poll(reply)?,
        };
        self.resp = resp;
        Ok(self.resp.clone())
    }

    /// Whether the place named for the final state is one that the chosen way
    /// of polling can serve.
    pub open spec fn spec_final_state_fits(&self) -> bool {
        self.handler.final_state_fits()
    }

    /// Whether the place named for the final state is one that the chosen way
    /// of polling can serve. Polling by `azure-asyncoperation` after a POST
    /// cannot serve `Location` and `OperationLocation`.
    #[verifier::when_used_as_spec(spec_final_state_fits)]
    pub fn final_state_fits(&self) -> (r: bool)
        ensures
            r == self.spec_final_state_fits(),
    {
        match &self.handler {
            Handler::AsyncOp(p) => p.final_state_fits(),
            _ => true,
        }
    }

    /// The request of the final GET, where one is to be made.
    pub fn result_request(&self) -> (r: Option<Request>)
        requires
            self.final_state_fits(),
        ensures
            match self.handler.final_get() {
                Some(url) => r matches Some(q) && q.is_bare(Method::Get, url),
                None => r is None,
            },
    {
        match &self.handler {
            Handler::AsyncOp(p) => p.result_request(),
            Handler::Loc(p) => p.result_request(),
            Handler::Op(p) => p.result_request(),
            Handler::Body(p) => p.result_request(),
            Handler::Noop(p) => p.result_request(),
        }
    }

    /// The result of the operation, given the answer `reply` to the final GET
    /// where one was to be made.
    pub open spec fn result_outcome(&self, reply: Option<Response>) -> Outcome {
        self.handler.result_outcome(reply)
    }

    /// The result of the operation once it is done. `reply` is the answer to
    /// the request of `result_request`, where that gave one.
    pub fn result(&self, reply: Option<Response>) -> (r: Result<Response, Error>)
        requires
            self.final_state_fits(),
        ensures
            yields(r, self.result_outcome(reply)),
    {
        match &self.handler {
            Handler::AsyncOp(p) => p.result(reply),
            Handler::Loc(p) => p.result(),
            Handler::Op(p) => p.result(reply),
            Handler::Body(p) => p.result(),
            Handler::Noop(p) => p.result(),
        }
    }

    /// Whether `action` is what ends the driving of an operation that is
    /// done: the final GET where one is to be made, else the result.
    pub open spec fn finishes(&self, action: Action) -> bool {
        match self.handler.final_get() {
            Some(url) => action matches Action::Fetch(q) && q.is_bare(Method::Get, url),
            None => action matches Action::Return(r) && yields(r, self.result_outcome(None)),
        }
    }

    /// Whether `action` is what a round of driving starts with: the poll, or
    /// what ends the driving once the operation is done.
    pub open spec fn starts(&self, action: Action) -> bool {
        match self.handler.poll_url() {
            Some(url) => action matches Action::Poll(q) && q.is_bare(Method::Get, url),
            None => self.finishes(action),
        }
    }

    /// Whether `action` is what follows a poll that returned `polled`, the
    /// driver being `self` after it: the error; what ends the driving, once
    /// the operation is done; else a wait of the time that the answer or the
    /// options ask for.
    pub open spec fn follows_poll(
        &self,
        polled: Result<Response, ErrorView>,
        opts: Option<PollUntilDoneOptions>,
        action: Action,
    ) -> bool {
        match polled {
            Err(v) => action matches Action::Return(Err(e)) && e@ == v,
            Ok(resp) => if self.done() {
                self.finishes(action)
            } else {
                action matches Action::Sleep(d) && exists|now: i64|
                    duration_nanos(d) == delay_nanos(resp, opts, now)
            },
        }
    }

    fn finish(&self) -> (action: Action)
        requires
            self.final_state_fits(),
        ensures
            self.finishes(action),
    {
        match self.result_request() {
            Some(request) => Action::Fetch(request),
            None => Action::Return(self.result(None)),
        }
    }

    /// One step of driving the operation to its end: takes what has happened
    /// and says what to do next. The caller starts with `Event::Ready`, does
    /// what each action asks and comes back with the event that the action
    /// names, until the action is `Action::Return`. Polls follow one another
    /// with a wait between them; once the operation is done the final GET is
    /// made where one is needed and the result returned. A cancellation and a
    /// failure to send end the driving at once and leave the driver as it was.
    pub fn poll_until_done(&mut self, event: Event, opts: Option<PollUntilDoneOptions>) -> (action:
        Action)
        requires
            old(self).final_state_fits(),
        ensures
            final(self).final_state_fits(),
            match event {
                Event::Ready => {
                    &&& *final(self) == *old(self)
                    &&& old(self).starts(action)
                },
                Event::Polled(reply) => {
                    &&& *final(self) == old(self).after_poll(reply)
                    &&& final(self).follows_poll(old(self).poll_outcome(reply), opts, action)
                },
                Event::Fetched(reply) => {
                    &&& *final(self) == *old(self)
                    &&& action matches Action::Return(r)
                    &&& yields(r, old(self).result_outcome(Some(reply)))
                },
                Event::Failed(why) => {
                    &&& *final(self) == *old(self)
                    &&& action matches Action::Return(Err(e))
                    &&& e@ == plain_error(ErrorKind::Transport, why@)
                },
                Event::Cancelled => {
                    &&& *final(self) == *old(self)
                    &&& action matches Action::Return(Err(e))
                    &&& e@ == plain_error(ErrorKind::Cancellation, "the operation was cancelled"@)
                },
            },
    {
        match event {
            Event::Ready => match self.poll_request() {
                Some(request) => Action::Poll(request),
                None => self.finish(),
            },
            Event::Polled(reply) => match self.poll(reply) {
                Err(e) => Action::Return(Err(e)),
                Ok(resp) => {
                    if self.done() {
                        self.finish()
                    } else {
                        let now: i64 = now_millis();
                        Action::Sleep(next_delay_at(&resp, opts, now))
                    }
                },
            },
            Event::Fetched(reply) => Action::Return(self.result(Some(reply))),
            Event::Failed(why) => Action::Return(Err(Error::new(ErrorKind::Transport, why.as_str()))),
            Event::Cancelled => Action::Return(
                Err(Error::new(ErrorKind::Cancellation, "the operation was cancelled")),
            ),
        }
    }
}

/// Once the operation is done a poll asks for no request, changes nothing and
/// returns the response of the last call, whatever answer it is handed.
pub proof fn lemma_poll_after_done(p: Poller, reply: Response)
    requires
        p.done(),
    ensures
        p.handler.poll_url() is None,
        p.after_poll(reply) == p,
        p.poll_outcome(reply) == Ok::<Response, ErrorView>(p.resp),
{
}

/// The response of the last call that a handler holds.
pub open spec fn handler_response(h: Handler) -> Response {
    match h {
        Handler::AsyncOp(p) => p.resp,
        Handler::Loc(p) => p.resp,
        Handler::Op(p) => p.resp,
        Handler::Body(p) => p.resp,
        Handler::Noop(p) => p.resp,
    }
}

/// Every handler that is done asks for no request when polled, stays as it is
/// and returns the response that it holds.
pub proof fn lemma_handler_poll_after_done(h: Handler, reply: Response)
    requires
        h.done(),
    ensures
        h.poll_url() is None,
        h.after_poll(reply) == h,
        h.poll_outcome(reply) == Ok::<Response, ErrorView>(handler_response(h)),
{
}

/// A handler is never turned into one of another kind.
pub proof fn lemma_poll_keeps_kind(h: Handler, reply: Response)
    ensures
        h is AsyncOp <==> h.after_poll(reply) is AsyncOp,
        h is Loc <==> h.after_poll(reply) is Loc,
        h is Op <==> h.after_poll(reply) is Op,
        h is Body <==> h.after_poll(reply) is Body,
        h is Noop <==> h.after_poll(reply) is Noop,
{
}

/// A valid first response with the header `azure-asyncoperation` is polled by
/// that header or refused, whatever other headers it has.
pub proof fn lemma_async_operation_first(req: Request, resp: Response, opts: NewPollerOptions)
    requires
        is_valid_status_code(resp.status_code),
        has_header(resp, "azure-asyncoperation"@),
    ensures
        Poller::selected(req, resp, opts) matches Ok(h) ==> h is AsyncOp,
        asyncop::Poller::created(req, resp, opts.final_state) is Ok ==> Poller::selected(
            req,
            resp,
            opts,
        ) is Ok,
{
}

/// A valid first response with the header `operation-location` and without
/// `azure-asyncoperation` is polled by that header or refused, whether or not
/// it has the header `location`.
pub proof fn lemma_operation_location_before_location(
    req: Request,
    resp: Response,
    opts: NewPollerOptions,
)
    requires
        is_valid_status_code(resp.status_code),
        !has_header(resp, "azure-asyncoperation"@),
        has_header(resp, "operation-location"@),
    ensures
        Poller::selected(req, resp, opts) matches Ok(h) ==> h is Op,
        op::Poller::created(req, resp, opts.final_state, opts.operation_location_result_path)
            is Ok ==> Poller::selected(req, resp, opts) is Ok,
{
}

/// A DELETE or POST answered with 202 and with none of the three polling
/// headers gets no driver.
pub proof fn lemma_accepted_without_polling_url(req: Request, resp: Response, opts: NewPollerOptions)
    requires
        is_delete_or_post(req.method),
        resp.status_code == 202,
        !has_header(resp, "azure-asyncoperation"@),
        !has_header(resp, "operation-location"@),
        !has_header(resp, "location"@),
    ensures
        Poller::created(req, resp, opts) == Err::<Poller, ErrorView>(
            response_error(ErrorKind::Protocol, "response is missing polling URL"@, resp),
        ),
{
}

/// A first response whose status code is none of 200, 201, 202 and 204 gets
/// no driver.
pub proof fn lemma_invalid_status_refused(req: Request, resp: Response, opts: NewPollerOptions)
    requires
        resp.status_code != 200,
        resp.status_code != 201,
        resp.status_code != 202,
        resp.status_code != 204,
    ensures
        Poller::created(req, resp, opts) == Err::<Poller, ErrorView>(
            response_error(ErrorKind::Protocol, "the operation failed or was cancelled"@, resp),
        ),
{
}

/// A wait that the header `retry-after-ms` gives as a number is the wait
/// between two polls, whatever the other headers, the options and the clock say.
pub proof fn lemma_retry_after_ms_decides(
    resp: Response,
    millis: u64,
    opts: Option<PollUntilDoneOptions>,
    now: i64,
)
    requires
        utils::header_number(resp.headers, "retry-after-ms"@) == Some(millis),
    ensures
        delay_nanos(resp, opts, now) == crate::client::time::nanos_of_millis(millis as nat),
{
}

} // verus!

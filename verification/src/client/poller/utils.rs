use crate::client::headers::{
    clone_headers, header_map, header_of, header_value, is_lower_name,
    lemma_protocol_names_are_lower,
};
use crate::json::{encode, json_encoded, json_object, member, member_of, member_text, parse_object, text_of};
use crate::client::response::{
    agrees, bytes_from_vec, bytes_seq, response_error, Error, ErrorKind, ErrorView, Response,
    ResponseView,
};
use crate::client::time::{
    duration_from_millis, duration_from_secs, duration_nanos, nanos_of_millis, nanos_of_secs,
    now_millis, parse_rfc2822, rfc2822_millis,
};
use crate::client::url::{parse_url, url_parse};
use crate::text::{decimal_u64, opt_str_text, parse_u64, str_eq};
use azure_core::http::headers::Headers;
use azure_core::http::Url;
use serde_json::Value;
use std::time::Duration;
use vstd::prelude::*;
use vstd::string::StringExecFns;

verus! {

/// Which URL gives the final state of an operation that has succeeded.
#[derive(Debug, Copy, Clone, PartialEq, Eq, Structural)]
pub enum FinalStateVia {
    AzureAsyncOp,
    Location,
    OriginalUri,
    OperationLocation,
}

impl FinalStateVia {
    /// The name under which service descriptions write this value.
    pub open spec fn text(self) -> Seq<char> {
        match self {
            FinalStateVia::AzureAsyncOp => "azure-async-operation"@,
            FinalStateVia::Location => "location"@,
            FinalStateVia::OriginalUri => "original-uri"@,
            FinalStateVia::OperationLocation => "operation-location"@,
        }
    }

    /// The name under which service descriptions write this value.
    pub fn to_string(&self) -> (s: String)
        ensures
            s@ == self.text(),
    {
        match self {
            FinalStateVia::AzureAsyncOp => "azure-async-operation".to_owned(),
            FinalStateVia::Location => "location".to_owned(),
            FinalStateVia::OriginalUri => "original-uri".to_owned(),
            FinalStateVia::OperationLocation => "operation-location".to_owned(),
        }
    }
}

/// The state of a long-running operation as the service reports it.
#[derive(Debug, Clone, Copy, PartialEq, Eq, Structural)]
pub enum LROStatus {
    Unknown,
    Succeeded,
    Canceled,
    Failed,
    InProgress,
    /// Not in the protocol, but services send it.
    Cancelled,
    /// Not in the protocol, but services send it.
    Completed,
}

impl LROStatus {
    /// The status that a service means by `v`: the six known words, letter for
    /// letter, and `Unknown` for anything else.
    pub open spec fn parse(v: Seq<char>) -> LROStatus {
        if v == "Succeeded"@ {
            LROStatus::Succeeded
        } else if v == "Canceled"@ {
            LROStatus::Canceled
        } else if v == "Failed"@ {
            LROStatus::Failed
        } else if v == "InProgress"@ {
            LROStatus::InProgress
        } else if v == "Cancelled"@ {
            LROStatus::Cancelled
        } else if v == "Completed"@ {
            LROStatus::Completed
        } else {
            LROStatus::Unknown
        }
    }

    /// The word that stands for this status; `Unknown` has none and shows as `<unknown>`.
    pub open spec fn text(self) -> Seq<char> {
        match self {
            LROStatus::Succeeded => "Succeeded"@,
            LROStatus::Canceled => "Canceled"@,
            LROStatus::Failed => "Failed"@,
            LROStatus::InProgress => "InProgress"@,
            LROStatus::Cancelled => "Cancelled"@,
            LROStatus::Completed => "Completed"@,
            LROStatus::Unknown => "<unknown>"@,
        }
    }

    /// Whether the operation has ended without success: failed or cancelled.
    pub open spec fn spec_is_failed(&self) -> bool {
        *self == LROStatus::Failed || *self == LROStatus::Canceled || *self == LROStatus::Cancelled
    }

    /// Whether the operation has ended with success.
    pub open spec fn spec_is_succeeded(&self) -> bool {
        *self == LROStatus::Succeeded || *self == LROStatus::Completed
    }

    /// Whether the operation has ended, one way or the other.
    pub open spec fn spec_is_terminal(&self) -> bool {
        self.spec_is_failed() || self.spec_is_succeeded()
    }

    /// The status that a service means by `v`.
    pub fn from_str(v: &str) -> (r: LROStatus)
        ensures
            r == LROStatus::parse(v@),
    {
        if str_eq(v, "Succeeded") {
            LROStatus::Succeeded
        } else if str_eq(v, "Canceled") {
            LROStatus::Canceled
        } else if str_eq(v, "Failed") {
            LROStatus::Failed
        } else if str_eq(v, "InProgress") {
            LROStatus::InProgress
        } else if str_eq(v, "Cancelled") {
            LROStatus::Cancelled
        } else if str_eq(v, "Completed") {
            LROStatus::Completed
        } else {
            LROStatus::Unknown
        }
    }

    /// The word that stands for this status.
    pub fn to_string(&self) -> (s: String)
        ensures
            s@ == self.text(),
    {
        match self {
            LROStatus::Succeeded => "Succeeded".to_owned(),
            LROStatus::Canceled => "Canceled".to_owned(),
            LROStatus::Failed => "Failed".to_owned(),
            LROStatus::InProgress => "InProgress".to_owned(),
            LROStatus::Cancelled => "Cancelled".to_owned(),
            LROStatus::Completed => "Completed".to_owned(),
            LROStatus::Unknown => "<unknown>".to_owned(),
        }
    }

    /// Whether the operation has ended without success: failed or cancelled.
    #[verifier::when_used_as_spec(spec_is_failed)]
    pub fn is_failed(&self) -> (r: bool)
        ensures
            r == self.spec_is_failed(),
    {
        match self {
            LROStatus::Failed | LROStatus::Canceled | LROStatus::Cancelled => true,
            _ => false,
        }
    }

    /// Whether the operation has ended with success.
    #[verifier::when_used_as_spec(spec_is_succeeded)]
    pub fn is_succeeded(&self) -> (r: bool)
        ensures
            r == self.spec_is_succeeded(),
    {
        match self {
            LROStatus::Succeeded | LROStatus::Completed => true,
            _ => false,
        }
    }

    /// Whether the operation has ended, one way or the other.
    #[verifier::when_used_as_spec(spec_is_terminal)]
    pub fn is_terminal(&self) -> (r: bool)
        ensures
            r == self.spec_is_terminal(),
    {
        self.is_failed() || self.is_succeeded()
    }
}

/// The six words that name a status.
pub open spec fn is_status_word(s: Seq<char>) -> bool {
    s == "Succeeded"@ || s == "Canceled"@ || s == "Failed"@ || s == "InProgress"@ || s == "Cancelled"@
        || s == "Completed"@
}

/// A status word read and written again is the same word, and every other text
/// reads as `Unknown`.
pub proof fn lemma_status_round_trip(s: Seq<char>)
    ensures
        is_status_word(s) ==> LROStatus::parse(s).text() == s,
        !is_status_word(s) ==> LROStatus::parse(s) == LROStatus::Unknown,
        is_status_word(s) ==> LROStatus::parse(s) != LROStatus::Unknown,
{
}

/// A status other than `Unknown` and `InProgress` has failed or has succeeded,
/// never both; a status is terminal exactly when it is one of the two.
pub proof fn lemma_terminal_partition(s: LROStatus)
    ensures
        s != LROStatus::Unknown && s != LROStatus::InProgress ==> (s.is_failed() != s.is_succeeded()),
        s.is_terminal() <==> s.is_failed() || s.is_succeeded(),
        !(s.is_failed() && s.is_succeeded()),
        s.is_terminal() <==> s != LROStatus::Unknown && s != LROStatus::InProgress,
{
}

/// Whether a status code is one that an accepted or finished operation answers with.
pub open spec fn spec_is_valid_status_code(status_code: u16) -> bool {
    status_code == 200 || status_code == 201 || status_code == 202 || status_code == 204
}

/// Whether a status code is one that an accepted or finished operation
/// answers with: 200, 201, 202 or 204.
#[verifier::when_used_as_spec(spec_is_valid_status_code)]
pub fn is_valid_status_code(status_code: u16) -> (r: bool)
    ensures
        r == spec_is_valid_status_code(status_code),
{
    status_code == 200 || status_code == 202 || status_code == 201 || status_code == 204
}

/// Whether a status code tells of a passing trouble, after which polling goes on.
pub open spec fn spec_is_non_terminal_http_status_code(status_code: u16) -> bool {
    status_code == 408 || status_code == 429 || status_code == 500 || status_code == 502
        || status_code == 503 || status_code == 504
}

/// Whether a status code tells of a passing trouble, after which polling goes
/// on: 408, 429, 500, 502, 503 or 504.
#[verifier::when_used_as_spec(spec_is_non_terminal_http_status_code)]
pub fn is_non_terminal_http_status_code(status_code: u16) -> (r: bool)
    ensures
        r == spec_is_non_terminal_http_status_code(status_code),
{
    status_code == 408 || status_code == 429 || status_code == 500 || status_code == 502
        || status_code == 503 || status_code == 504
}

/// The status that the member `key` of `doc` names, where `doc` has such a
/// member and it is a JSON string.
pub open spec fn status_member(doc: Option<Value>, key: Seq<char>) -> Option<LROStatus> {
    match member_text(doc, key) {
        Some(s) => Some(LROStatus::parse(s)),
        None => None,
    }
}

/// The provisioning state that a response body reports: the text of
/// `properties.provisioningState`, read as a status. `None` where the body is
/// empty or no JSON object, `properties` is missing or no object, or
/// `provisioningState` is missing or no string.
pub open spec fn provisioning_state_of(body: Seq<u8>) -> Option<LROStatus> {
    if body.len() == 0 {
        None
    } else {
        status_member(member_of(json_object(body), "properties"@), "provisioningState"@)
    }
}

/// The status that a response body reports in its member `status`. `None`
/// where the body is empty or no JSON object, or `status` is missing or no string.
pub open spec fn lro_status_of(body: Seq<u8>) -> Option<LROStatus> {
    if body.len() == 0 {
        None
    } else {
        status_member(json_object(body), "status"@)
    }
}

/// The text of the member `resourceLocation` of a response body, under the
/// same conditions.
pub open spec fn resource_location_text(body: Seq<u8>) -> Option<Seq<char>> {
    if body.len() == 0 {
        None
    } else {
        member_text(json_object(body), "resourceLocation"@)
    }
}

/// The status that the member `key` of the object `doc` names.
pub fn status_in(doc: &Value, key: &str) -> (r: Option<LROStatus>)
    ensures
        r == status_member(Some(*doc), key@),
{
    match member(doc, key) {
        Some(m) => match text_of(m) {
            Some(s) => Some(LROStatus::from_str(s)),
            None => None,
        },
        None => None,
    }
}

/// The provisioning state in the body of `resp`, if the body reports one.
pub fn get_provisioning_state(resp: &Response) -> (r: Option<LROStatus>)
    ensures
        r == provisioning_state_of(bytes_seq(resp.body)),
{
    let body = resp.body_bytes();
    if body.len() == 0 {
        return None;
    }
    match parse_object(body) {
        Some(doc) => match member(&doc, "properties") {
            Some(props) => status_in(props, "provisioningState"),
            None => None,
        },
        None => None,
    }
}

/// The status in the body of `resp`, if the body reports one.
pub fn get_lro_status(resp: &Response) -> (r: Option<LROStatus>)
    ensures
        r == lro_status_of(bytes_seq(resp.body)),
{
    let body = resp.body_bytes();
    if body.len() == 0 {
        return None;
    }
    match parse_object(body) {
        Some(doc) => status_in(&doc, "status"),
        None => None,
    }
}

/// The URL in the member `resourceLocation` of a response body: none where the
/// body has no such text, an error where the text is no absolute URL.
pub open spec fn resource_location_of(resp: Response) -> Result<Option<Url>, ErrorView> {
    match resource_location_text(bytes_seq(resp.body)) {
        None => Ok(None),
        Some(text) => match url_parse(text) {
            Some(url) => Ok(Some(url)),
            None => Err(
                response_error(ErrorKind::Transport, "the resource location is not a URL"@, resp),
            ),
        },
    }
}

/// The URL in the member `resourceLocation` of the body of `resp`.
pub fn get_resource_location(resp: &Response) -> (r: Result<Option<Url>, Error>)
    ensures
        agrees(r, resource_location_of(*resp)),
{
    let body = resp.body_bytes();
    if body.len() == 0 {
        return Ok(None);
    }
    let doc = match parse_object(body) {
        Some(doc) => doc,
        None => {
            return Ok(None);
        },
    };
    let text = match member(&doc, "resourceLocation") {
        Some(m) => match text_of(m) {
            Some(s) => s,
            None => {
                return Ok(None);
            },
        },
        None => {
            return Ok(None);
        },
    };
    match parse_url(text) {
        Some(url) => Ok(Some(url)),
        None => Err(
            Error::from_response(
                ErrorKind::Transport,
                "the resource location is not a URL",
                resp.clone(),
            ),
        ),
    }
}

/// Whether a response carries the header `name`.
pub open spec fn has_header(resp: Response, name: Seq<char>) -> bool {
    header_of(resp.headers, name) is Some
}

/// Whether `resp` carries the header `name`.
pub fn header_present(resp: &Response, name: &'static str) -> (r: bool)
    requires
        is_lower_name(name@),
    ensures
        r == has_header(*resp, name@),
{
    header_value(&resp.headers, name).is_some()
}

/// What is said where a header does not hold a URL.
pub open spec fn header_parse_message(name: Seq<char>) -> Seq<char> {
    "parsing header `"@ + name + "` as a URL"@
}

/// What is said where a header that must be there is not.
pub open spec fn header_missing_message(name: Seq<char>) -> Seq<char> {
    "header not found "@ + name
}

/// The URL that the header `name` of a response holds: none where the header
/// is missing, an error where its value is no absolute URL.
pub open spec fn header_url(resp: Response, name: Seq<char>) -> Result<Option<Url>, ErrorView> {
    match header_of(resp.headers, name) {
        None => Ok(None),
        Some(value) => match url_parse(value) {
            Some(url) => Ok(Some(url)),
            None => Err(response_error(ErrorKind::Transport, header_parse_message(name), resp)),
        },
    }
}

/// The URL that the header `name` of a response holds, where the header must
/// be there.
pub open spec fn required_header_url(resp: Response, name: Seq<char>) -> Result<Url, ErrorView> {
    match header_url(resp, name) {
        Ok(Some(url)) => Ok(url),
        Ok(None) => Err(response_error(ErrorKind::Protocol, header_missing_message(name), resp)),
        Err(e) => Err(e),
    }
}

/// The URL in the header `name` of `resp`, if the header is there.
pub fn get_header_url(resp: &Response, name: &'static str) -> (r: Result<Option<Url>, Error>)
    requires
        is_lower_name(name@),
    ensures
        agrees(r, header_url(*resp, name@)),
{
    match header_value(&resp.headers, name) {
        None => Ok(None),
        Some(value) => match parse_url(value) {
            Some(url) => Ok(Some(url)),
            None => {
                let message = String::from_str("parsing header `").concat(name).concat(
                    "` as a URL",
                );
                Err(Error::from_response(ErrorKind::Transport, message.as_str(), resp.clone()))
            },
        },
    }
}

/// The URL in the header `name` of `resp`, which must be there.
pub fn get_required_header_url(resp: &Response, name: &'static str) -> (r: Result<Url, Error>)
    requires
        is_lower_name(name@),
    ensures
        agrees(r, required_header_url(*resp, name@)),
{
    match get_header_url(resp, name) {
        Ok(Some(url)) => Ok(url),
        Ok(None) => {
            let message = String::from_str("header not found ").concat(name);
            Err(Error::from_response(ErrorKind::Protocol, message.as_str(), resp.clone()))
        },
        Err(e) => Err(e),
    }
}

/// The state in which polling starts after the response `resp`: the
/// provisioning state that its body reports, else in progress.
pub open spec fn initial_state(resp: Response) -> LROStatus {
    match provisioning_state_of(bytes_seq(resp.body)) {
        Some(state) => state,
        None => LROStatus::InProgress,
    }
}

/// The state in which polling starts after `resp`.
pub fn get_initial_state(resp: &Response) -> (r: LROStatus)
    ensures
        r == initial_state(*resp),
{
    match get_provisioning_state(resp) {
        Some(state) => state,
        None => LROStatus::InProgress,
    }
}

/// The number that the header `name` gives, where it is there and is an
/// unsigned decimal.
pub open spec fn header_number(headers: Headers, name: Seq<char>) -> Option<u64> {
    match header_of(headers, name) {
        Some(v) => decimal_u64(v),
        None => None,
    }
}

/// The time from `now` until `date`, in nanoseconds, and none where `date` is
/// not after `now`. Both are milliseconds since the start of 1970.
pub open spec fn nanos_until(date: i64, now: i64) -> nat {
    if date > now {
        nanos_of_millis((date - now) as nat)
    } else {
        0
    }
}

/// How long a `Retry-After` header asks to wait, in nanoseconds: its value is a
/// number of seconds, or else a date of RFC 2822, which asks to wait until then.
pub open spec fn retry_after_value_nanos(value: Seq<char>, now: i64) -> Option<nat> {
    match decimal_u64(value) {
        Some(secs) => Some(nanos_of_secs(secs as nat)),
        None => match rfc2822_millis(value) {
            Some(date) => Some(nanos_until(date, now)),
            None => None,
        },
    }
}

/// How long the headers of a response ask to wait before the next poll, in
/// nanoseconds, at the time `now`. `retry-after-ms` is asked first, then
/// `x-ms-retry-after-ms`, both in milliseconds, then `retry-after`; one that is
/// missing, or in milliseconds and no number, leaves the question to the next.
pub open spec fn retry_after_nanos(headers: Headers, now: i64) -> Option<nat> {
    if let Some(millis) = header_number(headers, "retry-after-ms"@) {
        Some(nanos_of_millis(millis as nat))
    } else if let Some(millis) = header_number(headers, "x-ms-retry-after-ms"@) {
        Some(nanos_of_millis(millis as nat))
    } else if let Some(value) = header_of(headers, "retry-after"@) {
        retry_after_value_nanos(value, now)
    } else {
        None
    }
}

/// The length of an optional duration in nanoseconds.
pub open spec fn opt_nanos(d: Option<Duration>) -> Option<nat> {
    match d {
        Some(d) => Some(duration_nanos(d)),
        None => None,
    }
}

/// The number in the header `name`, if it is there and is a number.
fn number_header(headers: &Headers, name: &'static str) -> (r: Option<u64>)
    requires
        is_lower_name(name@),
    ensures
        r == header_number(*headers, name@),
{
    match header_value(headers, name) {
        Some(v) => parse_u64(v),
        None => None,
    }
}

/// The wait that the headers of `resp` ask for, at the time `now_ms`
/// (milliseconds since the start of 1970).
pub fn retry_after_at(resp: &Response, now_ms: i64) -> (r: Option<Duration>)
    ensures
        opt_nanos(r) == retry_after_nanos(resp.headers, now_ms),
{
    proof {
        lemma_protocol_names_are_lower();
    }
    if let Some(millis) = number_header(&resp.headers, "retry-after-ms") {
        return Some(duration_from_millis(millis));
    }
    if let Some(millis) = number_header(&resp.headers, "x-ms-retry-after-ms") {
        return Some(duration_from_millis(millis));
    }
    match header_value(&resp.headers, "retry-after") {
        Some(value) => match parse_u64(value) {
            Some(secs) => Some(duration_from_secs(secs)),
            None => match parse_rfc2822(value) {
                Some(date) => {
                    if date > now_ms {
                        let wait: i128 = date as i128 - now_ms as i128;
                        Some(duration_from_millis(wait as u64))
                    } else {
                        Some(duration_from_millis(0))
                    }
                },
                None => None,
            },
        },
        None => None,
    }
}

/// The wait that the headers of `resp` ask for, at the time the clock shows.
pub fn retry_after(resp: &Response) -> (r: Option<Duration>)
    ensures
        exists|now: i64| opt_nanos(r) == retry_after_nanos(resp.headers, now),
{
    let now: i64 = now_millis();
    retry_after_at(resp, now)
}

/// What is said where a response body lacks the member that holds the result.
pub open spec fn field_not_found_message(field: Seq<char>) -> Seq<char> {
    "field \""@ + field + "\" not found in the response body"@
}

/// The bytes of the member `field` of the object that `body` is, written as JSON.
pub open spec fn picked_body(body: Seq<u8>, field: Seq<char>) -> Option<Seq<u8>> {
    match member_of(json_object(body), field) {
        Some(m) => json_encoded(m),
        None => None,
    }
}

/// The error that a response gives as the result of an operation, if it gives
/// one: the operation has failed, the response's status code is not valid, or
/// the member `field` that holds the result cannot be had from its body.
pub open spec fn result_error(resp: Response, failed: bool, field: Option<Seq<char>>) -> Option<
    ErrorView,
> {
    let body = bytes_seq(resp.body);
    if failed {
        Some(response_error(ErrorKind::TerminalFailure, ""@, resp))
    } else if !is_valid_status_code(resp.status_code) {
        Some(response_error(ErrorKind::Protocol, "invalid response status code"@, resp))
    } else {
        match field {
            None => None,
            Some(f) => if json_object(body) is None {
                Some(
                    response_error(
                        ErrorKind::Protocol,
                        "the response body is not a JSON object"@,
                        resp,
                    ),
                )
            } else if member_of(json_object(body), f) is None {
                Some(response_error(ErrorKind::Protocol, field_not_found_message(f), resp))
            } else if picked_body(body, f) is None {
                Some(
                    response_error(
                        ErrorKind::Protocol,
                        "the result could not be written as JSON"@,
                        resp,
                    ),
                )
            } else {
                None
            },
        }
    }
}

/// Whether `out` is the result that `resp` gives: `resp` itself, or, where a
/// member `field` holds the result, `resp` with that member as its body.
pub open spec fn is_result_of(out: Response, resp: Response, field: Option<Seq<char>>) -> bool {
    match field {
        None => out == resp,
        Some(f) => out@ == (ResponseView {
            status_code: resp.status_code,
            headers: header_map(resp.headers),
            body: picked_body(bytes_seq(resp.body), f).unwrap(),
        }),
    }
}

/// What taking a result comes to: an error, or the response that gives the
/// result, with the name of the member that holds it where there is one.
pub type Outcome = Result<(Response, Option<Seq<char>>), ErrorView>;

/// Whether `r` is what `outcome` describes.
pub open spec fn yields(r: Result<Response, Error>, outcome: Outcome) -> bool {
    match (r, outcome) {
        (Ok(out), Ok((resp, field))) => is_result_of(out, resp, field),
        (Err(e), Err(v)) => e@ == v,
        _ => false,
    }
}

/// What `resp` comes to as the result of an operation.
pub open spec fn helper_outcome(resp: Response, failed: bool, field: Option<Seq<char>>) -> Outcome {
    match result_error(resp, failed, field) {
        Some(error) => Err(error),
        None => Ok((resp, field)),
    }
}

/// Turns a response into the result of an operation: the error it stands for
/// where the operation failed or the response is not a valid one, else the
/// response, or the member `json_field` of its body in its place.
pub fn result_helper(resp: &Response, failed: bool, json_field: Option<&str>) -> (r: Result<
    Response,
    Error,
>)
    ensures
        yields(r, helper_outcome(*resp, failed, opt_str_text(json_field))),
{
    if failed {
        return Err(Error::from_response(ErrorKind::TerminalFailure, "", resp.clone()));
    }
    if !is_valid_status_code(resp.status_code) {
        return Err(
            Error::from_response(ErrorKind::Protocol, "invalid response status code", resp.clone()),
        );
    }
    let field = match json_field {
        Some(field) => field,
        None => {
            return Ok(resp.clone());
        },
    };
    let doc = match parse_object(resp.body_bytes()) {
        Some(doc) => doc,
        None => {
            return Err(
                Error::from_response(
                    ErrorKind::Protocol,
                    "the response body is not a JSON object",
                    resp.clone(),
                ),
            );
        },
    };
    let picked = match member(&doc, field) {
        Some(m) => m,
        None => {
            let message = String::from_str("field \"").concat(field).concat(
                "\" not found in the response body",
            );
            return Err(
                Error::from_response(ErrorKind::Protocol, message.as_str(), resp.clone()),
            );
        },
    };
    match encode(picked) {
        Some(bytes) => Ok(
            Response {
                status_code: resp.status_code,
                headers: clone_headers(&resp.headers),
                body: bytes_from_vec(bytes),
            },
        ),
        None => Err(
            Error::from_response(
                ErrorKind::Protocol,
                "the result could not be written as JSON",
                resp.clone(),
            ),
        ),
    }
}

} // verus!

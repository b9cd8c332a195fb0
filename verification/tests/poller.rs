use azure::api::metadata::Method;
use azure::client::poller::utils::{FinalStateVia, LROStatus};
use azure::client::poller::{
    next_delay_at, Action, Event, Handler, NewPollerOptions, PollUntilDoneOptions, Poller,
};
use azure::client::request::Request;
use azure::client::response::{ErrorKind, Response};
use azure_core::http::headers::Headers;
use azure_core::http::Url;
use bytes::Bytes;
use std::time::Duration;

fn response(status_code: u16, headers: &[(&str, &str)], body: &str) -> Response {
    let mut h = Headers::new();
    for (name, value) in headers {
        h.insert(name.to_string(), value.to_string());
    }
    Response { status_code, headers: h, body: Bytes::from(body.to_string()) }
}

fn request(method: Method, url: &str) -> Request {
    Request::new(Url::parse(url).unwrap(), method)
}

fn poll_url(action: Action) -> String {
    match action {
        Action::Poll(q) => {
            assert_eq!(q.method, Method::Get);
            assert!(q.body.is_none());
            assert_eq!(q.headers, Headers::new());
            q.url.to_string()
        }
        other => panic!("expected a poll, got {other:?}"),
    }
}

fn fetch_url(action: Action) -> String {
    match action {
        Action::Fetch(q) => {
            assert_eq!(q.method, Method::Get);
            assert!(q.body.is_none());
            q.url.to_string()
        }
        other => panic!("expected a final GET, got {other:?}"),
    }
}

fn wait(action: Action) -> Duration {
    match action {
        Action::Sleep(d) => d,
        other => panic!("expected a wait, got {other:?}"),
    }
}

fn returned(action: Action) -> Result<Response, azure::client::response::Error> {
    match action {
        Action::Return(r) => r,
        other => panic!("expected a result, got {other:?}"),
    }
}

fn state(p: &Poller) -> LROStatus {
    match &p.handler {
        Handler::AsyncOp(h) => h.cur_state,
        Handler::Loc(h) => h.cur_state,
        Handler::Op(h) => h.cur_state,
        Handler::Body(h) => h.cur_state,
        Handler::Noop(_) => LROStatus::Succeeded,
    }
}

#[test]
fn async_operation_put_runs_to_the_final_get() {
    let req = request(Method::Put, "https://management.azure.com/x?api-version=1");
    let first = response(
        201,
        &[("Azure-AsyncOperation", "https://a/op/1")],
        r#"{"properties":{"provisioningState":"Creating"}}"#,
    );
    let mut p = Poller::new(&req, &first, None).unwrap();
    assert!(matches!(p.handler, Handler::AsyncOp(_)));
    assert!(!p.done());
    assert_eq!(state(&p), LROStatus::Unknown);

    assert_eq!(poll_url(p.poll_until_done(Event::Ready, None)), "https://a/op/1");
    let a = p.poll_until_done(Event::Polled(response(200, &[], r#"{"status":"InProgress"}"#)), None);
    assert_eq!(wait(a), Duration::from_secs(30));
    assert!(!p.done());
    assert_eq!(state(&p), LROStatus::InProgress);

    assert_eq!(poll_url(p.poll_until_done(Event::Ready, None)), "https://a/op/1");
    let a = p.poll_until_done(Event::Polled(response(200, &[], r#"{"status":"Succeeded"}"#)), None);
    assert_eq!(fetch_url(a), "https://management.azure.com/x?api-version=1");
    assert!(p.done());

    let last = response(200, &[], r#"{"id":"/x","name":"x"}"#);
    let out = returned(p.poll_until_done(Event::Fetched(last), None)).unwrap();
    assert_eq!(out.status_code, 200);
    assert_eq!(out.body, Bytes::from_static(br#"{"id":"/x","name":"x"}"#));
}

#[test]
fn location_delete_survives_a_503() {
    let req = request(Method::Delete, "https://management.azure.com/y?api-version=1");
    let first = response(202, &[("Location", "https://a/loc/1")], "");
    let mut p = Poller::new(&req, &first, None).unwrap();
    assert!(matches!(p.handler, Handler::Loc(_)));
    assert_eq!(state(&p), LROStatus::InProgress);

    assert_eq!(poll_url(p.poll_until_done(Event::Ready, None)), "https://a/loc/1");
    let a = p.poll_until_done(Event::Polled(response(503, &[], "")), None);
    assert_eq!(wait(a), Duration::from_secs(30));
    assert_eq!(state(&p), LROStatus::InProgress);
    assert!(!p.done());
    assert_eq!(p.resp.status_code, 503);

    assert_eq!(poll_url(p.poll_until_done(Event::Ready, None)), "https://a/loc/1");
    let a = p.poll_until_done(Event::Polled(response(200, &[], "")), None);
    assert_eq!(state(&p), LROStatus::Succeeded);
    let out = returned(a).unwrap();
    assert_eq!(out.status_code, 200);
    assert!(out.body.is_empty());
}

#[test]
fn body_patch_reads_the_provisioning_state() {
    let req = request(Method::Patch, "https://management.azure.com/z?api-version=1");
    let first = response(200, &[], r#"{"properties":{"provisioningState":"Updating"}}"#);
    let mut p = Poller::new(&req, &first, None).unwrap();
    assert!(matches!(p.handler, Handler::Body(_)));
    assert!(!p.done());

    assert_eq!(
        poll_url(p.poll_until_done(Event::Ready, None)),
        "https://management.azure.com/z?api-version=1"
    );
    let body = r#"{"properties":{"provisioningState":"Succeeded"}, "value":42}"#;
    let a = p.poll_until_done(Event::Polled(response(200, &[], body)), None);
    let out = returned(a).unwrap();
    assert_eq!(out.status_code, 200);
    assert_eq!(out.body, Bytes::from(body.to_string()));
}

#[test]
fn delete_accepted_without_polling_url_is_refused() {
    let req = request(Method::Delete, "https://management.azure.com/w?api-version=1");
    let first = response(202, &[("x-other", "1")], "accepted");
    let e = Poller::new(&req, &first, None).unwrap_err();
    assert_eq!(e.kind, ErrorKind::Protocol);
    assert_eq!(e.message, "response is missing polling URL");
    let kept = e.response.unwrap();
    assert_eq!(kept.status_code, 202);
    assert_eq!(kept.body, Bytes::from_static(b"accepted"));

    let req = request(Method::Post, "https://management.azure.com/w?api-version=1");
    let e = Poller::new(&req, &response(202, &[], ""), None).unwrap_err();
    assert_eq!(e.message, "response is missing polling URL");
}

#[test]
fn accepted_get_and_head_finish_at_once() {
    for method in [Method::Get, Method::Head] {
        let req = request(method, "https://management.azure.com/w?api-version=1");
        let first = response(202, &[], "x");
        let mut p = Poller::new(&req, &first, None).unwrap();
        assert!(matches!(p.handler, Handler::Noop(_)));
        assert!(p.done());
        assert!(p.poll_request().is_none());
        let out = returned(p.poll_until_done(Event::Ready, None)).unwrap();
        assert_eq!(out.body, first.body);
    }
    for status in [200u16, 201, 204] {
        for method in [Method::Delete, Method::Post] {
            let req = request(method, "https://management.azure.com/w?api-version=1");
            let p = Poller::new(&req, &response(status, &[], ""), None).unwrap();
            assert!(matches!(p.handler, Handler::Noop(_)));
        }
    }
}

#[test]
fn retry_after_ms_sets_the_wait() {
    let req = request(Method::Put, "https://management.azure.com/x?api-version=1");
    let first = response(201, &[("azure-asyncoperation", "https://a/op/1")], "");
    let opts = Some(PollUntilDoneOptions { frequency: Some(Duration::from_secs(5)) });
    let mut p = Poller::new(&req, &first, None).unwrap();
    assert_eq!(poll_url(p.poll_until_done(Event::Ready, opts)), "https://a/op/1");
    let reply = response(200, &[("Retry-After-Ms", "250")], r#"{"status":"InProgress"}"#);
    assert_eq!(wait(p.poll_until_done(Event::Polled(reply), opts)), Duration::from_millis(250));
    let reply = response(200, &[("Retry-After-Ms", "250")], r#"{"status":"InProgress"}"#);
    assert_eq!(wait(p.poll_until_done(Event::Polled(reply), None)), Duration::from_millis(250));
    let reply = response(200, &[], r#"{"status":"InProgress"}"#);
    assert_eq!(wait(p.poll_until_done(Event::Polled(reply), opts)), Duration::from_secs(5));
}

#[test]
fn retry_after_ms_wins_over_retry_after() {
    let reply = response(200, &[("Retry-After-Ms", "500"), ("Retry-After", "10")], "");
    assert_eq!(next_delay_at(&reply, None, 0), Duration::from_millis(500));
    let opts = Some(PollUntilDoneOptions { frequency: Some(Duration::from_secs(1)) });
    assert_eq!(next_delay_at(&reply, opts, 1_700_000_000_000), Duration::from_millis(500));
}

#[test]
fn frequency_defaults_to_thirty_seconds() {
    let reply = response(200, &[], "");
    assert_eq!(next_delay_at(&reply, None, 0), Duration::from_secs(30));
    let opts = Some(PollUntilDoneOptions::default());
    assert_eq!(next_delay_at(&reply, opts, 0), Duration::from_secs(30));
    let opts = Some(PollUntilDoneOptions { frequency: Some(Duration::ZERO) });
    assert_eq!(next_delay_at(&reply, opts, 0), Duration::from_secs(30));
    let opts = Some(PollUntilDoneOptions { frequency: Some(Duration::from_secs(2)) });
    assert_eq!(next_delay_at(&reply, opts, 0), Duration::from_secs(2));
    let opts = Some(PollUntilDoneOptions { frequency: Some(Duration::from_nanos(1)) });
    assert_eq!(next_delay_at(&reply, opts, 0), Duration::from_nanos(1));
}

#[test]
fn cancellation_ends_the_driving_without_a_request() {
    let req = request(Method::Put, "https://management.azure.com/x?api-version=1");
    let first = response(201, &[("azure-asyncoperation", "https://a/op/1")], "");
    let mut p = Poller::new(&req, &first, None).unwrap();
    let _ = poll_url(p.poll_until_done(Event::Ready, None));
    let reply = response(200, &[], r#"{"status":"InProgress"}"#);
    let _ = wait(p.poll_until_done(Event::Polled(reply), None));
    let e = returned(p.poll_until_done(Event::Cancelled, None)).unwrap_err();
    assert_eq!(e.kind, ErrorKind::Cancellation);
    assert_eq!(e.message, "the operation was cancelled");
    assert_eq!(state(&p), LROStatus::InProgress);
    assert_eq!(poll_url(p.poll_until_done(Event::Ready, None)), "https://a/op/1");
}

#[test]
fn transport_failure_ends_the_driving() {
    let req = request(Method::Put, "https://management.azure.com/x?api-version=1");
    let first = response(201, &[("azure-asyncoperation", "https://a/op/1")], "");
    let mut p = Poller::new(&req, &first, None).unwrap();
    let _ = poll_url(p.poll_until_done(Event::Ready, None));
    let e = returned(p.poll_until_done(Event::Failed("connection reset".to_string()), None))
        .unwrap_err();
    assert_eq!(e.kind, ErrorKind::Transport);
    assert_eq!(e.message, "connection reset");
    assert!(!p.done());
}

#[test]
fn async_operation_wins_over_location() {
    let req = request(Method::Post, "https://management.azure.com/x?api-version=1");
    let first = response(
        202,
        &[("Location", "https://a/loc/1"), ("Azure-AsyncOperation", "https://a/op/1")],
        "",
    );
    let p = Poller::new(&req, &first, None).unwrap();
    match &p.handler {
        Handler::AsyncOp(h) => {
            assert_eq!(h.async_url.as_str(), "https://a/op/1");
            assert_eq!(h.loc_url.as_ref().unwrap().as_str(), "https://a/loc/1");
            assert_eq!(h.origin_url.as_str(), "https://management.azure.com/x?api-version=1");
            assert_eq!(h.method, Method::Post);
            assert_eq!(h.final_state, None);
        }
        other => panic!("{other:?}"),
    }
    let first = response(
        202,
        &[
            ("Location", "https://a/loc/1"),
            ("Operation-Location", "https://a/oploc/1"),
            ("Azure-AsyncOperation", "https://a/op/1"),
        ],
        "",
    );
    assert!(matches!(Poller::new(&req, &first, None).unwrap().handler, Handler::AsyncOp(_)));
}

#[test]
fn operation_location_wins_over_location() {
    let req = request(Method::Post, "https://management.azure.com/x?api-version=1");
    let first = response(
        202,
        &[("Location", "https://a/loc/1"), ("Operation-Location", "https://a/oploc/1")],
        "",
    );
    let opts = NewPollerOptions {
        final_state: Some(FinalStateVia::Location),
        operation_location_result_path: Some("result".to_string()),
    };
    let p = Poller::new(&req, &first, Some(opts)).unwrap();
    match &p.handler {
        Handler::Op(h) => {
            assert_eq!(h.op_loc_url.as_str(), "https://a/oploc/1");
            assert_eq!(h.loc_url.as_ref().unwrap().as_str(), "https://a/loc/1");
            assert_eq!(h.final_state, Some(FinalStateVia::Location));
            assert_eq!(h.result_path.as_deref(), Some("result"));
        }
        other => panic!("{other:?}"),
    }
}

#[test]
fn invalid_first_status_is_refused() {
    let req = request(Method::Put, "https://management.azure.com/x?api-version=1");
    for status in [100u16, 199, 203, 205, 206, 299, 301, 400, 404, 409, 500, 503] {
        let first = response(status, &[("azure-asyncoperation", "https://a/op/1")], "b");
        let e = Poller::new(&req, &first, None).unwrap_err();
        assert_eq!(e.kind, ErrorKind::Protocol);
        assert_eq!(e.message, "the operation failed or was cancelled");
        assert_eq!(e.response.unwrap().status_code, status);
    }
    for status in [200u16, 201, 202, 204] {
        let first = response(status, &[("azure-asyncoperation", "https://a/op/1")], "");
        assert!(Poller::new(&req, &first, None).is_ok());
    }
}

#[test]
fn polling_header_that_is_no_url_is_refused() {
    let req = request(Method::Put, "https://management.azure.com/x?api-version=1");
    let first = response(201, &[("azure-asyncoperation", "not a url")], "");
    let e = Poller::new(&req, &first, None).unwrap_err();
    assert_eq!(e.kind, ErrorKind::Transport);
    assert_eq!(e.message, "parsing header `azure-asyncoperation` as a URL");
    let first = response(
        201,
        &[("azure-asyncoperation", "https://a/op/1"), ("location", "/relative")],
        "",
    );
    let e = Poller::new(&req, &first, None).unwrap_err();
    assert_eq!(e.kind, ErrorKind::Transport);
    assert_eq!(e.message, "parsing header `location` as a URL");
    let first = response(202, &[("operation-location", "::")], "");
    let e = Poller::new(&req, &first, None).unwrap_err();
    assert_eq!(e.message, "parsing header `operation-location` as a URL");
    let first = response(202, &[("location", "")], "");
    let e = Poller::new(&req, &first, None).unwrap_err();
    assert_eq!(e.message, "parsing header `location` as a URL");
}

#[test]
fn poll_after_done_changes_nothing() {
    let req = request(Method::Put, "https://management.azure.com/x?api-version=1");
    let first = response(201, &[("azure-asyncoperation", "https://a/op/1")], "");
    let mut p = Poller::new(&req, &first, None).unwrap();
    let done = response(200, &[("k", "v")], r#"{"status":"Failed"}"#);
    let out = p.poll(done.clone()).unwrap();
    assert_eq!(out.body, done.body);
    assert!(p.done());
    assert!(p.poll_request().is_none());
    let again = p.poll(response(200, &[], r#"{"status":"Succeeded"}"#)).unwrap();
    assert_eq!(again.status_code, 200);
    assert_eq!(again.body, done.body);
    assert_eq!(again.headers, done.headers);
    assert_eq!(state(&p), LROStatus::Failed);
    assert_eq!(p.resp.body, done.body);
}

#[test]
fn failed_operation_gives_the_response_as_error() {
    let req = request(Method::Put, "https://management.azure.com/x?api-version=1");
    let first = response(201, &[("azure-asyncoperation", "https://a/op/1")], "");
    for word in ["Failed", "Canceled", "Cancelled"] {
        let mut p = Poller::new(&req, &first, None).unwrap();
        let body = format!(r#"{{"status":"{word}","error":{{"code":"Boom","message":"m"}}}}"#);
        let a = p.poll_until_done(Event::Polled(response(200, &[], &body)), None);
        let e = returned(a).unwrap_err();
        assert_eq!(e.kind, ErrorKind::TerminalFailure);
        assert_eq!(e.error_code.as_deref(), Some("Boom"));
        assert_eq!(e.response.unwrap().body, Bytes::from(body));
        assert!(p.result_request().is_none());
    }
}

#[test]
fn result_before_done_is_a_usage_error() {
    let req = request(Method::Put, "https://management.azure.com/x?api-version=1");
    let first = response(201, &[("azure-asyncoperation", "https://a/op/1")], "");
    let p = Poller::new(&req, &first, None).unwrap();
    let e = p.result(None).unwrap_err();
    assert_eq!(e.kind, ErrorKind::Usage);
    assert_eq!(e.message, "the operation has not reached a terminal state");
    let first = response(202, &[("location", "https://a/loc/1")], "");
    let p = Poller::new(&req, &first, None).unwrap();
    assert_eq!(p.result(None).unwrap_err().kind, ErrorKind::Usage);
    let first = response(201, &[], "");
    let p = Poller::new(&req, &first, None).unwrap();
    assert!(matches!(p.handler, Handler::Body(_)));
    assert_eq!(p.result(None).unwrap_err().kind, ErrorKind::Usage);
}

#[test]
fn final_response_that_is_missing_is_a_usage_error() {
    let req = request(Method::Put, "https://management.azure.com/x?api-version=1");
    let first = response(201, &[("azure-asyncoperation", "https://a/op/1")], "");
    let mut p = Poller::new(&req, &first, None).unwrap();
    p.poll(response(200, &[], r#"{"status":"Succeeded"}"#)).unwrap();
    assert!(p.result_request().is_some());
    let e = p.result(None).unwrap_err();
    assert_eq!(e.kind, ErrorKind::Usage);
    assert_eq!(e.message, "the final response is missing");
}

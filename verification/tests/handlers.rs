use azure::api::metadata::Method;
use azure::client::poller::utils::{FinalStateVia, LROStatus};
use azure::client::poller::{asyncop, body, loc, noop, op};
use azure::client::request::Request;
use azure::client::response::{ErrorKind, Response};
use azure_core::http::headers::Headers;
use azure_core::http::Url;
use bytes::Bytes;

fn response(status_code: u16, headers: &[(&str, &str)], body: &str) -> Response {
    let mut h = Headers::new();
    for (name, value) in headers {
        h.insert(name.to_string(), value.to_string());
    }
    Response { status_code, headers: h, body: Bytes::from(body.to_string()) }
}

fn request(method: Method, url: &str) -> Request {
    Request::new(Url::parse(url).unwrap(), method)
}

fn async_poller(method: Method, final_state: Option<FinalStateVia>, with_location: bool) -> asyncop::Poller {
    let req = request(method, "https://m/x?api-version=1");
    let mut headers = vec![("azure-asyncoperation", "https://a/op/1")];
    if with_location {
        headers.push(("location", "https://a/loc/1"));
    }
    let mut p = asyncop::Poller::new(&req, response(202, &headers, ""), final_state).unwrap();
    p.poll(response(200, &[], r#"{"status":"Succeeded"}"#)).unwrap();
    assert!(p.done());
    p
}

fn final_url(r: Option<Request>) -> Option<String> {
    r.map(|q| {
        assert_eq!(q.method, Method::Get);
        q.url.to_string()
    })
}

#[test]
fn async_operation_needs_its_header() {
    let req = request(Method::Put, "https://m/x?api-version=1");
    let e = asyncop::Poller::new(&req, response(201, &[("location", "https://a/l")], ""), None)
        .unwrap_err();
    assert_eq!(e.kind, ErrorKind::Protocol);
    assert_eq!(e.message, "header not found azure-asyncoperation");
    assert!(!asyncop::Poller::applicable(&req, &response(201, &[("location", "https://a/l")], "")));
    assert!(asyncop::Poller::applicable(&req, &response(201, &[("Azure-AsyncOperation", "x")], "")));
}

#[test]
fn async_operation_starts_from_the_provisioning_state() {
    let req = request(Method::Put, "https://m/x?api-version=1");
    let h = [("azure-asyncoperation", "https://a/op/1")];
    let p = asyncop::Poller::new(&req, response(201, &h, ""), None).unwrap();
    assert_eq!(p.cur_state, LROStatus::InProgress);
    let body = r#"{"properties":{"provisioningState":"Succeeded"}}"#;
    let p = asyncop::Poller::new(&req, response(201, &h, body), None).unwrap();
    assert_eq!(p.cur_state, LROStatus::Succeeded);
    assert!(p.done());
    assert!(p.poll_request().is_none());
    let p = asyncop::Poller::new(&req, response(201, &h, "garbage"), None).unwrap();
    assert_eq!(p.cur_state, LROStatus::InProgress);
}

#[test]
fn async_operation_poll_refuses_an_invalid_status() {
    let req = request(Method::Put, "https://m/x?api-version=1");
    let h = [("azure-asyncoperation", "https://a/op/1")];
    let mut p = asyncop::Poller::new(&req, response(201, &h, "first"), None).unwrap();
    let e = p.poll(response(500, &[], "down")).unwrap_err();
    assert_eq!(e.kind, ErrorKind::Protocol);
    assert_eq!(e.message, "invalid response status code");
    assert_eq!(e.response.unwrap().body, Bytes::from_static(b"down"));
    assert_eq!(p.resp.status_code, 500);
    assert_eq!(p.cur_state, LROStatus::InProgress);
}

#[test]
fn async_operation_poll_needs_a_status() {
    let req = request(Method::Put, "https://m/x?api-version=1");
    let h = [("azure-asyncoperation", "https://a/op/1")];
    let mut p = asyncop::Poller::new(&req, response(201, &h, "first"), None).unwrap();
    for body in ["", "{}", r#"{"properties":{"provisioningState":"Succeeded"}}"#, "[]"] {
        let e = p.poll(response(200, &[], body)).unwrap_err();
        assert_eq!(e.kind, ErrorKind::Protocol);
        assert_eq!(e.message, "the response did not contain a status");
        assert_eq!(e.response.unwrap().body, Bytes::from(body.to_string()));
        assert_eq!(p.resp.body, Bytes::from_static(b"first"));
        assert_eq!(p.cur_state, LROStatus::InProgress);
    }
    let out = p.poll(response(202, &[], r#"{"status":"Weird"}"#)).unwrap();
    assert_eq!(out.status_code, 202);
    assert_eq!(p.cur_state, LROStatus::Unknown);
    assert!(!p.done());
}

#[test]
fn async_operation_final_get_after_put_and_patch() {
    for method in [Method::Put, Method::Patch] {
        for fs in [None, Some(FinalStateVia::AzureAsyncOp), Some(FinalStateVia::Location)] {
            let p = async_poller(method, fs, true);
            assert!(p.final_state_fits());
            assert_eq!(final_url(p.result_request()).as_deref(), Some("https://m/x?api-version=1"));
        }
    }
}

#[test]
fn async_operation_final_get_after_post() {
    let p = async_poller(Method::Post, Some(FinalStateVia::AzureAsyncOp), true);
    assert_eq!(final_url(p.result_request()), None);
    let out = p.result(None).unwrap();
    assert_eq!(out.body, Bytes::from_static(br#"{"status":"Succeeded"}"#));

    let p = async_poller(Method::Post, Some(FinalStateVia::OriginalUri), true);
    assert_eq!(final_url(p.result_request()).as_deref(), Some("https://m/x?api-version=1"));

    let p = async_poller(Method::Post, None, true);
    assert_eq!(final_url(p.result_request()).as_deref(), Some("https://a/loc/1"));

    let p = async_poller(Method::Post, None, false);
    assert_eq!(final_url(p.result_request()), None);
}

#[test]
fn async_operation_no_final_get_after_other_methods() {
    for method in [Method::Delete, Method::Get, Method::Head] {
        let p = async_poller(method, None, true);
        assert_eq!(final_url(p.result_request()), None);
        assert!(p.result(None).is_ok());
    }
}

#[test]
fn async_operation_does_not_serve_location_after_post() {
    assert!(!async_poller(Method::Post, Some(FinalStateVia::Location), true).final_state_fits());
    assert!(!async_poller(Method::Post, Some(FinalStateVia::OperationLocation), true).final_state_fits());
    assert!(async_poller(Method::Post, Some(FinalStateVia::OriginalUri), true).final_state_fits());
    assert!(async_poller(Method::Delete, Some(FinalStateVia::Location), true).final_state_fits());
}

#[test]
fn async_operation_final_response_must_be_valid() {
    let p = async_poller(Method::Put, None, false);
    let out = p.result(Some(response(200, &[], "final"))).unwrap();
    assert_eq!(out.body, Bytes::from_static(b"final"));
    let e = p.result(Some(response(404, &[], "gone"))).unwrap_err();
    assert_eq!(e.kind, ErrorKind::Protocol);
    assert_eq!(e.message, "invalid response status code");
    assert_eq!(e.response.unwrap().body, Bytes::from_static(b"gone"));
}

fn op_poller(
    method: Method,
    final_state: Option<FinalStateVia>,
    with_location: bool,
    result_path: Option<&str>,
    last: &str,
) -> op::Poller {
    let req = request(method, "https://m/x?api-version=1");
    let mut headers = vec![("operation-location", "https://a/oploc/1")];
    if with_location {
        headers.push(("location", "https://a/loc/1"));
    }
    let mut p = op::Poller::new(
        &req,
        response(202, &headers, ""),
        final_state,
        result_path.map(|s| s.to_string()),
    )
    .unwrap();
    assert_eq!(final_url(p.poll_request()).as_deref(), Some("https://a/oploc/1"));
    p.poll(response(200, &[], last)).unwrap();
    assert!(p.done());
    p
}

#[test]
fn operation_location_final_get_rules() {
    let ok = r#"{"status":"Succeeded"}"#;
    let with_rl = r#"{"status":"Succeeded","resourceLocation":"https://a/res/1"}"#;

    let p = op_poller(Method::Put, Some(FinalStateVia::Location), true, None, with_rl);
    assert_eq!(final_url(p.result_request()).as_deref(), Some("https://a/loc/1"));

    let p = op_poller(Method::Put, Some(FinalStateVia::Location), false, None, with_rl);
    assert_eq!(final_url(p.result_request()).as_deref(), Some("https://a/res/1"));

    let p = op_poller(Method::Put, Some(FinalStateVia::Location), false, None, ok);
    assert_eq!(final_url(p.result_request()).as_deref(), Some("https://m/x?api-version=1"));

    let p = op_poller(Method::Post, None, true, None, with_rl);
    assert_eq!(final_url(p.result_request()).as_deref(), Some("https://a/res/1"));

    let p = op_poller(Method::Patch, None, true, None, ok);
    assert_eq!(final_url(p.result_request()).as_deref(), Some("https://m/x?api-version=1"));

    let p = op_poller(Method::Post, None, true, None, ok);
    assert_eq!(final_url(p.result_request()).as_deref(), Some("https://a/loc/1"));

    let p = op_poller(Method::Post, None, false, None, ok);
    assert_eq!(final_url(p.result_request()), None);
    assert_eq!(p.result(None).unwrap().body, Bytes::from(ok.to_string()));

    let p = op_poller(Method::Delete, Some(FinalStateVia::OperationLocation), true, None, ok);
    assert_eq!(final_url(p.result_request()), None);
}

#[test]
fn operation_location_picks_the_result_path() {
    let ok = r#"{"status":"Succeeded"}"#;
    let p = op_poller(Method::Put, None, false, Some("result"), ok);
    let last = response(200, &[("h", "v")], r#"{"result":{"a":1},"other":2}"#);
    let out = p.result(Some(last.clone())).unwrap();
    assert_eq!(out.status_code, 200);
    assert_eq!(out.headers, last.headers);
    assert_eq!(out.body, Bytes::from_static(br#"{"a":1}"#));
    let e = p.result(Some(response(200, &[], r#"{"other":2}"#))).unwrap_err();
    assert_eq!(e.kind, ErrorKind::Protocol);
    assert_eq!(e.message, "field \"result\" not found in the response body");
    let p = op_poller(Method::Post, None, false, Some("result"), ok);
    assert_eq!(p.result(None).unwrap().body, Bytes::from(ok.to_string()));
}

#[test]
fn operation_location_resource_location_must_be_a_url() {
    let bad = r#"{"status":"Succeeded","resourceLocation":"nowhere"}"#;
    let p = op_poller(Method::Put, None, true, None, bad);
    assert!(p.result_request().is_none());
    let e = p.result(None).unwrap_err();
    assert_eq!(e.kind, ErrorKind::Transport);
    assert_eq!(e.message, "the resource location is not a URL");
}

#[test]
fn operation_location_failure_is_terminal() {
    let p = op_poller(Method::Put, None, true, None, r#"{"status":"Canceled"}"#);
    assert!(p.result_request().is_none());
    let e = p.result(None).unwrap_err();
    assert_eq!(e.kind, ErrorKind::TerminalFailure);
    assert_eq!(e.response.unwrap().body, Bytes::from_static(br#"{"status":"Canceled"}"#));
}

#[test]
fn location_state_cascade() {
    let start = || loc::Poller::new(response(202, &[("location", "https://a/loc/1")], "")).unwrap();
    let cases: [(u16, &str, LROStatus); 12] = [
        (202, "", LROStatus::InProgress),
        (200, "", LROStatus::Succeeded),
        (201, "", LROStatus::Succeeded),
        (204, "", LROStatus::Succeeded),
        (206, "", LROStatus::Succeeded),
        (408, "", LROStatus::InProgress),
        (429, "", LROStatus::InProgress),
        (500, "<html>", LROStatus::InProgress),
        (503, "", LROStatus::InProgress),
        (404, "", LROStatus::Failed),
        (400, "", LROStatus::Failed),
        (301, "", LROStatus::Failed),
    ];
    for (status, body, expected) in cases {
        let mut p = start();
        let out = p.poll(response(status, &[], body)).unwrap();
        assert_eq!(out.status_code, status);
        assert_eq!(p.cur_state, expected, "{status}");
        assert_eq!(p.resp.status_code, status);
    }
    let mut p = start();
    p.poll(response(202, &[], r#"{"properties":{"provisioningState":"Failed"}}"#)).unwrap();
    assert_eq!(p.cur_state, LROStatus::Failed);
    let mut p = start();
    p.poll(response(503, &[], r#"{"properties":{"provisioningState":"Succeeded"}}"#)).unwrap();
    assert_eq!(p.cur_state, LROStatus::Succeeded);
    let mut p = start();
    p.poll(response(404, &[], r#"{"properties":{"provisioningState":"Deleting"}}"#)).unwrap();
    assert_eq!(p.cur_state, LROStatus::Unknown);
}

#[test]
fn location_follows_a_new_location() {
    let req = request(Method::Delete, "https://m/y");
    assert!(loc::Poller::applicable(&req, &response(202, &[("Location", "https://a")], "")));
    assert!(!loc::Poller::applicable(&req, &response(202, &[], "")));
    let mut p = loc::Poller::new(response(202, &[("location", "https://a/loc/1")], "")).unwrap();
    assert_eq!(final_url(p.poll_request()).as_deref(), Some("https://a/loc/1"));
    p.poll(response(202, &[("location", "https://a/loc/2")], "")).unwrap();
    assert_eq!(final_url(p.poll_request()).as_deref(), Some("https://a/loc/2"));
    p.poll(response(202, &[], "")).unwrap();
    assert_eq!(final_url(p.poll_request()).as_deref(), Some("https://a/loc/2"));
    let e = p.poll(response(200, &[("location", "gibberish")], "kept")).unwrap_err();
    assert_eq!(e.kind, ErrorKind::Transport);
    assert_eq!(p.resp.body, Bytes::from_static(b"kept"));
    assert_eq!(p.cur_state, LROStatus::InProgress);
    assert_eq!(p.loc_url.as_str(), "https://a/loc/2");
}

#[test]
fn location_result_is_the_last_response() {
    let mut p = loc::Poller::new(response(202, &[("location", "https://a/loc/1")], "")).unwrap();
    assert!(p.result_request().is_none());
    p.poll(response(200, &[], "done")).unwrap();
    assert_eq!(p.result().unwrap().body, Bytes::from_static(b"done"));
    let mut p = loc::Poller::new(response(202, &[("location", "https://a/loc/1")], "")).unwrap();
    p.poll(response(404, &[], "missing")).unwrap();
    assert!(p.done());
    let e = p.result().unwrap_err();
    assert_eq!(e.kind, ErrorKind::TerminalFailure);
    assert_eq!(e.response.unwrap().body, Bytes::from_static(b"missing"));
    let mut p = loc::Poller::new(response(202, &[("location", "https://a/loc/1")], "")).unwrap();
    p.poll(response(206, &[], "part")).unwrap();
    assert_eq!(p.cur_state, LROStatus::Succeeded);
    let e = p.result().unwrap_err();
    assert_eq!(e.kind, ErrorKind::Protocol);
    assert_eq!(e.message, "invalid response status code");
}

#[test]
fn body_first_state() {
    let req = request(Method::Put, "https://m/z?api-version=1");
    let creating = r#"{"properties":{"provisioningState":"Creating"}}"#;
    let failed = r#"{"properties":{"provisioningState":"Failed"}}"#;
    let cases: [(u16, &str, LROStatus); 9] = [
        (201, "", LROStatus::InProgress),
        (201, creating, LROStatus::Unknown),
        (201, failed, LROStatus::Failed),
        (200, "", LROStatus::Succeeded),
        (200, "{}", LROStatus::Succeeded),
        (200, creating, LROStatus::Unknown),
        (204, creating, LROStatus::Succeeded),
        (202, failed, LROStatus::InProgress),
        (202, "", LROStatus::InProgress),
    ];
    for (status, body, expected) in cases {
        let p = body::Poller::new(&req, response(status, &[], body)).unwrap();
        assert_eq!(p.cur_state, expected, "{status} {body}");
        assert_eq!(p.poll_url.as_str(), "https://m/z?api-version=1");
    }
}

#[test]
fn body_applies_to_put_and_patch_only() {
    let r = response(200, &[], "");
    for (method, expected) in [
        (Method::Put, true),
        (Method::Patch, true),
        (Method::Post, false),
        (Method::Delete, false),
        (Method::Get, false),
        (Method::Head, false),
    ] {
        assert_eq!(body::Poller::applicable(&request(method, "https://m/z"), &r), expected);
    }
}

#[test]
fn body_poll_rules() {
    let req = request(Method::Put, "https://m/z?api-version=1");
    let start = || body::Poller::new(&req, response(201, &[], "first")).unwrap();

    let mut p = start();
    let e = p.poll(response(404, &[], "gone")).unwrap_err();
    assert_eq!(e.kind, ErrorKind::Protocol);
    assert_eq!(e.message, "invalid response status code");
    assert_eq!(p.resp.status_code, 404);
    assert_eq!(p.cur_state, LROStatus::InProgress);

    let mut p = start();
    p.poll(response(204, &[], "")).unwrap();
    assert_eq!(p.cur_state, LROStatus::Succeeded);
    assert_eq!(p.resp.status_code, 204);

    let mut p = start();
    let e = p.poll(response(200, &[], "")).unwrap_err();
    assert_eq!(e.kind, ErrorKind::Protocol);
    assert_eq!(e.message, "non-204 response has no response body");
    assert_eq!(p.resp.body, Bytes::from_static(b"first"));
    assert_eq!(p.cur_state, LROStatus::InProgress);

    let mut p = start();
    p.poll(response(200, &[], r#"{"id":"/z"}"#)).unwrap();
    assert_eq!(p.cur_state, LROStatus::Succeeded);

    let mut p = start();
    p.poll(response(200, &[], r#"{"properties":{"provisioningState":"Updating"}}"#)).unwrap();
    assert_eq!(p.cur_state, LROStatus::Unknown);
    assert!(!p.done());
    p.poll(response(200, &[], r#"{"properties":{"provisioningState":"Canceled"}}"#)).unwrap();
    assert!(p.done());
    assert!(p.result_request().is_none());
    assert_eq!(p.result().unwrap_err().kind, ErrorKind::TerminalFailure);
}

#[test]
fn noop_is_done_and_returns_its_response() {
    let req = request(Method::Get, "https://m/z");
    let first = response(200, &[("a", "b")], "sync");
    assert!(noop::Poller::applicable(&req, &first));
    let mut p = noop::Poller::new(&first);
    assert!(p.done());
    assert!(p.poll_request().is_none());
    assert!(p.result_request().is_none());
    let out = p.poll(response(500, &[], "ignored")).unwrap();
    assert_eq!(out.body, first.body);
    let out = p.result().unwrap();
    assert_eq!(out.status_code, 200);
    assert_eq!(out.headers, first.headers);
    assert_eq!(out.body, first.body);
}

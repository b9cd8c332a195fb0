use azure::api::metadata::Method;
use azure::client::poller::Handler;
use azure::client::response::{ErrorKind, Response};
use azure::client::{may_be_long_running, Client};
use azure_core::http::headers::{HeaderName, Headers};
use bytes::Bytes;

fn response(status_code: u16, headers: &[(&str, &str)], body: &str) -> Response {
    let mut h = Headers::new();
    for (name, value) in headers {
        h.insert(name.to_string(), value.to_string());
    }
    Response { status_code, headers: h, body: Bytes::from(body.to_string()) }
}

#[test]
fn client_needs_a_url() {
    let c = Client::new("https://management.azure.com").unwrap();
    assert_eq!(c.endpoint.as_str(), "https://management.azure.com/");
    let e = Client::new("management.azure.com").unwrap_err();
    assert_eq!(e.kind, ErrorKind::Transport);
    assert_eq!(e.message, "the endpoint is not a URL");
}

#[test]
fn request_joins_path_and_version() {
    let c = Client::new("https://management.azure.com").unwrap();
    let q = c.request(Method::Get, "/subscriptions/s/resourceGroups/g", "2024-01-01", None).unwrap();
    assert_eq!(q.method, Method::Get);
    assert_eq!(
        q.url.as_str(),
        "https://management.azure.com/subscriptions/s/resourceGroups/g?api-version=2024-01-01"
    );
    assert!(q.body.is_none());
    assert_eq!(q.headers.iter().count(), 1);
    assert_eq!(q.headers.get_optional_str(&HeaderName::from_static("accept")), Some("application/json"));

    let c = Client::new("https://h/base/").unwrap();
    let q = c.request(Method::Put, "x?a=b", "1 2&3", Some(Bytes::from_static(b"{}"))).unwrap();
    assert_eq!(q.url.as_str(), "https://h/base/x?a=b&api-version=1+2%263");
    assert_eq!(q.body, Some(Bytes::from_static(b"{}")));
    assert_eq!(q.headers.iter().count(), 2);
    assert_eq!(q.headers.get_optional_str(&HeaderName::from_static("accept")), Some("application/json"));
    assert_eq!(
        q.headers.get_optional_str(&HeaderName::from_static("content-type")),
        Some("application/json")
    );
}

#[test]
fn request_path_that_does_not_join_is_refused() {
    let c = Client::new("https://h/").unwrap();
    let e = c.request(Method::Get, "https://[bad", "1", None).unwrap_err();
    assert_eq!(e.kind, ErrorKind::Transport);
    assert_eq!(e.message, "the path does not join the endpoint to a URL");
}

#[test]
fn only_changing_methods_may_run_long() {
    assert!(may_be_long_running(Method::Put));
    assert!(may_be_long_running(Method::Post));
    assert!(may_be_long_running(Method::Patch));
    assert!(may_be_long_running(Method::Delete));
    assert!(!may_be_long_running(Method::Get));
    assert!(!may_be_long_running(Method::Head));
}

#[test]
fn run_starts_a_poller_where_one_applies() {
    let c = Client::new("https://h/").unwrap();
    let accepted = response(202, &[("Location", "https://a/loc/1")], "");
    let q = c.request(Method::Delete, "y", "1", None).unwrap();
    let p = c.run(&q, &accepted).unwrap();
    assert!(matches!(p.handler, Handler::Loc(_)));
    assert!(p.final_state_fits());

    let q = c.request(Method::Get, "y", "1", None).unwrap();
    assert!(c.run(&q, &accepted).is_none());
    let q = c.request(Method::Head, "y", "1", None).unwrap();
    assert!(c.run(&q, &accepted).is_none());

    let q = c.request(Method::Post, "y", "1", None).unwrap();
    assert!(c.run(&q, &response(202, &[], "")).is_none());
    assert!(c.run(&q, &response(404, &[], "")).is_none());
    let p = c.run(&q, &response(200, &[], "sync")).unwrap();
    assert!(matches!(p.handler, Handler::Noop(_)));
    let q = c.request(Method::Put, "y", "1", Some(Bytes::from_static(b"{}"))).unwrap();
    let p = c.run(&q, &response(201, &[], "")).unwrap();
    assert!(matches!(p.handler, Handler::Body(_)));
}

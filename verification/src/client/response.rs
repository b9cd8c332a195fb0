use crate::client::headers::{clone_headers, header_map};
use crate::text::opt_text;
use azure_core::error::http_response_from_body;
use azure_core::http::headers::Headers;
use azure_core::http::StatusCode;
use bytes::Bytes;
use vstd::prelude::*;

verus! {

/// `bytes::Bytes`: a buffer of bytes that is cheap to clone. Nothing inside
/// it is seen here; what it holds is `bytes_seq`.
#[verifier::external_type_specification]
#[verifier::external_body]
pub struct ExBytes(Bytes);

/// The bytes that a buffer holds, in order.
pub uninterp spec fn bytes_seq(b: Bytes) -> Seq<u8>;

/// `Bytes::as_ref`: the buffer as a slice.
#[verifier::external_body]
pub(crate) fn bytes_slice(b: &Bytes) -> (r: &[u8])
    ensures
        r@ == bytes_seq(*b),
{
    b.as_ref()
}

/// `Bytes::clone`: a handle on the same bytes.
#[verifier::external_body]
pub(crate) fn clone_bytes(b: &Bytes) -> (r: Bytes)
    ensures
        r == *b,
{
    b.clone()
}

/// `Bytes::from` on a `Vec<u8>`: a buffer of the vector's bytes.
#[verifier::external_body]
pub(crate) fn bytes_from_vec(v: Vec<u8>) -> (r: Bytes)
    ensures
        bytes_seq(r) == v@,
{
    Bytes::from(v)
}

/// What a response holds, as mathematical values.
pub struct ResponseView {
    pub status_code: u16,
    pub headers: Map<Seq<char>, Seq<char>>,
    pub body: Seq<u8>,
}

/// A fully buffered HTTP response.
#[derive(Debug)]
pub struct Response {
    pub status_code: u16,
    pub headers: Headers,
    pub body: Bytes,
}

impl View for Response {
    type V = ResponseView;

    open spec fn view(&self) -> ResponseView {
        ResponseView {
            status_code: self.status_code,
            headers: header_map(self.headers),
            body: bytes_seq(self.body),
        }
    }
}

impl Response {
    /// The body as a slice of bytes.
    pub fn body_bytes(&self) -> (r: &[u8])
        ensures
            r@ == bytes_seq(self.body),
    {
        bytes_slice(&self.body)
    }
}

impl Clone for Response {
    fn clone(&self) -> (r: Response)
        ensures
            r == *self,
    {
        Response {
            status_code: self.status_code,
            headers: clone_headers(&self.headers),
            body: clone_bytes(&self.body),
        }
    }
}

/// What went wrong, in kind.
#[derive(Debug, Clone, Copy, PartialEq, Eq, Structural)]
pub enum ErrorKind {
    /// A request could not be sent or its answer not read, or a URL not parsed.
    Transport,
    /// The service answered outside the polling protocol.
    Protocol,
    /// The operation ended as failed or cancelled.
    TerminalFailure,
    /// The caller gave the operation up.
    Cancellation,
    /// The caller asked for a result before there was one.
    Usage,
}

/// An error of the polling engine. Where it stands for a response of the
/// service, it keeps that response whole.
#[derive(Debug)]
pub struct Error {
    pub kind: ErrorKind,
    pub message: String,
    /// The error code of the service, where the response's body is an error document.
    pub error_code: Option<String>,
    /// The response that the error stands for.
    pub response: Option<Response>,
}

/// What an error holds, as mathematical values.
pub struct ErrorView {
    pub kind: ErrorKind,
    pub message: Seq<char>,
    pub error_code: Option<Seq<char>>,
    pub response: Option<Response>,
}

impl View for Error {
    type V = ErrorView;

    open spec fn view(&self) -> ErrorView {
        ErrorView {
            kind: self.kind,
            message: self.message@,
            error_code: opt_text(self.error_code),
            response: self.response,
        }
    }
}

/// The error code that `http_response_from_body` reads from `body`: the code
/// of the error document that `body` is, `None` where it is none or has no code.
pub uninterp spec fn service_error_code(body: Seq<u8>) -> Option<Seq<char>>;

/// `http_response_from_body`: the error code of the kind that it returns.
#[verifier::external_body]
pub(crate) fn error_code_of(status_code: u16, body: &[u8]) -> (r: Option<String>)
    ensures
        opt_text(r) == service_error_code(body@),
{
    match http_response_from_body(StatusCode::from(status_code), body) {
        azure_core::error::ErrorKind::HttpResponse { error_code, .. } => error_code,
        _ => None,
    }
}

/// The error that stands for `response`, of the given kind and with the given message.
pub open spec fn response_error(kind: ErrorKind, message: Seq<char>, response: Response) -> ErrorView {
    ErrorView {
        kind,
        message,
        error_code: service_error_code(bytes_seq(response.body)),
        response: Some(response),
    }
}

/// The error of the given kind that stands for no response.
pub open spec fn plain_error(kind: ErrorKind, message: Seq<char>) -> ErrorView {
    ErrorView { kind, message, error_code: None, response: None }
}

/// Whether `r` is the outcome `expected`: the same value, or an error that holds
/// what `expected` holds.
pub open spec fn agrees<T>(r: Result<T, Error>, expected: Result<T, ErrorView>) -> bool {
    match (r, expected) {
        (Ok(a), Ok(b)) => a == b,
        (Err(e), Err(v)) => e@ == v,
        _ => false,
    }
}

impl Error {
    /// An error that stands for no response.
    pub fn new(kind: ErrorKind, message: &str) -> (e: Error)
        ensures
            e@ == plain_error(kind, message@),
    {
        Error { kind, message: message.to_owned(), error_code: None, response: None }
    }

    /// The error that stands for `response`: its body is read as an error
    /// document for the error code, and the response is kept as it is.
    pub fn from_response(kind: ErrorKind, message: &str, response: Response) -> (e: Error)
        ensures
            e@ == response_error(kind, message@, response),
    {
        let error_code = error_code_of(response.status_code, response.body_bytes());
        Error { kind, message: message.to_owned(), error_code, response: Some(response) }
    }
}

} // verus!

//! Requests, responses and errors that endpoints exchange.

use vstd::prelude::*;
use http::Extensions;

verus! {

/// The status codes that the endpoints of this crate produce.
pub const STATUS_OK: u16 = 200;
pub const STATUS_BAD_REQUEST: u16 = 400;
pub const STATUS_NOT_FOUND: u16 = 404;
pub const STATUS_METHOD_NOT_ALLOWED: u16 = 405;
pub const STATUS_INTERNAL_SERVER_ERROR: u16 = 500;

/// The content type given to every response whose body is text.
pub open spec fn text_content_type() -> Seq<char> {
    "text/plain; charset=utf-8"@
}

/// An HTTP request method.
#[derive(Clone, Copy, Debug, PartialEq, Eq, Structural, Hash)]
pub enum Method {
    GET,
    POST,
    PUT,
    DELETE,
    HEAD,
    OPTIONS,
    CONNECT,
    PATCH,
    TRACE,
}

/// The typed values attached to a request (`http::Extensions`).
#[verifier::external_type_specification]
#[verifier::external_body]
pub struct ExExtensions(Extensions);

/// Calls `http::Extensions::new`, which makes an empty map.
///
/// The map is keyed by Rust types; nothing is stated of its contents.
#[verifier::external_body]
pub(crate) fn new_extensions() -> Extensions {
    Extensions::new()
}

/// Calls `http::Extensions::insert`, which stores `value` under its type and
/// drops the value that was stored under that type before.
///
/// The map is keyed by Rust types, which have no plain-value model here, so no
/// clause states what it holds after the call.
#[verifier::external_body]
pub(crate) fn extensions_insert<T: Clone + Send + Sync + 'static>(ext: &mut Extensions, value: T) {
    let _ = ext.insert(value);
}

/// An HTTP request.
#[derive(Debug)]
pub struct Request {
    pub method: Method,
    pub uri: String,
    pub headers: Vec<(String, String)>,
    pub body: String,
    pub extensions: Extensions,
}

impl Request {
    /// A request with the given method and URI, no headers, an empty body and
    /// no extensions.
    pub fn new(method: Method, uri: &str) -> (r: Request)
        ensures
            r.method == method,
            r.uri@ == uri@,
            r.headers@.len() == 0,
            r.body@.len() == 0,
    {
        Request {
            method,
            uri: uri.to_owned(),
            headers: Vec::new(),
            body: String::new(),
            extensions: new_extensions(),
        }
    }

    /// The method of this request.
    pub fn method(&self) -> (m: Method)
        ensures
            m == self.method,
    {
        self.method
    }

    /// Replaces the method of this request.
    pub fn set_method(&mut self, method: Method)
        ensures
            final(self).method == method,
            final(self).uri == old(self).uri,
            final(self).headers == old(self).headers,
            final(self).body == old(self).body,
            final(self).extensions == old(self).extensions,
    {
        self.method = method;
    }

    /// Replaces the body of this request.
    pub fn set_body(&mut self, body: String)
        ensures
            final(self).body == body,
            final(self).method == old(self).method,
            final(self).uri == old(self).uri,
            final(self).headers == old(self).headers,
            final(self).extensions == old(self).extensions,
    {
        self.body = body;
    }

    /// Takes the body out of this request, leaving it empty.
    pub fn take_body(&mut self) -> (b: String)
        ensures
            b == old(self).body,
            final(self).body@.len() == 0,
            final(self).method == old(self).method,
            final(self).uri == old(self).uri,
            final(self).headers == old(self).headers,
            final(self).extensions == old(self).extensions,
    {
        let mut b = String::new();
        std::mem::swap(&mut self.body, &mut b);
        b
    }

    /// `self` and `other` agree on everything but their extensions.
    pub open spec fn same_but_extensions(self, other: Request) -> bool {
        &&& self.method == other.method
        &&& self.uri == other.uri
        &&& self.headers == other.headers
        &&& self.body == other.body
    }
}

impl Default for Request {
    /// A `GET` request for `/` with no headers, an empty body and no extensions.
    fn default() -> (r: Request)
        ensures
            r.method == Method::GET,
            r.uri@ == "/"@,
            r.headers@.len() == 0,
            r.body@.len() == 0,
    {
        Request::new(Method::GET, "/")
    }
}

/// What a response is made of, as values.
pub struct ResponseView {
    pub status: u16,
    pub headers: Seq<(Seq<char>, Seq<char>)>,
    pub body: Seq<char>,
}

/// An HTTP response.
#[derive(Debug)]
pub struct Response {
    pub status: u16,
    pub headers: Vec<(String, String)>,
    pub body: String,
}

/// The headers of a response, as values.
pub open spec fn headers_view(headers: Seq<(String, String)>) -> Seq<(Seq<char>, Seq<char>)> {
    headers.map_values(|h: (String, String)| (h.0@, h.1@))
}

impl View for Response {
    type V = ResponseView;

    open spec fn view(&self) -> ResponseView {
        ResponseView { status: self.status, headers: headers_view(self.headers@), body: self.body@ }
    }
}

/// A response with the given status, the text content type and the given body.
pub open spec fn text_response(status: u16, body: Seq<char>) -> ResponseView {
    ResponseView { status, headers: seq![("content-type"@, text_content_type())], body }
}

/// A response with the given status, no headers and an empty body.
pub open spec fn empty_response(status: u16) -> ResponseView {
    ResponseView { status, headers: Seq::empty(), body: Seq::empty() }
}

/// Builds a text response.
fn make_text_response(status: u16, body: String) -> (r: Response)
    ensures
        r@ == text_response(status, body@),
{
    let mut headers: Vec<(String, String)> = Vec::new();
    headers.push(("content-type".to_owned(), "text/plain; charset=utf-8".to_owned()));
    let r = Response { status, headers, body };
    assert(headers_view(r.headers@) =~= seq![("content-type"@, text_content_type())]);
    r
}

impl Response {
    /// A response with status 200, no headers and an empty body.
    pub fn new() -> (r: Response)
        ensures
            r@ == empty_response(STATUS_OK),
    {
        let r = Response { status: STATUS_OK, headers: Vec::new(), body: String::new() };
        assert(headers_view(r.headers@) =~= Seq::empty());
        r
    }

    /// The status of this response.
    pub fn status(&self) -> (s: u16)
        ensures
            s == self.status,
    {
        self.status
    }

    /// Replaces the body of this response.
    pub fn set_body(&mut self, body: String)
        ensures
            final(self).body == body,
            final(self).status == old(self).status,
            final(self).headers == old(self).headers,
    {
        self.body = body;
    }

    /// Takes the body out of this response, leaving it empty.
    pub fn take_body(&mut self) -> (b: String)
        ensures
            b == old(self).body,
            final(self).body@.len() == 0,
            final(self).status == old(self).status,
            final(self).headers == old(self).headers,
    {
        let mut b = String::new();
        std::mem::swap(&mut self.body, &mut b);
        b
    }

    /// The value of the first header named `name`, if there is one.
    pub fn header(&self, name: &str) -> (v: Option<String>)
        ensures
            v is None <==> forall|i: int| 0 <= i < self.headers@.len() ==> self.headers@[i].0@ != name@,
            v matches Some(s) ==> exists|i: int|
                0 <= i < self.headers@.len() && self.headers@[i].0@ == name@ && self.headers@[i].1@ == s@
                && forall|j: int| 0 <= j < i ==> self.headers@[j].0@ != name@,
    {
        let mut i: usize = 0;
        while i < self.headers.len()
            invariant
                i <= self.headers@.len(),
                forall|j: int| 0 <= j < i ==> self.headers@[j].0@ != name@,
            decreases self.headers@.len() - i,
        {
            if str_equal(self.headers[i].0.as_str(), name) {
                return Some(self.headers[i].1.clone());
            }
            i = i + 1;
        }
        None
    }
}

/// Whether two strings hold the same characters.
pub fn str_equal(a: &str, b: &str) -> (r: bool)
    ensures
        r == (a@ == b@),
{
    let n = a.unicode_len();
    if n != b.unicode_len() {
        return false;
    }
    let mut i: usize = 0;
    while i < n
        invariant
            n == a@.len(),
            n == b@.len(),
            i <= n,
            forall|j: int| 0 <= j < i ==> a@[j] == b@[j],
        decreases n - i,
    {
        if a.get_char(i) != b.get_char(i) {
            return false;
        }
        i = i + 1;
    }
    assert(a@ =~= b@);
    true
}

/// Why an error arose; it decides which typed error it can be seen as.
#[derive(Clone, Copy, Debug, PartialEq, Eq, Structural)]
pub enum ErrorReason {
    /// An error made from a status code alone.
    Status,
    /// No route matched the request.
    NotFound,
    /// No endpoint is registered for the request's method.
    MethodNotAllowed,
}

/// An error that an endpoint can return in place of its output.
#[derive(Debug)]
pub struct Error {
    pub status: u16,
    pub reason: ErrorReason,
    pub message: String,
}

impl Error {
    /// An error with the given status and an empty message.
    pub fn from_status(status: u16) -> (e: Error)
        ensures
            e.status == status,
            e.reason == ErrorReason::Status,
            e.message@.len() == 0,
    {
        Error { status, reason: ErrorReason::Status, message: String::new() }
    }

    /// The status of this error.
    pub fn status(&self) -> (s: u16)
        ensures
            s == self.status,
    {
        self.status
    }
}

/// The error of a request that no route matched.
#[derive(Clone, Copy, Debug, PartialEq, Eq, Structural)]
pub struct NotFoundError;

/// The error of a request whose method has no endpoint.
#[derive(Clone, Copy, Debug, PartialEq, Eq, Structural)]
pub struct MethodNotAllowedError;

impl NotFoundError {
    /// This error as an [`Error`]: status 404, message "not found".
    pub fn into_error(self) -> (e: Error)
        ensures
            e.status == STATUS_NOT_FOUND,
            e.reason == ErrorReason::NotFound,
            e.message@ == "not found"@,
    {
        Error { status: STATUS_NOT_FOUND, reason: ErrorReason::NotFound, message: "not found".to_owned() }
    }
}

impl MethodNotAllowedError {
    /// This error as an [`Error`]: status 405, message "method not allowed".
    pub fn into_error(self) -> (e: Error)
        ensures
            e.status == STATUS_METHOD_NOT_ALLOWED,
            e.reason == ErrorReason::MethodNotAllowed,
            e.message@ == "method not allowed"@,
    {
        Error {
            status: STATUS_METHOD_NOT_ALLOWED,
            reason: ErrorReason::MethodNotAllowed,
            message: "method not allowed".to_owned(),
        }
    }
}

/// A kind of error that an [`Error`] may be recognised as.
pub trait ErrorType: Sized {
    /// The value of this kind that `err` is, if it is one; by default, not
    /// known.
    open spec fn spec_downcast(err: Error) -> Option<Self> {
        arbitrary()
    }

    /// Recognises `err` as an error of this kind.
    fn downcast(err: &Error) -> (r: Option<Self>)
        ensures
            r == Self::spec_downcast(*err),
    ;
}

impl ErrorType for NotFoundError {
    open spec fn spec_downcast(err: Error) -> Option<NotFoundError> {
        if err.reason == ErrorReason::NotFound { Some(NotFoundError) } else { None }
    }

    fn downcast(err: &Error) -> (r: Option<NotFoundError>) {
        if err.reason == ErrorReason::NotFound { Some(NotFoundError) } else { None }
    }
}

impl ErrorType for MethodNotAllowedError {
    open spec fn spec_downcast(err: Error) -> Option<MethodNotAllowedError> {
        if err.reason == ErrorReason::MethodNotAllowed { Some(MethodNotAllowedError) } else { None }
    }

    fn downcast(err: &Error) -> (r: Option<MethodNotAllowedError>) {
        if err.reason == ErrorReason::MethodNotAllowed { Some(MethodNotAllowedError) } else { None }
    }
}

/// A value that can be turned into a response.
pub trait IntoResponse: Sized {
    /// The response that this value becomes; by default, not known.
    open spec fn response_view(self) -> ResponseView {
        arbitrary()
    }

    /// Turns this value into a response.
    fn into_response(self) -> (r: Response)
        ensures
            r@ == self.response_view(),
    ;
}

impl IntoResponse for Response {
    open spec fn response_view(self) -> ResponseView {
        self@
    }

    fn into_response(self) -> (r: Response) {
        self
    }
}

impl IntoResponse for String {
    open spec fn response_view(self) -> ResponseView {
        text_response(STATUS_OK, self@)
    }

    fn into_response(self) -> (r: Response) {
        make_text_response(STATUS_OK, self)
    }
}

impl IntoResponse for &'static str {
    open spec fn response_view(self) -> ResponseView {
        text_response(STATUS_OK, self@)
    }

    fn into_response(self) -> (r: Response) {
        make_text_response(STATUS_OK, self.to_owned())
    }
}

impl IntoResponse for () {
    open spec fn response_view(self) -> ResponseView {
        empty_response(STATUS_OK)
    }

    fn into_response(self) -> (r: Response) {
        Response::new()
    }
}

impl IntoResponse for Error {
    open spec fn response_view(self) -> ResponseView {
        text_response(self.status, self.message@)
    }

    fn into_response(self) -> (r: Response) {
        make_text_response(self.status, self.message)
    }
}

/// The response that the result of an endpoint becomes, its error included.
pub open spec fn result_response<T: IntoResponse>(r: Result<T, Error>) -> ResponseView {
    match r {
        Ok(v) => v.response_view(),
        Err(e) => e.response_view(),
    }
}

/// `res` is `r` with its value turned into a response and its error kept.
pub open spec fn maps_to_response<T: IntoResponse>(r: Result<T, Error>, res: Result<Response, Error>) -> bool {
    match r {
        Ok(v) => res matches Ok(resp) && resp@ == v.response_view(),
        Err(e) => res == Err::<Response, Error>(e),
    }
}

/// Turns the value of `r` into a response and keeps its error.
pub fn map_into_response<T: IntoResponse>(r: Result<T, Error>) -> (res: Result<Response, Error>)
    ensures
        maps_to_response(r, res),
{
    match r {
        Ok(v) => Ok(v.into_response()),
        Err(e) => Err(e),
    }
}

/// A value that can be turned into the result of an endpoint.
pub trait IntoResult<T: IntoResponse>: Sized {
    /// The result that this value becomes; by default, not known.
    open spec fn spec_into_result(self) -> Result<T, Error> {
        arbitrary()
    }

    /// Turns this value into a result.
    fn into_result(self) -> (r: Result<T, Error>)
        ensures
            r == self.spec_into_result(),
    ;
}

impl<T: IntoResponse> IntoResult<T> for T {
    open spec fn spec_into_result(self) -> Result<T, Error> {
        Ok(self)
    }

    fn into_result(self) -> (r: Result<T, Error>) {
        Ok(self)
    }
}

impl<T: IntoResponse> IntoResult<T> for Result<T, Error> {
    open spec fn spec_into_result(self) -> Result<T, Error> {
        self
    }

    fn into_result(self) -> (r: Result<T, Error>) {
        self
    }
}

} // verus!

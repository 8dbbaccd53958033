//! The request builder and the rules for its body.
use vstd::prelude::*;

use crate::external::{
    append_query_pair, empty_headers, no_header_fields, header_fields_of, parse_url, parse_result_of, query_pairs_of, query_text_after, query_text_of,
    set_form_content_type, set_json_content_type,
};
use crate::form::{encode_form, form_body, pairs_view};

verus! {

/// An HTTP method.
#[derive(PartialEq, Eq, Structural, Clone, Copy, Debug)]
pub enum Method {
    Options,
    Get,
    Post,
    Put,
    Delete,
    Head,
    Trace,
    Connect,
    Patch,
}

/// The payload of a request: exactly one of these is active.
#[derive(Clone, Debug)]
pub enum Body {
    /// No payload.
    Empty,
    /// Opaque bytes, such as an encoded JSON value.
    Buffer(Vec<u8>),
    /// Form fields, in the order they were added.
    Forms(Vec<(String, String)>),
}

/// The mathematical value of a [`Body`].
pub enum BodyView {
    Empty,
    Buffer(Seq<u8>),
    Forms(Seq<(Seq<char>, Seq<char>)>),
}

impl View for Body {
    type V = BodyView;

    open spec fn view(&self) -> BodyView {
        match self {
            Body::Empty => BodyView::Empty,
            Body::Buffer(b) => BodyView::Buffer(b@),
            Body::Forms(ps) => BodyView::Forms(pairs_view(ps@)),
        }
    }
}

/// The name under which the content type is kept in a header map.
pub open spec fn content_type_name() -> Seq<char> {
    "content-type"@
}

pub open spec fn json_type() -> Seq<char> {
    "application/json"@
}

pub open spec fn form_type() -> Seq<char> {
    "application/x-www-form-urlencoded"@
}

/// What a request holds: its method, the pairs of its URL's query, its
/// header fields and its body.
pub struct RequestView {
    pub method: Method,
    pub query: Seq<(Seq<char>, Seq<char>)>,
    pub headers: Map<Seq<char>, Seq<char>>,
    pub body: BodyView,
}

impl RequestView {
    /// The form fields of the body, none unless it is `Forms`.
    pub open spec fn form_pairs(self) -> Seq<(Seq<char>, Seq<char>)> {
        match self.body {
            BodyView::Forms(ps) => ps,
            _ => Seq::empty(),
        }
    }

    /// One more query pair at the end.
    pub open spec fn with_param(self, name: Seq<char>, value: Seq<char>) -> RequestView {
        RequestView {
            method: self.method,
            query: self.query.push((name, value)),
            headers: self.headers,
            body: self.body,
        }
    }

    /// The body becomes the bytes, and the content type JSON.
    pub open spec fn with_json(self, bytes: Seq<u8>) -> RequestView {
        RequestView {
            method: self.method,
            query: self.query,
            headers: self.headers.insert(content_type_name(), json_type()),
            body: BodyView::Buffer(bytes),
        }
    }

    /// A form field is added to a `Forms` body; any other body is replaced
    /// by this one field, and the content type becomes the form type.
    pub open spec fn with_form(self, name: Seq<char>, value: Seq<char>) -> RequestView {
        match self.body {
            BodyView::Forms(ps) => RequestView {
                method: self.method,
                query: self.query,
                headers: self.headers,
                body: BodyView::Forms(ps.push((name, value))),
            },
            _ => RequestView {
                method: self.method,
                query: self.query,
                headers: self.headers.insert(content_type_name(), form_type()),
                body: BodyView::Forms(seq![(name, value)]),
            },
        }
    }

    /// The bytes sent as the body, if any.
    pub open spec fn payload(self) -> Option<Seq<u8>> {
        match self.body {
            BodyView::Empty => None,
            BodyView::Buffer(b) => Some(b),
            BodyView::Forms(ps) => Some(form_body(ps)),
        }
    }
}

/// A request under construction.
#[derive(Clone, Debug)]
pub struct Request {
    pub method: Method,
    pub url: url::Url,
    pub headers: hyper::header::Headers,
    pub body: Body,
}

impl View for Request {
    type V = RequestView;

    open spec fn view(&self) -> RequestView {
        RequestView {
            method: self.method,
            query: query_pairs_of(self.url),
            headers: header_fields_of(self.headers),
            body: self.body@,
        }
    }
}

/// A request resolved for sending: the body is encoded into bytes.
pub struct Prepared {
    pub method: Method,
    pub url: url::Url,
    pub headers: hyper::header::Headers,
    pub body: Option<Vec<u8>>,
}

/// The bytes of an optional buffer.
pub open spec fn bytes_of(b: Option<Vec<u8>>) -> Option<Seq<u8>> {
    match b {
        Some(v) => Some(v@),
        None => None,
    }
}

/// What a newly built request for `method` and `url` is: it exists exactly
/// when the URL parses, and then holds the parsed URL, no headers and no
/// body (and no query if the text has no `?`); otherwise the parser's error
/// is returned.
pub open spec fn is_new_request(
    r: Result<Request, url::ParseError>,
    method: Method,
    url: Seq<char>,
) -> bool {
    &&& r.is_ok() == parse_result_of(url).is_ok()
    &&& r matches Err(e) ==> parse_result_of(url) is Err && parse_result_of(url)->Err_0 == e
    &&& r matches Ok(req) ==> {
        &&& parse_result_of(url) is Ok && parse_result_of(url)->Ok_0 == req.url
        &&& !url.contains('?') ==> query_text_of(req.url) is None && req@.query.len() == 0
        &&& req@.method == method
        &&& req@.headers == no_header_fields()
        &&& req@.body == BodyView::Empty
    }
}

impl Request {
    /// Creates a request; fails when `url` is not an absolute URL.
    pub fn new(method: Method, url: &str) -> (r: Result<Request, url::ParseError>)
        ensures
            is_new_request(r, method, url@),
    {
        match parse_url(url) {
            Ok(u) => Ok(Request { method, url: u, headers: empty_headers(), body: Body::Empty }),
            Err(e) => Err(e),
        }
    }

    /// Adds a name/value pair at the end of the URL's query string.
    pub fn param(self, name: &str, value: &str) -> (r: Request)
        ensures
            r@ == self@.with_param(name@, value@),
            query_text_of(r.url) == Some(query_text_after(query_text_of(self.url), name@, value@)),
            r.headers == self.headers,
    {
        let mut req = self;
        append_query_pair(&mut req.url, name, value);
        req
    }

    /// Sets already encoded JSON as the body, replacing any other body, and
    /// makes the content type `application/json`.
    pub fn body_json_bytes(self, json: Vec<u8>) -> (r: Request)
        ensures
            r@ == self@.with_json(json@),
            r.url == self.url,
    {
        let mut req = self;
        set_json_content_type(&mut req.headers);
        req.body = Body::Buffer(json);
        req
    }

    /// Adds a form field. A body that holds no form fields is replaced by
    /// this one, and the content type becomes
    /// `application/x-www-form-urlencoded`.
    pub fn body_form(self, name: &str, value: &str) -> (r: Request)
        ensures
            r@ == self@.with_form(name@, value@),
            r.url == self.url,
    {
        let mut req = self;
        let field = (name.to_owned(), value.to_owned());
        let body = match req.body {
            Body::Forms(v) => {
                let mut v = v;
                v.push(field);
                Body::Forms(v)
            },
            _ => {
                set_form_content_type(&mut req.headers);
                Body::Forms(vec![field])
            },
        };
        req.body = body;
        proof {
            assert(req@.body == self@.with_form(name@, value@).body) by {
                if let BodyView::Forms(ps) = self@.body {
                    assert(pairs_view(req.body->Forms_0@) =~= ps.push((name@, value@)));
                } else {
                    assert(pairs_view(req.body->Forms_0@) =~= seq![(name@, value@)]);
                }
            }
        }
        req
    }

    /// Resolves the request for sending: form fields are encoded here.
    pub fn prepare(self) -> (r: Prepared)
        ensures
            r.method == self.method,
            r.url == self.url,
            r.headers == self.headers,
            query_pairs_of(r.url) == self@.query,
            header_fields_of(r.headers) == self@.headers,
            bytes_of(r.body) == self@.payload(),
    {
        let body = match self.body {
            Body::Empty => None,
            Body::Buffer(b) => Some(b),
            Body::Forms(ps) => Some(encode_form(&ps)),
        };
        Prepared { method: self.method, url: self.url, headers: self.headers, body }
    }
}

/// Creates an OPTIONS request.
pub fn options(url: &str) -> (r: Result<Request, url::ParseError>)
    ensures
        is_new_request(r, Method::Options, url@),
{
    Request::new(Method::Options, url)
}

/// Creates a GET request.
pub fn get(url: &str) -> (r: Result<Request, url::ParseError>)
    ensures
        is_new_request(r, Method::Get, url@),
{
    Request::new(Method::Get, url)
}

/// Creates a POST request.
pub fn post(url: &str) -> (r: Result<Request, url::ParseError>)
    ensures
        is_new_request(r, Method::Post, url@),
{
    Request::new(Method::Post, url)
}

/// Creates a PUT request.
pub fn put(url: &str) -> (r: Result<Request, url::ParseError>)
    ensures
        is_new_request(r, Method::Put, url@),
{
    Request::new(Method::Put, url)
}

/// Creates a DELETE request.
pub fn delete(url: &str) -> (r: Result<Request, url::ParseError>)
    ensures
        is_new_request(r, Method::Delete, url@),
{
    Request::new(Method::Delete, url)
}

/// Creates a HEAD request.
pub fn head(url: &str) -> (r: Result<Request, url::ParseError>)
    ensures
        is_new_request(r, Method::Head, url@),
{
    Request::new(Method::Head, url)
}

/// Creates a TRACE request.
pub fn trace(url: &str) -> (r: Result<Request, url::ParseError>)
    ensures
        is_new_request(r, Method::Trace, url@),
{
    Request::new(Method::Trace, url)
}

/// Creates a CONNECT request.
pub fn connect(url: &str) -> (r: Result<Request, url::ParseError>)
    ensures
        is_new_request(r, Method::Connect, url@),
{
    Request::new(Method::Connect, url)
}

/// Creates a PATCH request.
pub fn patch(url: &str) -> (r: Result<Request, url::ParseError>)
    ensures
        is_new_request(r, Method::Patch, url@),
{
    Request::new(Method::Patch, url)
}

} // verus!

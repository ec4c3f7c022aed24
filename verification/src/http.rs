//! The library's own model of an HTTP request.
//!
//! The pipeline's guarantees are about what a request carries — its method,
//! target, headers and body as plain values. Endpoint helpers assemble a
//! value of this type; the unverified dispatch layer converts it into the
//! transport crate's request right before sending.

use vstd::prelude::*;

verus! {

/// The request methods the endpoints use.
#[derive(Clone, Copy, Debug, PartialEq, Eq, Structural)]
pub enum HttpMethod {
    Get,
    Post,
}

/// One request header: a name and a raw value.
#[derive(Clone, Debug)]
pub struct HttpHeader {
    /// The header name, lower case.
    pub name: String,
    /// The raw header value.
    pub value: Vec<u8>,
}

/// The abstract value of a header.
pub struct HttpHeaderView {
    pub name: Seq<char>,
    pub value: Seq<u8>,
}

impl View for HttpHeader {
    type V = HttpHeaderView;

    open spec fn view(&self) -> HttpHeaderView {
        HttpHeaderView { name: self.name@, value: self.value@ }
    }
}

/// An outgoing request: method, absolute target URL, headers, and body.
#[derive(Clone, Debug)]
pub struct HttpRequest {
    /// The request method.
    pub method: HttpMethod,
    /// The absolute target URL.
    pub url: String,
    /// The request headers, in order.
    pub headers: Vec<HttpHeader>,
    /// The request body, as raw bytes.
    pub body: Vec<u8>,
}

/// The abstract value of a request.
pub struct HttpRequestView {
    pub method: HttpMethod,
    pub url: Seq<char>,
    pub headers: Seq<HttpHeaderView>,
    pub body: Seq<u8>,
}

impl View for HttpRequest {
    type V = HttpRequestView;

    open spec fn view(&self) -> HttpRequestView {
        HttpRequestView {
            method: self.method,
            url: self.url@,
            headers: self.headers@.map_values(|h: HttpHeader| h@),
            body: self.body@,
        }
    }
}

impl HttpRequest {
    /// A bare request: no headers, empty body.
    pub fn new(method: HttpMethod, url: String) -> (r: Self)
        ensures
            r@.method == method,
            r@.url == url@,
            r@.headers == Seq::<HttpHeaderView>::empty(),
            r@.body == Seq::<u8>::empty(),
    {
        let r = HttpRequest { method, url, headers: Vec::new(), body: Vec::new() };
        proof {
            assert(r@.headers =~= Seq::<HttpHeaderView>::empty());
        }
        r
    }

    /// A GET request for a URL.
    pub fn get(url: String) -> (r: Self)
        ensures
            r@.method == HttpMethod::Get,
            r@.url == url@,
            r@.headers == Seq::<HttpHeaderView>::empty(),
            r@.body == Seq::<u8>::empty(),
    {
        HttpRequest::new(HttpMethod::Get, url)
    }

    /// Replaces the body.
    pub fn set_body(&mut self, body: Vec<u8>)
        ensures
            final(self)@.method == old(self)@.method,
            final(self)@.url == old(self)@.url,
            final(self)@.headers == old(self)@.headers,
            final(self)@.body == body@,
    {
        self.body = body;
    }
}

} // verus!

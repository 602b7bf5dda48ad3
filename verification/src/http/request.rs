use crate::fields::{put, Entry, Fields};
use crate::http::uri::{uri_of, Uri, UriView};
use crate::http::Method;
use crate::http::Version;
use vstd::prelude::*;
use vstd::string::StringExecFns;

verus! {

/// What a `Request` holds, as plain values.
pub struct RequestView {
    pub method: Method,
    pub uri: UriView,
    pub version: Version,
    pub headers: Seq<Entry>,
    pub body: Seq<u8>,
}

/// A request: method, target, version, headers and body.
#[derive(Debug, Clone)]
pub struct Request {
    method: Method,
    uri: Uri,
    version: Version,
    headers: Fields,
    pub body: Vec<u8>,
}

impl View for Request {
    type V = RequestView;

    closed spec fn view(&self) -> RequestView {
        RequestView {
            method: self.method,
            uri: self.uri@,
            version: self.version,
            headers: self.headers@,
            body: self.body@,
        }
    }
}

/// A request for `method` with nothing else set: empty path, no query, no
/// headers, empty body.
pub open spec fn blank_request(method: Method) -> RequestView {
    RequestView {
        method,
        uri: UriView { path: Seq::empty(), query: None, pattern_params: None },
        version: Version::HTTP1_1,
        headers: Seq::empty(),
        body: Seq::empty(),
    }
}

impl RequestView {
    /// The same request with `params` as its path parameters.
    pub open spec fn with_params(self, params: Seq<Entry>) -> RequestView {
        RequestView {
            uri: UriView { pattern_params: Some(params), ..self.uri },
            ..self
        }
    }
}

impl Request {
    /// A request for `method` with nothing else set.
    pub fn new(method: Method) -> (r: Self)
        ensures
            r@ == blank_request(method),
    {
        let r = Request {
            method,
            uri: Uri { path: String::new(), query: None, pattern_params: None },
            version: Version::HTTP1_1,
            headers: Fields::new(),
            body: Vec::new(),
        };
        r
    }

    /// The method.
    pub fn method(&self) -> (m: &Method)
        ensures
            *m == self@.method,
    {
        &self.method
    }

    /// The protocol version.
    pub fn version(&self) -> (v: &Version)
        ensures
            *v == self@.version,
    {
        &self.version
    }

    /// The headers.
    pub fn headers(&self) -> (h: &Fields)
        ensures
            h@ == self@.headers,
    {
        &self.headers
    }

    /// The body.
    pub fn content(&self) -> (b: &Vec<u8>)
        ensures
            b@ == self@.body,
    {
        &self.body
    }

    /// Replaces the body.
    pub fn body(&mut self, body: Vec<u8>) -> (r: &Self)
        ensures
            final(self)@ == (RequestView { body: body@, ..old(self)@ }),
            r@ == final(self)@,
    {
        self.body = body;
        self
    }

    /// Sets the header `k` to `v`, in place of the value it had.
    pub fn insert_header(&mut self, k: &str, v: &str) -> (r: &Self)
        ensures
            final(self)@ == (RequestView { headers: put(old(self)@.headers, k@, v@), ..old(self)@ }),
            r@ == final(self)@,
    {
        self.headers.insert(String::from_str(k), String::from_str(v));
        self
    }

    /// Parses `path` as the request target and sets it, which drops the path
    /// parameters that were there.
    pub fn set_uri(&mut self, path: &str) -> (r: &Self)
        ensures
            final(self)@ == (RequestView { uri: uri_of(path@), ..old(self)@ }),
            r@ == final(self)@,
    {
        self.uri = Uri::new(path);
        self
    }

    /// The request target.
    pub fn uri(&self) -> (u: &Uri)
        ensures
            u@ == self@.uri,
    {
        &self.uri
    }

    /// Sets the path parameters.
    pub fn add_params(&mut self, params: Fields) -> (r: &Self)
        ensures
            final(self)@ == old(self)@.with_params(params@),
            r@ == final(self)@,
    {
        self.uri.pattern_params = Some(params);
        self
    }
}

} // verus!

use crate::fields::{put, Entry, Fields};
use crate::http::StatusCode;
use crate::http::Version;
use crate::text::{decimal, push_decimal};
use chrono::Utc;
use vstd::prelude::*;
use vstd::string::StrSliceExecFns;
use vstd::string::StringExecFns;
use vstd::string::StringSliceAdditionalSpecFns;
use vstd::utf8::encode_utf8;

verus! {

/// What a `Response` holds, as plain values.
pub struct ResponseView {
    pub status: StatusCode,
    pub version: Version,
    pub headers: Seq<Entry>,
    pub body: Seq<u8>,
}

/// A response: status, version, headers and body.
#[derive(Debug, Clone)]
pub struct Response {
    status: StatusCode,
    version: Version,
    headers: Fields,
    body: Vec<u8>,
}

impl View for Response {
    type V = ResponseView;

    closed spec fn view(&self) -> ResponseView {
        ResponseView {
            status: self.status,
            version: self.version,
            headers: self.headers@,
            body: self.body@,
        }
    }
}

/// A response with `status`, no headers and `body`.
pub open spec fn plain_response(status: StatusCode, body: Seq<u8>) -> ResponseView {
    ResponseView { status, version: Version::HTTP1_1, headers: Seq::empty(), body }
}

/// The body of the preset 404: the text `Not Found`.
pub open spec fn not_found_body() -> Seq<u8> {
    encode_utf8("Not Found"@)
}

/// The header lines for `headers`, each `name: value` and a line break, in
/// the order of the entries.
pub open spec fn header_lines(headers: Seq<Entry>) -> Seq<char>
    decreases headers.len(),
{
    if headers.len() == 0 {
        Seq::empty()
    } else {
        header_lines(headers.drop_last()) + headers.last().0 + ": "@ + headers.last().1 + "\r\n"@
    }
}

/// The head of the serialized response: status line, the three fixed
/// headers, the response's own headers and the blank line.
pub open spec fn head_text(r: ResponseView, date: Seq<char>) -> Seq<char> {
    r.version.name() + " "@ + decimal(r.status.code()) + " "@ + r.status.phrase() + "\r\n"@
        + "Content-Length: "@ + decimal(r.body.len()) + "\r\n"@ + "Server: warv\r\n"@ + "Date: "@
        + date + "\r\n"@ + header_lines(r.headers) + "\r\n"@
}

/// The serialized response: the head as UTF-8, then the body.
pub open spec fn wire_bytes(r: ResponseView, date: Seq<char>) -> Seq<u8> {
    encode_utf8(head_text(r, date)) + r.body
}

/// The head of a serialized response is a fixed text, the date, and a fixed
/// text again: for one response, two serializations differ in the date only.
pub proof fn lemma_only_the_date_varies(r: ResponseView, first: Seq<char>, second: Seq<char>)
    ensures
        exists|prefix: Seq<char>, suffix: Seq<char>|
            head_text(r, first) == prefix + first + suffix && head_text(r, second) == prefix
                + second + suffix,
        first == second ==> wire_bytes(r, first) == wire_bytes(r, second),
{
    let prefix = r.version.name() + " "@ + decimal(r.status.code()) + " "@ + r.status.phrase()
        + "\r\n"@ + "Content-Length: "@ + decimal(r.body.len()) + "\r\n"@ + "Server: warv\r\n"@
        + "Date: "@;
    let suffix = "\r\n"@ + header_lines(r.headers) + "\r\n"@;
    assert(head_text(r, second) =~= prefix + second + suffix);
}

/// `Utc::now` followed by `DateTime::to_rfc2822`: the current time as an RFC
/// 2822 date. Nothing is claimed of the text. Both calls panic only where the
/// system clock stands before 1970 or after the year 9999.
#[verifier::external_body]
fn current_date() -> String {
    Utc::now().to_rfc2822()
}

impl Response {
    /// A response with `status`, no headers and an empty body.
    pub fn new(status: StatusCode) -> (r: Self)
        ensures
            r@ == plain_response(status, Seq::empty()),
    {
        let r = Response {
            status,
            version: Version::HTTP1_1,
            headers: Fields::new(),
            body: Vec::new(),
        };
        r
    }

    /// 200 OK with an empty body.
    pub fn ok() -> (r: Self)
        ensures
            r@ == plain_response(StatusCode::OK, Seq::empty()),
    {
        Response::new(StatusCode::OK)
    }

    /// 400 Bad Request with an empty body.
    pub fn bad_request() -> (r: Self)
        ensures
            r@ == plain_response(StatusCode::BadRequest, Seq::empty()),
    {
        Response::new(StatusCode::BadRequest)
    }

    /// 204 No Content with an empty body.
    pub fn no_content() -> (r: Self)
        ensures
            r@ == plain_response(StatusCode::NoContent, Seq::empty()),
    {
        Response::new(StatusCode::NoContent)
    }

    /// 404 Not Found with the body `Not Found`.
    pub fn not_found() -> (r: Self)
        ensures
            r@ == plain_response(StatusCode::NotFound, not_found_body()),
    {
        let mut r = Response::new(StatusCode::NotFound);
        r.body = "Not Found".as_bytes_vec();
        r
    }

    /// 500 Internal Server Error with an empty body.
    pub fn internal_server_error() -> (r: Self)
        ensures
            r@ == plain_response(StatusCode::InternalServerError, Seq::empty()),
    {
        Response::new(StatusCode::InternalServerError)
    }

    /// The status.
    pub fn status(&self) -> (s: &StatusCode)
        ensures
            *s == self@.status,
    {
        &self.status
    }

    /// The protocol version.
    pub fn version(&self) -> (v: &Version)
        ensures
            *v == self@.version,
    {
        &self.version
    }

    /// The headers.
    pub fn headers(&self) -> (h: &Fields)
        ensures
            h@ == self@.headers,
    {
        &self.headers
    }

    /// The body.
    pub fn content(&self) -> (b: &Vec<u8>)
        ensures
            b@ == self@.body,
    {
        &self.body
    }

    /// Replaces the body.
    pub fn body(&mut self, body: Vec<u8>) -> (r: &Self)
        ensures
            final(self)@ == (ResponseView { body: body@, ..old(self)@ }),
            r@ == final(self)@,
    {
        self.body = body;
        self
    }

    /// Sets the header `k` to `v`, in place of the value it had.
    pub fn insert_header(&mut self, k: String, v: String) -> (r: &Self)
        ensures
            final(self)@ == (ResponseView { headers: put(old(self)@.headers, k@, v@), ..old(self)@ }),
            r@ == final(self)@,
    {
        self.headers.insert(k, v);
        self
    }

    /// Serializes the response with `date` in its `Date` header.
    pub fn format_with_date(&self, date: &str) -> (out: Vec<u8>)
        ensures
            out@ == wire_bytes(self@, date@),
    {
        let mut head = String::new();
        head.append(self.version.as_str());
        head.append(" ");
        push_decimal(&mut head, self.status.as_u16() as usize);
        head.append(" ");
        head.append(self.status.reason());
        head.append("\r\n");
        head.append("Content-Length: ");
        push_decimal(&mut head, self.body.len());
        head.append("\r\n");
        head.append("Server: warv\r\n");
        head.append("Date: ");
        head.append(date);
        head.append("\r\n");
        let ghost fixed = head@;
        let n = self.headers.len();
        let mut i: usize = 0;
        while i < n
            invariant
                n == self@.headers.len(),
                i <= n,
                head@ == fixed + header_lines(self@.headers.take(i as int)),
            decreases n - i,
        {
            proof {
                let upto = self@.headers.take(i + 1);
                assert(upto.drop_last() =~= self@.headers.take(i as int));
            }
            head.append(self.headers.name(i).as_str());
            head.append(": ");
            head.append(self.headers.value(i).as_str());
            head.append("\r\n");
            i += 1;
        }
        assert(self@.headers.take(n as int) =~= self@.headers);
        head.append("\r\n");
        let mut out = head.as_str().as_bytes_vec();
        out.extend_from_slice(self.body.as_slice());
        out
    }

    /// Serializes the response, with the current time in its `Date` header:
    /// two serializations of one response differ in that header at most.
    pub fn format(&self) -> (out: Vec<u8>)
        ensures
            exists|date: Seq<char>| out@ == wire_bytes(self@, date),
    {
        let date = current_date();
        self.format_with_date(date.as_str())
    }
}

} // verus!

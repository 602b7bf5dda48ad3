//! The wire format of requests: one request line, header lines up to a blank
//! line, and one line of body, the lines ending in `\r\n`.

use crate::error::Error;
use crate::fields::{put, Entry};
use crate::http::{uri_of, Method, Request, RequestView, Version};
use crate::text::{
    after, before, chars_of, decode, find_in, split, split_at_each, split_words, string_of,
    text_of, words,
};
use vstd::prelude::*;
use vstd::slice::slice_subrange;
use vstd::string::StrSliceExecFns;
use vstd::utf8::encode_utf8;

verus! {

/// The name and value of a header line: what stands before and after the
/// first `": "`. A line without it is no header.
pub open spec fn header_entry(line: Seq<char>) -> Option<Entry> {
    match after(line, seq![':', ' ']) {
        Some(value) => Some((before(line, seq![':', ' ']), value)),
        None => None,
    }
}

/// The index of the first empty line at or after `from`.
pub open spec fn blank_from(lines: Seq<Seq<char>>, from: int) -> Option<int>
    decreases lines.len() - from,
{
    if from < 0 || from >= lines.len() {
        None
    } else if lines[from].len() == 0 {
        Some(from)
    } else {
        blank_from(lines, from + 1)
    }
}

/// The headers that the lines from `from` up to `to` give, a later line
/// replacing an earlier one of the same name; none where one of the lines is
/// no header.
pub open spec fn headers_of(lines: Seq<Seq<char>>, from: int, to: int) -> Option<Seq<Entry>>
    decreases to - from,
{
    if to <= from {
        Some(Seq::empty())
    } else {
        match (headers_of(lines, from, to - 1), header_entry(lines[to - 1])) {
            (Some(headers), Some(entry)) => Some(put(headers, entry.0, entry.1)),
            _ => None,
        }
    }
}

/// The request that `text` holds. The first line gives the method and the
/// target as its first two words, and has a third; the lines after it, up to
/// the first empty line, are the headers; the line after the empty line is
/// the body.
pub open spec fn parsed(text: Seq<char>) -> Option<RequestView> {
    let lines = split(text, seq!['\r', '\n']);
    let tokens = words(lines[0]);
    if tokens.len() < 3 {
        None
    } else {
        match (Method::named(tokens[0]), blank_from(lines, 1)) {
            (Some(method), Some(blank)) => if blank + 1 < lines.len() {
                match headers_of(lines, 1, blank) {
                    Some(headers) => Some(
                        RequestView {
                            method,
                            uri: uri_of(tokens[1]),
                            version: Version::HTTP1_1,
                            headers,
                            body: encode_utf8(lines[blank + 1]),
                        },
                    ),
                    None => None,
                }
            } else {
                None
            },
            _ => None,
        }
    }
}

/// The request that `bytes` hold: they are UTF-8 text, and the text holds a
/// request.
pub open spec fn request_of(bytes: Seq<u8>) -> Option<RequestView> {
    match text_of(bytes) {
        Some(text) => parsed(text),
        None => None,
    }
}

/// Once a line is no header, no longer range of lines gives headers.
proof fn lemma_headers_stay_none(lines: Seq<Seq<char>>, from: int, mid: int, to: int)
    requires
        from <= mid <= to,
        headers_of(lines, from, mid) is None,
    ensures
        headers_of(lines, from, to) is None,
    decreases to - mid,
{
    if mid < to {
        lemma_headers_stay_none(lines, from, mid, to - 1);
    }
}

/// Decodes one request from `buffer`. Every failure is a `BadRequest`.
pub fn parse_request(buffer: &[u8]) -> (r: Result<Request, Error>)
    ensures
        match r {
            Ok(request) => request_of(buffer@) == Some(request@),
            Err(e) => request_of(buffer@) is None && e == Error::BadRequest,
        },
{
    let text = match decode(buffer) {
        Some(text) => text,
        None => {
            return Err(Error::BadRequest);
        },
    };
    let chars = chars_of(text);
    let crlf: Vec<char> = vec!['\r', '\n'];
    let lines = split_at_each(chars.as_slice(), crlf.as_slice());
    let ghost all = split(text@, seq!['\r', '\n']);
    let tokens = split_words(lines[0]);
    if tokens.len() < 3 {
        return Err(Error::BadRequest);
    }
    let name = string_of(tokens[0]);
    let method = match Method::from_token(name.as_str()) {
        Some(method) => method,
        None => {
            return Err(Error::BadRequest);
        },
    };
    let target = string_of(tokens[1]);
    let count = lines.len();
    let mut blank: usize = 1;
    while blank < count && lines[blank].len() != 0
        invariant
            count == lines@.len(),
            1 <= blank <= count,
            lines@.len() == all.len(),
            forall|i: int| 0 <= i < lines@.len() ==> (#[trigger] lines@[i])@ == all[i],
            blank_from(all, 1) == blank_from(all, blank as int),
        decreases count - blank,
    {
        blank += 1;
    }
    if blank >= count || blank + 1 >= count {
        return Err(Error::BadRequest);
    }
    let mut request = Request::new(method);
    request.set_uri(target.as_str());
    let ghost base = request@;
    let separator: Vec<char> = vec![':', ' '];
    let mut k: usize = 1;
    while k < blank
        invariant
            1 <= k <= blank < count,
            count == lines@.len(),
            lines@.len() == all.len(),
            forall|i: int| 0 <= i < lines@.len() ==> (#[trigger] lines@[i])@ == all[i],
            separator@ == seq![':', ' '],
            headers_of(all, 1, k as int) == Some(request@.headers),
            request@ == (RequestView { headers: request@.headers, ..base }),
            text_of(buffer@) == Some(text@),
            all == split(text@, seq!['\r', '\n']),
            blank_from(all, 1) == Some(blank as int),
        decreases blank - k,
    {
        let line = lines[k];
        match find_in(line, separator.as_slice()) {
            Some(i) => {
                let n = line.len();
                let key = string_of(slice_subrange(line, 0, i));
                let value = string_of(slice_subrange(line, i + 2, n));
                request.insert_header(key.as_str(), value.as_str());
            },
            None => {
                proof {
                    lemma_headers_stay_none(all, 1, k + 1, blank as int);
                }
                return Err(Error::BadRequest);
            },
        }
        k += 1;
    }
    let body = string_of(lines[blank + 1]);
    request.body(body.as_str().as_bytes_vec());
    Ok(request)
}

} // verus!

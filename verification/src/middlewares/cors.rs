use crate::fields::{lookup, put, Entry};
use crate::text::str_eq;
use crate::handler::Next;
use crate::http::{plain_response, Method, Request, RequestView, Response, ResponseView, StatusCode};
use crate::middleware::Middleware;
use crate::state::State;
use vstd::prelude::*;
use vstd::string::StringExecFns;

verus! {

/// The parts, with `", "` between each two of them.
pub open spec fn joined(parts: Seq<Seq<char>>) -> Seq<char>
    decreases parts.len(),
{
    if parts.len() == 0 {
        Seq::empty()
    } else if parts.len() == 1 {
        parts[0]
    } else {
        joined(parts.drop_last()) + ", "@ + parts.last()
    }
}

/// What a `CorsMiddleware` allows, as plain values.
pub struct CorsPolicy {
    pub origins: Seq<Seq<char>>,
    pub methods: Seq<Method>,
    pub headers: Seq<Seq<char>>,
    pub credentials: bool,
}

impl CorsPolicy {
    /// Whether requests from `origin` get the headers: the origin is listed,
    /// or `*` is.
    pub open spec fn allows(self, origin: Seq<char>) -> bool {
        self.origins.contains(origin) || self.origins.contains("*"@)
    }

    /// `headers` with the headers that a response to `origin` gets: none where
    /// the origin is not allowed.
    pub open spec fn decorate(self, headers: Seq<Entry>, origin: Seq<char>) -> Seq<Entry> {
        if self.allows(origin) {
            let with_origin = put(headers, "Access-Control-Allow-Origin"@, origin);
            let with_methods = put(
                with_origin,
                "Access-Control-Allow-Methods"@,
                joined(self.methods.map_values(|m: Method| m.name())),
            );
            let with_headers = put(
                with_methods,
                "Access-Control-Allow-Headers"@,
                joined(self.headers),
            );
            if self.credentials {
                put(with_headers, "Access-Control-Allow-Credentials"@, "true"@)
            } else {
                with_headers
            }
        } else {
            headers
        }
    }

    /// `resp` with the headers that a response to `origin` gets.
    pub open spec fn apply(self, resp: ResponseView, origin: Seq<char>) -> ResponseView {
        ResponseView { headers: self.decorate(resp.headers, origin), ..resp }
    }
}

/// Cross-origin resource sharing: marks the responses to requests that carry
/// an `Origin` header, and answers preflight requests itself.
pub struct CorsMiddleware {
    allowed_origins: Vec<String>,
    allowed_methods: Vec<Method>,
    allowed_headers: Vec<String>,
    allow_credentials: bool,
}

impl View for CorsMiddleware {
    type V = CorsPolicy;

    closed spec fn view(&self) -> CorsPolicy {
        CorsPolicy {
            origins: self.allowed_origins@.map_values(|s: String| s@),
            methods: self.allowed_methods@,
            headers: self.allowed_headers@.map_values(|s: String| s@),
            credentials: self.allow_credentials,
        }
    }
}

fn contains_text(list: &Vec<String>, text: &str) -> (r: bool)
    ensures
        r == list@.map_values(|s: String| s@).contains(text@),
{
    let ghost views = list@.map_values(|s: String| s@);
    let mut i: usize = 0;
    while i < list.len()
        invariant
            i <= list@.len(),
            views == list@.map_values(|s: String| s@),
            forall|j: int| 0 <= j < i ==> views[j] != text@,
        decreases list@.len() - i,
    {
        if str_eq(list[i].as_str(), text) {
            assert(views[i as int] == text@);
            return true;
        }
        i += 1;
    }
    false
}

fn join_texts(list: &Vec<String>) -> (r: String)
    ensures
        r@ == joined(list@.map_values(|s: String| s@)),
{
    let ghost views = list@.map_values(|s: String| s@);
    let mut out = String::new();
    let mut i: usize = 0;
    while i < list.len()
        invariant
            i <= list@.len(),
            views == list@.map_values(|s: String| s@),
            out@ == joined(views.take(i as int)),
        decreases list@.len() - i,
    {
        assert(views.take(i + 1).drop_last() =~= views.take(i as int));
        if i > 0 {
            out.append(", ");
        }
        out.append(list[i].as_str());
        i += 1;
    }
    assert(views.take(list@.len() as int) =~= views);
    out
}

fn join_methods(list: &Vec<Method>) -> (r: String)
    ensures
        r@ == joined(list@.map_values(|m: Method| m.name())),
{
    let ghost views = list@.map_values(|m: Method| m.name());
    let mut out = String::new();
    let mut i: usize = 0;
    while i < list.len()
        invariant
            i <= list@.len(),
            views == list@.map_values(|m: Method| m.name()),
            out@ == joined(views.take(i as int)),
        decreases list@.len() - i,
    {
        assert(views.take(i + 1).drop_last() =~= views.take(i as int));
        if i > 0 {
            out.append(", ");
        }
        out.append(list[i].as_str());
        i += 1;
    }
    assert(views.take(list@.len() as int) =~= views);
    out
}

impl CorsMiddleware {
    /// A middleware that allows the given origins (`*` for all), and announces
    /// the given methods and headers.
    pub fn new(
        allowed_origins: Vec<String>,
        allowed_methods: Vec<Method>,
        allowed_headers: Vec<String>,
        allow_credentials: bool,
    ) -> (m: Self)
        ensures
            m@ == (CorsPolicy {
                origins: allowed_origins@.map_values(|s: String| s@),
                methods: allowed_methods@,
                headers: allowed_headers@.map_values(|s: String| s@),
                credentials: allow_credentials,
            }),
    {
        CorsMiddleware { allowed_origins, allowed_methods, allowed_headers, allow_credentials }
    }

    /// Adds to `response` the headers that a response to `origin` gets.
    pub fn add_cors_headers(&self, response: &mut Response, origin: &str)
        ensures
            final(response)@ == self@.apply(old(response)@, origin@),
    {
        if contains_text(&self.allowed_origins, origin) || contains_text(
            &self.allowed_origins,
            "*",
        ) {
            response.insert_header(
                String::from_str("Access-Control-Allow-Origin"),
                String::from_str(origin),
            );
            response.insert_header(
                String::from_str("Access-Control-Allow-Methods"),
                join_methods(&self.allowed_methods),
            );
            response.insert_header(
                String::from_str("Access-Control-Allow-Headers"),
                join_texts(&self.allowed_headers),
            );
            if self.allow_credentials {
                response.insert_header(
                    String::from_str("Access-Control-Allow-Credentials"),
                    String::from_str("true"),
                );
            }
        }
    }
}

impl Middleware for CorsMiddleware {
    /// Without an `Origin` header, the responses of the rest of the chain. With
    /// one: for `OPTIONS`, 204 with the headers and nothing passed on; for any
    /// other method, a response of the rest of the chain with the headers added.
    open spec fn responds(
        &self,
        req: RequestView,
        state: State,
        next: Next,
        resp: ResponseView,
    ) -> bool {
        match lookup(req.headers, "Origin"@) {
            Some(origin) => if req.method == Method::OPTIONS {
                resp == self@.apply(plain_response(StatusCode::NoContent, Seq::empty()), origin)
            } else {
                exists|inner: ResponseView| #[trigger]
                    next.handler.responds(req, state, inner) && resp == self@.apply(inner, origin)
            },
            None => next.handler.responds(req, state, resp),
        }
    }

    fn handle(&self, req: Request, state: State, next: Next) -> (resp: Response) {
        let origin = match req.headers().get("Origin") {
            Some(origin) => Some(origin.clone()),
            None => None,
        };
        match origin {
            Some(origin) => {
                if *req.method() == Method::OPTIONS {
                    let mut response = Response::no_content();
                    self.add_cors_headers(&mut response, origin.as_str());
                    response
                } else {
                    let mut response = next.handle(req, state);
                    self.add_cors_headers(&mut response, origin.as_str());
                    response
                }
            },
            None => next.handle(req, state),
        }
    }
}

} // verus!

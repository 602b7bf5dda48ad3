use crate::handler::{stateful_responds, stateless_responds, HandlerType, Handler};
use crate::http::{
    plain_response, Method, Request, RequestView, Response, ResponseView, StatusCode,
};
use crate::middleware::Middleware;
use crate::middlewarewrapper::{run_chain, Layer, MiddlewareWrapper};
use crate::pattern::{pattern_of, regex_group_names, Pattern};
use crate::state::State;
use crate::text::{chars_of, push_chars, split, split_at_each};
use vstd::prelude::*;
use vstd::slice::slice_subrange;
use vstd::string::StringExecFns;

verus! {

/// Why a route could not be registered.
#[derive(Clone, Debug)]
pub enum RouteError {
    /// The template does not give a valid regular expression; the template is
    /// enclosed.
    InvalidPattern(String),
}

/// One registered route: the method, the compiled pattern and the handler.
pub struct Route {
    pub method: Method,
    pub pattern: Pattern,
    pub target: HandlerType,
}

impl Route {
    /// Whether the route is the one for `req`: the method is the same and the
    /// pattern accepts the whole path.
    pub open spec fn matches(&self, req: RequestView) -> bool {
        self.method == req.method && self.pattern.accepts(req.uri.path)
    }
}

/// The index of the first route at or after `from` that matches `req`.
pub open spec fn first_match(routes: Seq<Route>, req: RequestView, from: int) -> Option<int>
    decreases routes.len() - from,
{
    if from < 0 || from >= routes.len() {
        None
    } else if routes[from].matches(req) {
        Some(from)
    } else {
        first_match(routes, req, from + 1)
    }
}

/// `first_match` finds the first matching route in registration order, and
/// only that.
pub proof fn lemma_first_match(routes: Seq<Route>, req: RequestView, from: int)
    requires
        0 <= from,
    ensures
        match first_match(routes, req, from) {
            Some(i) => from <= i < routes.len() && routes[i].matches(req) && forall|j: int|
                from <= j < i ==> !(#[trigger] routes[j]).matches(req),
            None => forall|j: int| from <= j < routes.len() ==> !(#[trigger] routes[j]).matches(req),
        },
    decreases routes.len() - from,
{
    if from < routes.len() && !routes[from].matches(req) {
        lemma_first_match(routes, req, from + 1);
    }
}

/// `path` without the slashes that it starts with.
pub open spec fn trimmed(path: Seq<char>) -> Seq<char>
    decreases path.len(),
{
    if path.len() > 0 && path[0] == '/' {
        trimmed(path.drop_first())
    } else {
        path
    }
}

/// Whether one of the segments of `relative` is `..`, so that the path could
/// leave the directory it is resolved under.
pub open spec fn climbs(relative: Seq<char>) -> bool {
    split(relative, seq!['/']).contains(seq!['.', '.'])
}

/// `relative` under the directory `dir`.
pub open spec fn under(dir: Seq<char>, relative: Seq<char>) -> Seq<char> {
    if dir.len() == 0 || dir.last() == '/' {
        dir + relative
    } else {
        dir + seq!['/'] + relative
    }
}

/// The file that the request path `path` names under the static root `dir`;
/// none where the path climbs.
pub open spec fn static_file(dir: Seq<char>, path: Seq<char>) -> Option<Seq<char>> {
    let relative = trimmed(path);
    if climbs(relative) {
        None
    } else {
        Some(under(dir, relative))
    }
}

/// Resolves the request path `path` under the static root `dir`.
pub fn resolve_static(dir: &str, path: &str) -> (r: Option<String>)
    ensures
        match r {
            Some(file) => static_file(dir@, path@) == Some(file@),
            None => static_file(dir@, path@) is None,
        },
{
    let chars = chars_of(path);
    let n = chars.len();
    let mut start: usize = 0;
    assert(chars@.skip(0) =~= chars@);
    while start < n && chars[start] == '/'
        invariant
            n == chars@.len(),
            start <= n,
            trimmed(chars@) == trimmed(chars@.skip(start as int)),
        decreases n - start,
    {
        assert(chars@.skip(start as int).drop_first() =~= chars@.skip(start + 1));
        start += 1;
    }
    let relative = slice_subrange(chars.as_slice(), start, n);
    let slash: Vec<char> = vec!['/'];
    assert(slash@ =~= seq!['/']);
    let segments = split_at_each(relative, slash.as_slice());
    let ghost all = split(relative@, seq!['/']);
    let mut k: usize = 0;
    while k < segments.len()
        invariant
            k <= segments@.len(),
            segments@.len() == all.len(),
            forall|i: int| 0 <= i < segments@.len() ==> (#[trigger] segments@[i])@ == all[i],
            forall|i: int| 0 <= i < k ==> all[i] != seq!['.', '.'],
            relative@ == trimmed(path@),
            all == split(relative@, seq!['/']),
        decreases segments@.len() - k,
    {
        let segment = segments[k];
        if segment.len() == 2 && segment[0] == '.' && segment[1] == '.' {
            assert(all[k as int] == seq!['.', '.']);
            return None;
        }
        assert(segment@ != seq!['.', '.']);
        k += 1;
    }
    let dir_chars = chars_of(dir);
    let mut file = String::from_str(dir);
    if dir_chars.len() > 0 && dir_chars[dir_chars.len() - 1] != '/' {
        file.push('/');
    }
    push_chars(&mut file, relative);
    Some(file)
}

/// What the lookup of a static file gave.
#[derive(Clone, Debug)]
pub enum StaticFile {
    /// There is no file at the path.
    Missing,
    /// There is a file, and it could not be read.
    Unreadable,
    /// The bytes of the file.
    Content(Vec<u8>),
}

/// How far a router got with a request.
#[derive(Debug)]
pub enum Routing {
    /// The response.
    Response(Response),
    /// No route matched and the path names a place under the static root: the
    /// caller looks up the file at `path` and hands the result to
    /// `Router::serve_file` with the request.
    NeedFile { path: String, request: Request },
    /// Nothing applied; the request comes back unchanged.
    Unhandled(Request),
}

/// Routes, middlewares, shared state, an optional static root and an
/// optional default handler. Built once, then only read.
pub struct Router {
    routes: Vec<Route>,
    layers: Vec<Layer>,
    state: State,
    static_dir: Option<String>,
    default_handler: Option<HandlerType>,
}

impl Router {
    /// The routes, in the order of their registration.
    pub closed spec fn routes(&self) -> Seq<Route> {
        self.routes@
    }

    /// The middlewares, in the order of their registration.
    pub closed spec fn layers(&self) -> Vec<Layer> {
        self.layers
    }

    /// The shared state.
    pub closed spec fn state(&self) -> State {
        self.state
    }

    /// The static root.
    pub closed spec fn static_dir(&self) -> Option<Seq<char>> {
        match self.static_dir {
            Some(dir) => Some(dir@),
            None => None,
        }
    }

    /// The default handler.
    pub closed spec fn default_handler(&self) -> Option<HandlerType> {
        self.default_handler
    }

    /// Whether `resp` is a response of route `i` to `req`: the request gets
    /// its path parameters and passes through all middlewares, the first
    /// registered outermost, to the route's handler.
    pub open spec fn route_responds(&self, i: int, req: RequestView, resp: ResponseView) -> bool {
        (MiddlewareWrapper {
            layers: &self.layers(),
            from: 0,
            inner: &self.routes()[i].target,
        }).responds(
            req.with_params(self.routes()[i].pattern.params(req.uri.path)),
            self.state(),
            resp,
        )
    }

    /// The file to look up for `req` where no route matches.
    pub open spec fn static_target(&self, req: RequestView) -> Option<Seq<char>> {
        match self.static_dir() {
            Some(dir) => static_file(dir, req.uri.path),
            None => None,
        }
    }

    /// What is left where neither a route nor a file answers `req`: the
    /// response of the default handler, which no middleware wraps, or the
    /// request handed back.
    pub open spec fn falls_back(&self, req: RequestView, out: Routing) -> bool {
        match self.default_handler() {
            Some(fallback) => out matches Routing::Response(resp) && fallback.handler.responds(
                req,
                self.state(),
                resp@,
            ),
            None => out matches Routing::Unhandled(request) && request@ == req,
        }
    }

    /// What `handle_request` may return for `req`.
    pub open spec fn routed(&self, req: RequestView, out: Routing) -> bool {
        match first_match(self.routes(), req, 0) {
            Some(i) => out matches Routing::Response(resp) && self.route_responds(i, req, resp@),
            None => match self.static_target(req) {
                Some(file) => out matches Routing::NeedFile { path, request } && path@ == file
                    && request@ == req,
                None => self.falls_back(req, out),
            },
        }
    }

    /// What `serve_file` may return for `req` and `file`.
    pub open spec fn served(&self, req: RequestView, file: StaticFile, out: Routing) -> bool {
        match file {
            StaticFile::Content(bytes) => out matches Routing::Response(resp) && resp@
                == plain_response(StatusCode::OK, bytes@),
            StaticFile::Unreadable => out matches Routing::Response(resp) && resp@
                == plain_response(StatusCode::InternalServerError, Seq::empty()),
            StaticFile::Missing => self.falls_back(req, out),
        }
    }

    /// Whether two routers differ in their routes at most.
    pub open spec fn same_settings(&self, other: &Router) -> bool {
        &&& self.layers() == other.layers()
        &&& self.state() == other.state()
        &&& self.static_dir() == other.static_dir()
        &&& self.default_handler() == other.default_handler()
    }

    /// A request that routes match is answered by the first of them in
    /// registration order: the request reaches that route's handler, behind
    /// the middlewares, with the path parameters of the match.
    pub proof fn lemma_first_matching_route_answers(&self, i: int, req: RequestView, out: Routing)
        requires
            0 <= i < self.routes().len(),
            self.routes()[i].matches(req),
            forall|j: int| 0 <= j < i ==> !(#[trigger] self.routes()[j]).matches(req),
            self.routed(req, out),
        ensures
            out matches Routing::Response(resp) && self.route_responds(i, req, resp@),
    {
        lemma_first_match(self.routes(), req, 0);
    }

    /// Without middlewares, the responses of a route are those of its handler
    /// to the request with the path parameters of the match.
    pub proof fn lemma_route_without_middlewares(&self, i: int, req: RequestView, resp: ResponseView)
        requires
            0 <= i < self.routes().len(),
            self.layers()@.len() == 0,
        ensures
            self.route_responds(i, req, resp) <==> self.routes()[i].target.handler.responds(
                req.with_params(self.routes()[i].pattern.params(req.uri.path)),
                self.state(),
                resp,
            ),
    {
    }

    /// A router without routes, middlewares, static root or default handler.
    pub fn new() -> (r: Self)
        ensures
            r.routes().len() == 0,
            r.layers()@.len() == 0,
            r.static_dir() is None,
            r.default_handler() is None,
    {
        Router {
            routes: Vec::new(),
            layers: Vec::new(),
            state: State::new(),
            static_dir: None,
            default_handler: None,
        }
    }

    fn add(&mut self, method: Method, path: &str, target: HandlerType) -> (r: Result<
        (),
        RouteError,
    >)
        ensures
            final(self).same_settings(old(self)),
            match r {
                Ok(_) => {
                    &&& final(self).routes() == old(self).routes().push(final(self).routes().last())
                    &&& final(self).routes().last().method == method
                    &&& final(self).routes().last().pattern.source() == pattern_of(path@)
                    &&& final(self).routes().last().target == target
                    &&& regex_group_names(pattern_of(path@)) == Some(
                        final(self).routes().last().pattern.names(),
                    )
                },
                Err(RouteError::InvalidPattern(template)) => {
                    &&& final(self).routes() == old(self).routes()
                    &&& regex_group_names(pattern_of(path@)) is None
                    &&& template@ == path@
                },
            },
    {
        match Pattern::compile(path) {
            Some(pattern) => {
                self.routes.push(Route { method, pattern, target });
                Ok(())
            },
            None => Err(RouteError::InvalidPattern(String::from_str(path))),
        }
    }

    /// Registers `handler`, a function of the request, for `method` and the
    /// path template `path`, after the routes that are there. Fails, and
    /// changes nothing, exactly where the template does not give a valid
    /// regular expression.
    pub fn add_stateless_route<F>(&mut self, method: Method, path: &str, handler: F) -> (r: Result<
        (),
        RouteError,
    >) where F: Fn(Request) -> Response + Send + Sync + 'static
        requires
            forall|req: Request| call_requires(handler, (req,)),
        ensures
            final(self).same_settings(old(self)),
            match r {
                Ok(_) => {
                    &&& final(self).routes() == old(self).routes().push(final(self).routes().last())
                    &&& final(self).routes().last().method == method
                    &&& final(self).routes().last().pattern.source() == pattern_of(path@)
                    &&& regex_group_names(pattern_of(path@)) == Some(
                        final(self).routes().last().pattern.names(),
                    )
                    &&& forall|req: RequestView, state: State, resp: ResponseView|
                        final(self).routes().last().target.handler.responds(req, state, resp)
                            <==> stateless_responds(handler, req, resp)
                },
                Err(RouteError::InvalidPattern(template)) => {
                    &&& final(self).routes() == old(self).routes()
                    &&& regex_group_names(pattern_of(path@)) is None
                    &&& template@ == path@
                },
            },
    {
        self.add(method, path, HandlerType::stateless(handler))
    }

    /// Registers `handler`, a function of the request and the shared state,
    /// for `method` and the path template `path`, after the routes that are
    /// there. Fails, and changes nothing, exactly where the template does not
    /// give a valid regular expression.
    pub fn add_stateful_route<F>(&mut self, method: Method, path: &str, handler: F) -> (r: Result<
        (),
        RouteError,
    >) where F: Fn(Request, State) -> Response + Send + Sync + 'static
        requires
            forall|req: Request, state: State| call_requires(handler, (req, state)),
        ensures
            final(self).same_settings(old(self)),
            match r {
                Ok(_) => {
                    &&& final(self).routes() == old(self).routes().push(final(self).routes().last())
                    &&& final(self).routes().last().method == method
                    &&& final(self).routes().last().pattern.source() == pattern_of(path@)
                    &&& regex_group_names(pattern_of(path@)) == Some(
                        final(self).routes().last().pattern.names(),
                    )
                    &&& forall|req: RequestView, state: State, resp: ResponseView|
                        final(self).routes().last().target.handler.responds(req, state, resp)
                            <==> stateful_responds(handler, req, state, resp)
                },
                Err(RouteError::InvalidPattern(template)) => {
                    &&& final(self).routes() == old(self).routes()
                    &&& regex_group_names(pattern_of(path@)) is None
                    &&& template@ == path@
                },
            },
    {
        self.add(method, path, HandlerType::stateful(handler))
    }

    /// Registers `handler` for `method` and the path template `path`, after
    /// the routes that are there. Fails, and changes nothing, exactly where
    /// the template does not give a valid regular expression.
    pub fn add_route<H: Handler + 'static>(&mut self, method: Method, path: &str, handler: H) -> (r:
        Result<(), RouteError>)
        ensures
            final(self).same_settings(old(self)),
            match r {
                Ok(_) => {
                    &&& final(self).routes() == old(self).routes().push(final(self).routes().last())
                    &&& final(self).routes().last().method == method
                    &&& final(self).routes().last().pattern.source() == pattern_of(path@)
                    &&& regex_group_names(pattern_of(path@)) == Some(
                        final(self).routes().last().pattern.names(),
                    )
                    &&& final(self).routes().last().target == (HandlerType {
                        handler: Box::new(handler),
                    })
                },
                Err(RouteError::InvalidPattern(template)) => {
                    &&& final(self).routes() == old(self).routes()
                    &&& regex_group_names(pattern_of(path@)) is None
                    &&& template@ == path@
                },
            },
    {
        self.add(method, path, HandlerType::new(handler))
    }

    /// Registers `middleware` after the middlewares that are there: it is the
    /// innermost so far.
    pub fn add_middleware<M: Middleware + 'static>(&mut self, middleware: M)
        ensures
            final(self).routes() == old(self).routes(),
            final(self).state() == old(self).state(),
            final(self).static_dir() == old(self).static_dir(),
            final(self).default_handler() == old(self).default_handler(),
            final(self).layers()@ == old(self).layers()@.push(
                Layer { middleware: Box::new(middleware) },
            ),
    {
        self.layers.push(Layer::new(middleware));
    }

    /// Replaces the shared state by one that holds `state`.
    pub fn set_state<T: 'static + Send + Sync>(&mut self, state: T)
        ensures
            final(self).routes() == old(self).routes(),
            final(self).layers() == old(self).layers(),
            final(self).static_dir() == old(self).static_dir(),
            final(self).default_handler() == old(self).default_handler(),
    {
        self.state.set(state);
    }

    /// Sets the static root.
    pub fn set_static_dir(&mut self, dir: String)
        ensures
            final(self).routes() == old(self).routes(),
            final(self).layers() == old(self).layers(),
            final(self).state() == old(self).state(),
            final(self).default_handler() == old(self).default_handler(),
            final(self).static_dir() == Some(dir@),
    {
        self.static_dir = Some(dir);
    }

    /// Sets the handler for the requests that nothing else answers.
    pub fn set_default_handler<H: Handler + 'static>(&mut self, handler: H)
        ensures
            final(self).routes() == old(self).routes(),
            final(self).layers() == old(self).layers(),
            final(self).state() == old(self).state(),
            final(self).static_dir() == old(self).static_dir(),
            final(self).default_handler() == Some(HandlerType { handler: Box::new(handler) }),
    {
        self.default_handler = Some(HandlerType::new(handler));
    }

    fn fall_back(&self, request: Request) -> (out: Routing)
        ensures
            self.falls_back(request@, out),
    {
        match &self.default_handler {
            Some(fallback) => Routing::Response(
                fallback.handler.handle(request, self.state.clone()),
            ),
            None => Routing::Unhandled(request),
        }
    }

    /// Routes `req`: the first route, in registration order, whose method
    /// and pattern match answers it through the middlewares. Where none
    /// matches, the static root is tried, then the default handler.
    pub fn handle_request(&self, req: Request) -> (out: Routing)
        ensures
            self.routed(req@, out),
    {
        let mut request = req;
        let mut i: usize = 0;
        while i < self.routes.len()
            invariant
                i <= self.routes@.len(),
                request@ == req@,
                first_match(self.routes(), req@, 0) == first_match(self.routes(), req@, i as int),
            decreases self.routes@.len() - i,
        {
            let route = &self.routes[i];
            if route.method == *request.method() {
                match route.pattern.captures(request.uri().path()) {
                    Some(params) => {
                        request.add_params(params);
                        let resp = run_chain(
                            &self.layers,
                            &route.target,
                            request,
                            self.state.clone(),
                        );
                        return Routing::Response(resp);
                    },
                    None => {},
                }
            }
            i += 1;
        }
        match &self.static_dir {
            Some(dir) => match resolve_static(dir.as_str(), request.uri().path()) {
                Some(path) => {
                    return Routing::NeedFile { path, request };
                },
                None => {},
            },
            None => {},
        }
        self.fall_back(request)
    }

    /// Goes on with `request` after the lookup of its static file gave `file`:
    /// the file's bytes are served with 200, a file that cannot be read gives
    /// 500, and without a file the default handler is tried.
    pub fn serve_file(&self, request: Request, file: StaticFile) -> (out: Routing)
        ensures
            self.served(request@, file, out),
            !(out is NeedFile),
    {
        match file {
            StaticFile::Content(bytes) => {
                let mut response = Response::ok();
                response.body(bytes);
                Routing::Response(response)
            },
            StaticFile::Unreadable => Routing::Response(Response::internal_server_error()),
            StaticFile::Missing => self.fall_back(request),
        }
    }
}

} // verus!

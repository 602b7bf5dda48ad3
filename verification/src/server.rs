use crate::codec::{parse_request, request_of};
use crate::http::{not_found_body, plain_response, Request, RequestView, Response, StatusCode};
use crate::router::{first_match, Router, Routing, StaticFile};
use vstd::prelude::*;

verus! {

/// The size of the buffer that one read of a connection fills.
pub const BUFFER_SIZE: usize = 1024 * 30;

/// What a connection does next for the request at hand.
#[derive(Debug)]
pub enum Exchange {
    /// Write this response.
    Reply(Response),
    /// Look up the file at `path` for router `router`, and hand the result to
    /// `Server::resume` with the request.
    NeedFile { router: usize, path: String, request: Request },
}

/// The routers of a server, tried in the order of their registration, with
/// the hints for the scheduler that runs the connections.
pub struct Server {
    workers: usize,
    stack_size: usize,
    router: Vec<Router>,
}

impl Server {
    /// The number of workers.
    pub closed spec fn worker_count(&self) -> usize {
        self.workers
    }

    /// The stack size of one connection.
    pub closed spec fn stack_hint(&self) -> usize {
        self.stack_size
    }

    /// The routers, in the order of their registration.
    pub closed spec fn routers(&self) -> Seq<Router> {
        self.router@
    }

    /// Whether router `i` has nothing for `req`: no route matches, no static
    /// file is to be looked up, and there is no default handler.
    pub open spec fn silent(&self, i: int, req: RequestView) -> bool {
        &&& first_match(self.routers()[i].routes(), req, 0) is None
        &&& self.routers()[i].static_target(req) is None
        &&& self.routers()[i].default_handler() is None
    }

    /// The built-in answer where no router has one: 404 with the body
    /// `Not Found`.
    pub open spec fn unanswered(out: Exchange) -> bool {
        out matches Exchange::Reply(resp) && resp@ == plain_response(
            StatusCode::NotFound,
            not_found_body(),
        )
    }

    /// What the routers from index `from` on make of `req`: the first of them
    /// that is not silent decides, and where all are silent the answer is the
    /// built-in 404.
    pub open spec fn answered(&self, from: int, req: RequestView, out: Exchange) -> bool
        decreases self.routers().len() - from,
    {
        if from < 0 || from >= self.routers().len() {
            Server::unanswered(out)
        } else {
            let router = self.routers()[from];
            match first_match(router.routes(), req, 0) {
                Some(i) => out matches Exchange::Reply(resp) && router.route_responds(
                    i,
                    req,
                    resp@,
                ),
                None => match router.static_target(req) {
                    Some(file) => out matches Exchange::NeedFile { router: index, path, request }
                        && index == from && path@ == file && request@ == req,
                    None => match router.default_handler() {
                        Some(fallback) => out matches Exchange::Reply(resp)
                            && fallback.handler.responds(req, router.state(), resp@),
                        None => self.answered(from + 1, req, out),
                    },
                },
            }
        }
    }

    /// What follows once the lookup of the static file for router `router`
    /// gave `file`: the file is served, or the router's default handler
    /// answers, or the routers after it are tried.
    pub open spec fn resumed(
        &self,
        router: int,
        req: RequestView,
        file: StaticFile,
        out: Exchange,
    ) -> bool {
        if router < 0 || router >= self.routers().len() {
            Server::unanswered(out)
        } else {
            match file {
                StaticFile::Content(bytes) => out matches Exchange::Reply(resp) && resp@
                    == plain_response(StatusCode::OK, bytes@),
                StaticFile::Unreadable => out matches Exchange::Reply(resp) && resp@
                    == plain_response(StatusCode::InternalServerError, Seq::empty()),
                StaticFile::Missing => match self.routers()[router].default_handler() {
                    Some(fallback) => out matches Exchange::Reply(resp)
                        && fallback.handler.responds(
                        req,
                        self.routers()[router].state(),
                        resp@,
                    ),
                    None => self.answered(router + 1, req, out),
                },
            }
        }
    }

    /// Where every router from `from` on is silent for `req`, the answer is
    /// the built-in 404 with the body `Not Found`.
    pub proof fn lemma_silence_gives_not_found(
        &self,
        from: int,
        req: RequestView,
        out: Exchange,
    )
        requires
            0 <= from,
            forall|i: int| from <= i < self.routers().len() ==> self.silent(i, req),
            self.answered(from, req, out),
        ensures
            Server::unanswered(out),
        decreases self.routers().len() - from,
    {
        if from < self.routers().len() {
            assert(self.silent(from, req));
            self.lemma_silence_gives_not_found(from + 1, req, out);
        }
    }

    /// A server with four workers, a stack of 256 KiB and no router.
    pub fn new() -> (s: Self)
        ensures
            s.worker_count() == 4,
            s.stack_hint() == 256 * 1024,
            s.routers().len() == 0,
    {
        Server { workers: 4, stack_size: 256 * 1024, router: Vec::new() }
    }

    /// Sets the number of workers.
    pub fn worker(&mut self, amount: usize)
        ensures
            final(self).worker_count() == amount,
            final(self).stack_hint() == old(self).stack_hint(),
            final(self).routers() == old(self).routers(),
    {
        self.workers = amount;
    }

    /// Sets the stack size of one connection.
    pub fn stack(&mut self, size: usize)
        ensures
            final(self).stack_hint() == size,
            final(self).worker_count() == old(self).worker_count(),
            final(self).routers() == old(self).routers(),
    {
        self.stack_size = size;
    }

    /// Adds `router` after the routers that are there.
    pub fn add_router(&mut self, router: Router)
        ensures
            final(self).routers() == old(self).routers().push(router),
            final(self).worker_count() == old(self).worker_count(),
            final(self).stack_hint() == old(self).stack_hint(),
    {
        self.router.push(router);
    }

    /// The number of workers.
    pub fn workers(&self) -> (n: usize)
        ensures
            n == self.worker_count(),
    {
        self.workers
    }

    /// The stack size of one connection.
    pub fn stack_size(&self) -> (n: usize)
        ensures
            n == self.stack_hint(),
    {
        self.stack_size
    }

    /// Tries the routers from index `from` on, in order, with `request`.
    pub fn dispatch(&self, from: usize, request: Request) -> (out: Exchange)
        ensures
            self.answered(from as int, request@, out),
    {
        let mut current = request;
        let mut i: usize = from;
        while i < self.router.len()
            invariant
                from <= i,
                current@ == request@,
                forall|out: Exchange| #[trigger]
                    self.answered(i as int, request@, out) ==> self.answered(
                        from as int,
                        request@,
                        out,
                    ),
            decreases self.router@.len() - i,
        {
            match self.router[i].handle_request(current) {
                Routing::Response(response) => {
                    let out = Exchange::Reply(response);
                    assert(self.answered(i as int, request@, out));
                    return out;
                },
                Routing::NeedFile { path, request: back } => {
                    let out = Exchange::NeedFile { router: i, path, request: back };
                    assert(self.answered(i as int, request@, out));
                    return out;
                },
                Routing::Unhandled(back) => {
                    assert forall|out: Exchange| #[trigger]
                        self.answered(i + 1, request@, out) implies self.answered(
                        from as int,
                        request@,
                        out,
                    ) by {
                        assert(self.answered(i as int, request@, out));
                    }
                    current = back;
                },
            }
            i += 1;
        }
        let out = Exchange::Reply(Response::not_found());
        assert(self.answered(i as int, request@, out));
        out
    }

    /// Takes the bytes of one read: a request that does not parse is answered
    /// with 400 and an empty body, any other goes to the routers.
    pub fn receive(&self, buffer: &[u8]) -> (out: Exchange)
        ensures
            match request_of(buffer@) {
                Some(req) => self.answered(0, req, out),
                None => out matches Exchange::Reply(resp) && resp@ == plain_response(
                    StatusCode::BadRequest,
                    Seq::empty(),
                ),
            },
    {
        match parse_request(buffer) {
            Ok(request) => self.dispatch(0, request),
            Err(e) => Exchange::Reply(e.http_response()),
        }
    }

    /// Goes on with `request` once the lookup of the static file for router
    /// `router` gave `file`.
    pub fn resume(&self, router: usize, request: Request, file: StaticFile) -> (out: Exchange)
        ensures
            self.resumed(router as int, request@, file, out),
    {
        if router >= self.router.len() {
            return Exchange::Reply(Response::not_found());
        }
        match self.router[router].serve_file(request, file) {
            Routing::Response(response) => Exchange::Reply(response),
            Routing::Unhandled(back) => self.dispatch(router + 1, back),
            Routing::NeedFile { path, request: back } => Exchange::NeedFile {
                router,
                path,
                request: back,
            },
        }
    }
}

} // verus!

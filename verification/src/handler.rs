use crate::http::{Request, RequestView, Response, ResponseView};
use crate::state::State;
use vstd::prelude::*;

verus! {

/// Anything that answers a request, given the shared state.
pub trait Handler: Send + Sync {
    /// Whether `resp` is a response that this handler may give to `req` under
    /// `state`. Any response, unless the implementation says more.
    open spec fn responds(&self, req: RequestView, state: State, resp: ResponseView) -> bool {
        true
    }

    /// Answers `req`.
    fn handle(&self, req: Request, state: State) -> (resp: Response)
        ensures
            self.responds(req@, state, resp@),
    ;
}

/// The rest of the chain, as a middleware sees it: the handler to pass the
/// request on to.
#[derive(Clone, Copy)]
pub struct Next<'a> {
    pub handler: &'a dyn Handler,
}

impl<'a> Next<'a> {
    /// Passes `req` on to the rest of the chain.
    pub fn handle(&self, req: Request, state: State) -> (resp: Response)
        ensures
            self.handler.responds(req@, state, resp@),
    {
        self.handler.handle(req, state)
    }
}

/// A handler behind one type, whatever it is made of: a function of the
/// request, a function of the request and the shared state, or any other
/// `Handler`.
pub struct HandlerType {
    pub handler: Box<dyn Handler>,
}

impl Handler for HandlerType {
    /// The responses of the handler inside.
    open spec fn responds(&self, req: RequestView, state: State, resp: ResponseView) -> bool {
        self.handler.responds(req, state, resp)
    }

    fn handle(&self, req: Request, state: State) -> (resp: Response) {
        self.handler.handle(req, state)
    }
}

impl HandlerType {
    /// Wraps `handler`.
    pub fn new<H: Handler + 'static>(handler: H) -> (boxed: Self)
        ensures
            boxed == (HandlerType { handler: Box::new(handler) }),
    {
        HandlerType { handler: Box::new(handler) }
    }

    /// Wraps a function that takes the request alone. The handler answers as
    /// the function does.
    pub fn stateless<F: Fn(Request) -> Response + Send + Sync + 'static>(f: F) -> (boxed: Self)
        requires
            forall|req: Request| call_requires(f, (req,)),
        ensures
            forall|req: RequestView, state: State, resp: ResponseView|
                boxed.handler.responds(req, state, resp) <==> stateless_responds(f, req, resp),
    {
        HandlerType { handler: Box::new(Stateless::new(f)) }
    }

    /// Wraps a function that takes the request and the shared state. The
    /// handler answers as the function does.
    pub fn stateful<F: Fn(Request, State) -> Response + Send + Sync + 'static>(f: F) -> (boxed:
        Self)
        requires
            forall|req: Request, state: State| call_requires(f, (req, state)),
        ensures
            forall|req: RequestView, state: State, resp: ResponseView|
                boxed.handler.responds(req, state, resp) <==> stateful_responds(
                    f,
                    req,
                    state,
                    resp,
                ),
    {
        HandlerType { handler: Box::new(Stateful::new(f)) }
    }
}

/// Whether the function `f` may give a response that reads `resp` to a
/// request that reads `req`.
pub open spec fn stateless_responds<F: Fn(Request) -> Response>(
    f: F,
    req: RequestView,
    resp: ResponseView,
) -> bool {
    exists|q: Request, p: Response| q@ == req && p@ == resp && #[trigger] call_ensures(f, (q,), p)
}

/// Whether the function `f` may give a response that reads `resp` to a
/// request that reads `req`, under `state`.
pub open spec fn stateful_responds<F: Fn(Request, State) -> Response>(
    f: F,
    req: RequestView,
    state: State,
    resp: ResponseView,
) -> bool {
    exists|q: Request, p: Response|
        q@ == req && p@ == resp && #[trigger] call_ensures(f, (q, state), p)
}

/// A handler made of a function that takes the request alone.
pub struct Stateless<F: Fn(Request) -> Response + Send + Sync> {
    f: F,
}

impl<F: Fn(Request) -> Response + Send + Sync> Stateless<F> {
    #[verifier::type_invariant]
    spec fn total(self) -> bool {
        forall|req: Request| call_requires(self.f, (req,))
    }

    /// The function inside.
    pub closed spec fn function(self) -> F {
        self.f
    }

    /// Wraps `f`, which must accept every request.
    pub fn new(f: F) -> (s: Self)
        requires
            forall|req: Request| call_requires(f, (req,)),
        ensures
            s.function() == f,
    {
        Stateless { f }
    }
}

impl<F: Fn(Request) -> Response + Send + Sync> Handler for Stateless<F> {
    /// The responses of the function, whatever the state.
    open spec fn responds(&self, req: RequestView, state: State, resp: ResponseView) -> bool {
        stateless_responds(self.function(), req, resp)
    }

    fn handle(&self, req: Request, state: State) -> (resp: Response) {
        proof {
            use_type_invariant(self);
        }
        (self.f)(req)
    }
}

/// A handler made of a function that takes the request and the shared state.
pub struct Stateful<F: Fn(Request, State) -> Response + Send + Sync> {
    f: F,
}

impl<F: Fn(Request, State) -> Response + Send + Sync> Stateful<F> {
    #[verifier::type_invariant]
    spec fn total(self) -> bool {
        forall|req: Request, state: State| call_requires(self.f, (req, state))
    }

    /// The function inside.
    pub closed spec fn function(self) -> F {
        self.f
    }

    /// Wraps `f`, which must accept every request and state.
    pub fn new(f: F) -> (s: Self)
        requires
            forall|req: Request, state: State| call_requires(f, (req, state)),
        ensures
            s.function() == f,
    {
        Stateful { f }
    }
}

impl<F: Fn(Request, State) -> Response + Send + Sync> Handler for Stateful<F> {
    /// The responses of the function.
    open spec fn responds(&self, req: RequestView, state: State, resp: ResponseView) -> bool {
        stateful_responds(self.function(), req, state, resp)
    }

    fn handle(&self, req: Request, state: State) -> (resp: Response) {
        proof {
            use_type_invariant(self);
        }
        (self.f)(req, state)
    }
}

} // verus!

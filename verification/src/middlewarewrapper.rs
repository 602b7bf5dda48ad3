use crate::handler::{HandlerType, Handler, Next};
use crate::http::{Request, RequestView, Response, ResponseView};
use crate::middleware::Middleware;
use crate::state::State;
use vstd::prelude::*;

verus! {

/// One registered middleware.
pub struct Layer {
    pub middleware: Box<dyn Middleware>,
}

impl Layer {
    /// A layer that holds `middleware`.
    pub fn new<M: Middleware + 'static>(middleware: M) -> (layer: Self)
        ensures
            layer == (Layer { middleware: Box::new(middleware) }),
    {
        Layer { middleware: Box::new(middleware) }
    }
}

/// The layers from index `from` on, wrapped around `inner`: a handler that
/// hands the request to layer `from` with the layers after it as that layer's
/// `next`, and to `inner` where no layer is left. The layer with the least
/// index is the outermost.
pub struct MiddlewareWrapper<'a> {
    pub layers: &'a Vec<Layer>,
    pub from: usize,
    pub inner: &'a HandlerType,
}

impl<'a> MiddlewareWrapper<'a> {
    /// The same chain without its outermost layer.
    pub open spec fn rest(self) -> MiddlewareWrapper<'a> {
        MiddlewareWrapper { layers: self.layers, from: (self.from + 1) as usize, inner: self.inner }
    }
}

impl<'a> Handler for MiddlewareWrapper<'a> {
    open spec fn responds(&self, req: RequestView, state: State, resp: ResponseView) -> bool {
        if self.from >= self.layers@.len() {
            self.inner.handler.responds(req, state, resp)
        } else {
            self.layers@[self.from as int].middleware.responds(
                req,
                state,
                Next { handler: &self.rest() },
                resp,
            )
        }
    }

    fn handle(&self, req: Request, state: State) -> (resp: Response) {
        if self.from >= self.layers.len() {
            self.inner.handler.handle(req, state)
        } else {
            let rest = MiddlewareWrapper {
                layers: self.layers,
                from: self.from + 1,
                inner: self.inner,
            };
            self.layers[self.from].middleware.handle(req, state, Next { handler: &rest })
        }
    }
}

/// Runs `req` through all of `layers`, the first of them outermost, around
/// `inner`.
pub fn run_chain(
    layers: &Vec<Layer>,
    inner: &HandlerType,
    req: Request,
    state: State,
) -> (resp: Response)
    ensures
        (MiddlewareWrapper { layers, from: 0, inner }).responds(req@, state, resp@),
{
    let chain = MiddlewareWrapper { layers, from: 0, inner };
    chain.handle(req, state)
}

/// Onion order, outside in: the chain answers as its first layer does, and
/// what that layer sees as `next` is the chain of the layers after it. So a
/// request passes the layers in the order of their registration, and the
/// response passes them in the reverse order.
pub proof fn lemma_first_layer_is_outermost(
    chain: MiddlewareWrapper,
    req: RequestView,
    state: State,
    resp: ResponseView,
)
    requires
        chain.from < chain.layers@.len(),
    ensures
        chain.responds(req, state, resp) <==> chain.layers@[chain.from as int].middleware.responds(
            req,
            state,
            Next { handler: &chain.rest() },
            resp,
        ),
{
}

/// Onion order, at the core: behind the last layer stands the handler itself.
pub proof fn lemma_handler_is_innermost(
    chain: MiddlewareWrapper,
    req: RequestView,
    state: State,
    resp: ResponseView,
)
    requires
        chain.from >= chain.layers@.len(),
    ensures
        chain.responds(req, state, resp) <==> chain.inner.handler.responds(req, state, resp),
{
}

/// Onion order for two middlewares M1 and M2, registered in this order, around
/// a handler H. The chain answers as M1 does; what M1 passes on goes to M2,
/// and what M2 passes on goes to H. On the way back H's response is what M2's
/// `next` returned, and M2's response is what M1's `next` returned: the
/// order is M1, M2, H, M2, M1.
pub proof fn lemma_onion_of_two(chain: MiddlewareWrapper, state: State)
    requires
        chain.from == 0,
        chain.layers@.len() == 2,
    ensures
        forall|req: RequestView, resp: ResponseView|
            chain.responds(req, state, resp) <==> chain.layers@[0].middleware.responds(
                req,
                state,
                Next { handler: &chain.rest() },
                resp,
            ),
        forall|req: RequestView, resp: ResponseView|
            chain.rest().responds(req, state, resp) <==> chain.layers@[1].middleware.responds(
                req,
                state,
                Next { handler: &chain.rest().rest() },
                resp,
            ),
        forall|req: RequestView, resp: ResponseView|
            chain.rest().rest().responds(req, state, resp) <==> chain.inner.handler.responds(
                req,
                state,
                resp,
            ),
{
}

/// Whether `layer` answers `req` on its own: its responses are the same
/// whatever the rest of the chain is.
pub open spec fn short_circuits(layer: Layer, req: RequestView, state: State) -> bool {
    forall|a: Next, b: Next, resp: ResponseView|
        layer.middleware.responds(req, state, a, resp) == layer.middleware.responds(
            req,
            state,
            b,
            resp,
        )
}

proof fn lemma_same_answer(
    layer: Layer,
    a: Next,
    b: Next,
    req: RequestView,
    state: State,
    resp: ResponseView,
)
    requires
        short_circuits(layer, req, state),
    ensures
        layer.middleware.responds(req, state, a, resp) == layer.middleware.responds(
            req,
            state,
            b,
            resp,
        ),
{
}

/// Where the outermost layer answers on its own, nothing behind it has a say:
/// two chains that differ in what stands behind that layer answer alike. The
/// layers before it, if it is itself wrapped, still see its response as the
/// response of their `next`.
pub proof fn lemma_short_circuit_skips_the_rest(
    one: MiddlewareWrapper,
    other: MiddlewareWrapper,
    req: RequestView,
    state: State,
    resp: ResponseView,
)
    requires
        one.from < one.layers@.len(),
        other.from < other.layers@.len(),
        one.layers@[one.from as int] == other.layers@[other.from as int],
        short_circuits(one.layers@[one.from as int], req, state),
    ensures
        one.responds(req, state, resp) == other.responds(req, state, resp),
{
    lemma_same_answer(
        one.layers@[one.from as int],
        Next { handler: &one.rest() },
        Next { handler: &other.rest() },
        req,
        state,
        resp,
    );
}

} // verus!

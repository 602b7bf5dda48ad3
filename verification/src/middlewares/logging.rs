use crate::handler::Next;
use crate::http::{Request, RequestView, Response, ResponseView};
use crate::middleware::Middleware;
use crate::state::State;
use vstd::prelude::*;

verus! {

/// The middleware at whose place in the chain requests and responses are
/// logged. It passes every request on unchanged and returns the response
/// unchanged; writing the log lines is left to the application.
#[derive(Clone, Copy, Debug)]
pub struct LoggingMiddleware;

impl LoggingMiddleware {
    pub fn new() -> (m: Self)
        ensures
            m == LoggingMiddleware,
    {
        LoggingMiddleware
    }
}

impl Middleware for LoggingMiddleware {
    /// Exactly the responses of the rest of the chain.
    open spec fn responds(
        &self,
        req: RequestView,
        state: State,
        next: Next,
        resp: ResponseView,
    ) -> bool {
        next.handler.responds(req, state, resp)
    }

    fn handle(&self, req: Request, state: State, next: Next) -> (resp: Response) {
        next.handle(req, state)
    }
}

} // verus!

use crate::handler::Next;
use crate::http::{Request, RequestView, Response, ResponseView};
use crate::state::State;
use vstd::prelude::*;

verus! {

/// An interceptor around the rest of the chain. It answers a request either
/// by passing it on to `next` and working on what comes back, or on its own.
pub trait Middleware: Send + Sync {
    /// Whether `resp` is a response that this middleware may give to `req`
    /// under `state` when `next` is the rest of the chain. Any response, unless
    /// the implementation says more.
    open spec fn responds(
        &self,
        req: RequestView,
        state: State,
        next: Next,
        resp: ResponseView,
    ) -> bool {
        true
    }

    /// Answers `req`, with `next` as the rest of the chain.
    fn handle(&self, req: Request, state: State, next: Next) -> (resp: Response)
        ensures
            self.responds(req@, state, next, resp@),
    ;
}

} // verus!

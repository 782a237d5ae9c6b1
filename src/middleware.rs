use vstd::prelude::*;
use crate::counter::{next_count, RequestCounter};
use crate::handlers::Response;
use crate::routes::{resolve_spec, Dispatcher, Method, RouteSpec, Target};
use vstd::string::StringSliceAdditionalSpecFns;

verus! {

/// Relies on time::precise_time_ns: a reading of the high-resolution clock
/// in nanoseconds since an unspecified epoch. Nothing is known of its value.
#[verifier::external_body]
fn precise_time_ns() -> (r: u64) {
    time::precise_time_ns()
}

/// Per-request scratch state: when the request entered the pipeline.
pub struct RequestContext {
    pub start_ns: u64,
}

impl RequestContext {
    /// The context of a request that arrived at `now_ns`.
    pub fn started_at(now_ns: u64) -> (ctx: RequestContext)
        ensures
            ctx.start_ns == now_ns,
    {
        RequestContext { start_ns: now_ns }
    }
}

/// Why dispatch failed: no route matched, or a matched handler failed with
/// an error of its own.
pub enum Failure<E> {
    NoRouteMatched,
    Other(E),
}

/// How a request ended, after the error hook: a handler's response passed
/// through, the custom 404 in place of a missing route, or a handler's
/// error passed on unchanged.
pub enum Completion<R, E> {
    PassThrough(R),
    RewrittenTo404(Response),
    Propagated(E),
}

/// The body of the response that replaces a missing route.
pub open spec fn not_found_body() -> Seq<char> {
    "Custom 404 response"@
}

/// Whether a response is the custom 404.
pub open spec fn is_custom_404(r: Response) -> bool {
    r.status == 404 && r.body@ == not_found_body()
}

/// What dispatch yields: the matched handler, or `NoRouteMatched`.
pub open spec fn dispatch_spec<E>(routes: Seq<RouteSpec>, method: Method, path: Seq<u8>) -> Result<
    Target,
    Failure<E>,
> {
    match resolve_spec(routes, method, path) {
        Some(t) => Ok(t),
        None => Err(Failure::NoRouteMatched),
    }
}

/// Whether `c` is how a request with the dispatch outcome `outcome` ends.
pub open spec fn completes<R, E>(outcome: Result<R, Failure<E>>, c: Completion<R, E>) -> bool {
    match outcome {
        Ok(r) => c == Completion::<R, E>::PassThrough(r),
        Err(Failure::NoRouteMatched) => match c {
            Completion::RewrittenTo404(resp) => is_custom_404(resp),
            _ => false,
        },
        Err(Failure::Other(e)) => c == Completion::<R, E>::Propagated(e),
    }
}

/// The elapsed time between two clock readings, in nanoseconds; zero where
/// the later reading is below the earlier one.
pub open spec fn elapsed_spec(start_ns: u64, now_ns: u64) -> u64 {
    if now_ns >= start_ns {
        (now_ns - start_ns) as u64
    } else {
        0
    }
}

/// Resolves a request against the route table: the handler to run, or
/// `NoRouteMatched`.
pub fn dispatch<E>(dispatcher: &Dispatcher, method: Method, path: &str) -> (r: Result<
    Target,
    Failure<E>,
>)
    ensures
        r == dispatch_spec::<E>(dispatcher@, method, path.spec_bytes()),
{
    match dispatcher.resolve(method, path) {
        Some(t) => Ok(t),
        None => Err(Failure::NoRouteMatched),
    }
}

/// The hooks that run around dispatch: counting and timing before, the 404
/// rewrite on failure, and the elapsed time after.
pub struct Middleware;

impl Middleware {
    /// Before dispatch: counts the request and records when it arrived,
    /// reading the clock. Returns the context and the counter's step.
    pub fn before(&self, counter: &RequestCounter) -> (r: (RequestContext, (usize, usize)))
        ensures
            r.1.1 == next_count(r.1.0),
    {
        let now_ns = precise_time_ns();
        self.before_at(counter, now_ns)
    }

    /// Before dispatch, with the clock read at `now_ns`: counts the request,
    /// and the context records `now_ns`. Returns the context and the
    /// counter's step: the value the increment replaced and its successor,
    /// which it stored.
    pub fn before_at(&self, counter: &RequestCounter, now_ns: u64) -> (r: (
        RequestContext,
        (usize, usize),
    ))
        ensures
            r.0.start_ns == now_ns,
            r.1.1 == next_count(r.1.0),
    {
        let step = counter.increment();
        (RequestContext::started_at(now_ns), step)
    }

    /// On a dispatch failure: a missing route becomes the custom 404, any
    /// other error is handed back unchanged.
    pub fn catch<E>(&self, err: Failure<E>) -> (r: Result<Response, E>)
        ensures
            match err {
                Failure::NoRouteMatched => r is Ok && is_custom_404(r->Ok_0),
                Failure::Other(e) => r == Err::<Response, E>(e),
            },
    {
        match err {
            Failure::NoRouteMatched => Ok(
                Response { status: 404, body: "Custom 404 response".to_owned() },
            ),
            Failure::Other(e) => Err(e),
        }
    }

    /// After the final response is ready at `now_ns`: the time the request
    /// took, in nanoseconds.
    pub fn elapsed_at(&self, ctx: &RequestContext, now_ns: u64) -> (r: u64)
        ensures
            r == elapsed_spec(ctx.start_ns, now_ns),
    {
        if now_ns >= ctx.start_ns {
            now_ns - ctx.start_ns
        } else {
            0
        }
    }

    /// After the final response is ready: the time the request took, in
    /// nanoseconds, measured now.
    pub fn after(&self, ctx: &RequestContext) -> (r: u64)
        ensures
            r <= u64::MAX - ctx.start_ns,
    {
        let now_ns = precise_time_ns();
        self.elapsed_at(ctx, now_ns)
    }

    /// Ends a request whose dispatch gave `outcome` and whose response is
    /// ready at `now_ns`: applies the error hook, then measures the time, once.
    /// The context is used up, so no request is timed twice.
    pub fn complete_at<R, E>(
        &self,
        ctx: RequestContext,
        outcome: Result<R, Failure<E>>,
        now_ns: u64,
    ) -> (r: (Completion<R, E>, u64))
        ensures
            completes(outcome, r.0),
            r.1 == elapsed_spec(ctx.start_ns, now_ns),
    {
        let completion = match outcome {
            Ok(resp) => Completion::PassThrough(resp),
            Err(err) => match self.catch(err) {
                Ok(resp) => Completion::RewrittenTo404(resp),
                Err(e) => Completion::Propagated(e),
            },
        };
        let elapsed = self.elapsed_at(&ctx, now_ns);
        (completion, elapsed)
    }

    /// Ends a request as `complete_at` does, reading the clock now.
    pub fn complete<R, E>(&self, ctx: RequestContext, outcome: Result<R, Failure<E>>) -> (r: (
        Completion<R, E>,
        u64,
    ))
        ensures
            completes(outcome, r.0),
            r.1 <= u64::MAX - ctx.start_ns,
    {
        let now_ns = precise_time_ns();
        self.complete_at(ctx, outcome, now_ns)
    }
}

/// A request whose path no route matches ends as the custom 404, never as
/// an error: dispatch reports `NoRouteMatched`, and every completion of
/// that outcome is the rewritten 404.
pub proof fn lemma_unmatched_path_gets_custom_404<R, E>(
    routes: Seq<RouteSpec>,
    method: Method,
    path: Seq<u8>,
)
    requires
        resolve_spec(routes, method, path) is None,
    ensures
        dispatch_spec::<E>(routes, method, path) == Err::<Target, Failure<E>>(
            Failure::NoRouteMatched,
        ),
        forall|c: Completion<R, E>|
            completes(Err::<R, Failure<E>>(Failure::NoRouteMatched), c) ==> (
            c is RewrittenTo404 && is_custom_404(c->RewrittenTo404_0)),
{
}

} // verus!

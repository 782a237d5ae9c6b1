use request_pipeline::counter::{successor, RequestCounter};
use request_pipeline::handlers::{get_index, hello_world, public_root, Bundle};
use request_pipeline::middleware::{dispatch, Completion, Failure, Middleware, RequestContext};
use request_pipeline::routes::{Dispatcher, Method, Target};

#[test]
fn hello_resolves_to_greeting_not_public() {
    let d = Dispatcher::new();
    assert_eq!(d.resolve(Method::Get, "/hello"), Some(Target::HelloWorld));
    let r = hello_world();
    assert_eq!(r.status, 200);
    assert_eq!(r.body, "Hello World");
}

#[test]
fn root_resolves_to_index() {
    let d = Dispatcher::new();
    assert_eq!(d.resolve(Method::Get, "/"), Some(Target::Index));
}

#[test]
fn public_is_a_prefix_route() {
    let d = Dispatcher::new();
    assert_eq!(d.resolve(Method::Get, "/public/app.js"), Some(Target::Public));
    assert_eq!(d.resolve(Method::Get, "/public/"), Some(Target::Public));
    assert_eq!(d.resolve(Method::Get, "/public"), None);
    assert_eq!(d.resolve(Method::Get, "/hello/"), None);
    assert_eq!(d.resolve(Method::Get, "/hell"), None);
}

#[test]
fn head_follows_get_and_other_methods_do_not_match() {
    let d = Dispatcher::new();
    assert_eq!(d.resolve(Method::Head, "/hello"), Some(Target::HelloWorld));
    assert_eq!(d.resolve(Method::Other, "/hello"), None);
    assert_eq!(d.resolve(Method::Other, "/"), None);
}

#[test]
fn unmatched_path_becomes_custom_404() {
    let d = Dispatcher::new();
    let outcome = dispatch::<String>(&d, Method::Get, "/does-not-exist");
    assert!(matches!(outcome, Err(Failure::NoRouteMatched)));
    let hooks = Middleware;
    let ctx = RequestContext::started_at(1_000);
    let failure: Result<u32, Failure<String>> = Err(Failure::NoRouteMatched);
    let (c, elapsed) = hooks.complete_at(ctx, failure, 3_500);
    match c {
        Completion::RewrittenTo404(r) => {
            assert_eq!(r.status, 404);
            assert_eq!(r.body, "Custom 404 response");
        }
        _ => panic!("a missing route must be rewritten"),
    }
    assert_eq!(elapsed, 2_500);
}

#[test]
fn catch_rewrites_only_missing_routes() {
    let hooks = Middleware;
    let r = hooks.catch::<String>(Failure::NoRouteMatched);
    let resp = r.ok().unwrap();
    assert_eq!(resp.status, 404);
    assert_eq!(resp.body, "Custom 404 response");
    let other = hooks.catch(Failure::Other("disk".to_string()));
    assert_eq!(other.err(), Some("disk".to_string()));
}

#[test]
fn completion_passes_success_and_propagates_other_errors() {
    let hooks = Middleware;
    let ok: Result<u32, Failure<String>> = Ok(7);
    let (c, elapsed) = hooks.complete_at(RequestContext::started_at(10), ok, 10);
    assert!(matches!(c, Completion::PassThrough(7)));
    assert_eq!(elapsed, 0);
    let err: Result<u32, Failure<String>> = Err(Failure::Other("missing file".to_string()));
    let (c, elapsed) = hooks.complete_at(RequestContext::started_at(5), err, 2_000_005);
    match c {
        Completion::Propagated(e) => assert_eq!(e, "missing file"),
        _ => panic!("other failures pass through"),
    }
    assert_eq!(elapsed, 2_000_000);
}

#[test]
fn elapsed_is_exact_and_never_negative() {
    let hooks = Middleware;
    let ctx = RequestContext::started_at(100);
    assert_eq!(hooks.elapsed_at(&ctx, 1_100), 1_000);
    assert_eq!(hooks.elapsed_at(&ctx, 100), 0);
    assert_eq!(hooks.elapsed_at(&ctx, 50), 0);
    assert_eq!(hooks.elapsed_at(&RequestContext::started_at(0), u64::MAX), u64::MAX);
}

#[test]
fn timing_with_the_clock() {
    let hooks = Middleware;
    let counter = RequestCounter::new();
    let (ctx, step) = hooks.before(&counter);
    assert_eq!(step, (0, 1));
    assert_eq!(counter.read(), 1);
    let _ = hooks.after(&ctx);
    let ok: Result<u8, Failure<()>> = Ok(1);
    let (c, _) = hooks.complete(ctx, ok);
    assert!(matches!(c, Completion::PassThrough(1)));
}

#[test]
fn index_picks_bundle_by_parity() {
    assert_eq!(get_index(0), Bundle::React);
    assert_eq!(get_index(1), Bundle::Angular);
    assert_eq!(get_index(42), Bundle::React);
    assert_eq!(get_index(usize::MAX), Bundle::Angular);
    assert_eq!(Bundle::React.root(), "public/react/");
    assert_eq!(Bundle::Angular.root(), "public/angular/index.html");
    assert_eq!(public_root(), "public/");
}

#[test]
fn sequential_root_requests_alternate() {
    let counter = RequestCounter::new();
    let hooks = Middleware;
    let mut served = Vec::new();
    for _ in 0..6 {
        let (_ctx, _step) = hooks.before(&counter);
        served.push(get_index(counter.read()));
    }
    let expected = vec![
        Bundle::Angular,
        Bundle::React,
        Bundle::Angular,
        Bundle::React,
        Bundle::Angular,
        Bundle::React,
    ];
    assert_eq!(served, expected);
}

#[test]
fn increments_hand_out_each_value_once() {
    let counter = RequestCounter::new();
    let n: usize = 100;
    let mut seen = Vec::new();
    for _ in 0..n {
        let (previous, produced) = counter.increment();
        assert_eq!(produced, previous + 1);
        seen.push(produced);
    }
    let expected: Vec<usize> = (1..=n).collect();
    assert_eq!(seen, expected);
    assert_eq!(counter.read(), n);
}

#[test]
fn counter_wraps_at_width() {
    assert_eq!(successor(usize::MAX), 0);
    assert_eq!(successor(0), 1);
    assert_eq!(successor(41), 42);
}


#[test]
fn before_at_counts_and_records_the_clock() {
    let hooks = Middleware;
    let counter = RequestCounter::new();
    let (ctx, step) = hooks.before_at(&counter, 12_345);
    assert_eq!(ctx.start_ns, 12_345);
    assert_eq!(step, (0, 1));
    let (ctx, step) = hooks.before_at(&counter, 99);
    assert_eq!(ctx.start_ns, 99);
    assert_eq!(step, (1, 2));
    assert_eq!(counter.read(), 2);
}

#[test]
fn first_root_request_of_a_fresh_process_serves_the_single_file() {
    let hooks = Middleware;
    let counter = RequestCounter::new();
    let (_ctx, _step) = hooks.before_at(&counter, 0);
    let bundle = get_index(counter.read());
    assert_eq!(bundle, Bundle::Angular);
    assert_eq!(bundle.root(), "public/angular/index.html");
}

#[test]
fn sequential_requests_alternate_and_404s_are_timed() {
    let hooks = Middleware;
    let counter = RequestCounter::new();
    let d = Dispatcher::new();
    let mut served = Vec::new();
    for i in 0..4u64 {
        let (ctx, _step) = hooks.before_at(&counter, i * 10);
        served.push(get_index(counter.read()));
        let outcome = dispatch::<String>(&d, Method::Get, "/missing");
        let outcome: Result<u8, Failure<String>> = match outcome {
            Ok(_) => Ok(0),
            Err(f) => Err(f),
        };
        let (c, elapsed) = hooks.complete_at(ctx, outcome, i * 10 + 7);
        assert!(matches!(c, Completion::RewrittenTo404(_)));
        assert_eq!(elapsed, 7);
    }
    assert_eq!(served, vec![Bundle::Angular, Bundle::React, Bundle::Angular, Bundle::React]);
    assert_eq!(counter.read(), 4);
}

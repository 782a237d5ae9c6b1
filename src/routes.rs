use vstd::prelude::*;
use vstd::string::StringSliceAdditionalSpecFns;

verus! {

/// The request methods that the dispatcher tells apart.
#[derive(Clone, Copy, Debug, PartialEq, Eq, Structural)]
pub enum Method {
    Get,
    /// Answered by the GET routes, without a body.
    Head,
    Other,
}

/// How a route's pattern is compared with a request path.
#[derive(Clone, Copy, Debug, PartialEq, Eq, Structural)]
pub enum RouteKind {
    /// The path must equal the pattern.
    Exact,
    /// The path must start with the pattern.
    Prefix,
}

/// The handler that a route leads to.
#[derive(Clone, Copy, Debug, PartialEq, Eq, Structural)]
pub enum Target {
    /// `/`: one of the two asset bundles, chosen by the counter.
    Index,
    /// `/hello`: a fixed greeting.
    HelloWorld,
    /// `/public/...`: files under the public asset root.
    Public,
}

/// One registered route: the pattern, how it is matched, and its handler.
pub struct Route {
    pub pattern: Vec<u8>,
    pub kind: RouteKind,
    pub target: Target,
}

/// A route as a mathematical value.
pub type RouteSpec = (Seq<u8>, RouteKind, Target);

impl View for Route {
    type V = RouteSpec;

    open spec fn view(&self) -> RouteSpec {
        (self.pattern@, self.kind, self.target)
    }
}

/// Whether a path satisfies a pattern under the given matching rule.
pub open spec fn route_matches(pattern: Seq<u8>, kind: RouteKind, path: Seq<u8>) -> bool {
    match kind {
        RouteKind::Exact => path == pattern,
        RouteKind::Prefix => pattern.len() <= path.len() && path.subrange(0, pattern.len() as int)
            == pattern,
    }
}

/// The target of the first route at index `i` or later that has the given
/// kind and matches the path.
pub open spec fn first_match_from(
    routes: Seq<RouteSpec>,
    kind: RouteKind,
    path: Seq<u8>,
    i: int,
) -> Option<Target>
    decreases routes.len() - i,
{
    if i < 0 || i >= routes.len() {
        None
    } else if routes[i].1 == kind && route_matches(routes[i].0, kind, path) {
        Some(routes[i].2)
    } else {
        first_match_from(routes, kind, path, i + 1)
    }
}

/// Whether a method is served by the GET routes.
pub open spec fn is_routable(method: Method) -> bool {
    method == Method::Get || method == Method::Head
}

/// Resolution by specificity: the first exact route that equals the path,
/// else the first prefix route that the path starts with, in registration
/// order; nothing for a method that no route serves.
pub open spec fn resolve_spec(routes: Seq<RouteSpec>, method: Method, path: Seq<u8>) -> Option<
    Target,
> {
    if !is_routable(method) {
        None
    } else {
        match first_match_from(routes, RouteKind::Exact, path, 0) {
            Some(t) => Some(t),
            None => first_match_from(routes, RouteKind::Prefix, path, 0),
        }
    }
}

pub open spec fn root_path() -> Seq<u8> {
    seq![47u8]
}

pub open spec fn hello_path() -> Seq<u8> {
    seq![47u8, 104u8, 101u8, 108u8, 108u8, 111u8]
}

pub open spec fn public_path() -> Seq<u8> {
    seq![47u8, 112u8, 117u8, 98u8, 108u8, 105u8, 99u8, 47u8]
}

/// The fixed route table of the server.
pub open spec fn standard_routes() -> Seq<RouteSpec> {
    seq![
        (root_path(), RouteKind::Exact, Target::Index),
        (hello_path(), RouteKind::Exact, Target::HelloWorld),
        (public_path(), RouteKind::Prefix, Target::Public),
    ]
}

/// Scanning from `k` finds a route no later than a matching one at `i`.
proof fn lemma_first_match_reaches(
    routes: Seq<RouteSpec>,
    kind: RouteKind,
    path: Seq<u8>,
    k: int,
    i: int,
)
    requires
        0 <= k <= i < routes.len(),
        routes[i].1 == kind,
        route_matches(routes[i].0, kind, path),
    ensures
        exists|j: int|
            k <= j <= i && routes[j].1 == kind && route_matches(routes[j].0, kind, path)
                && first_match_from(routes, kind, path, k) == Some(routes[j].2),
    decreases i - k,
{
    if !(routes[k].1 == kind && route_matches(routes[k].0, kind, path)) {
        lemma_first_match_reaches(routes, kind, path, k + 1, i);
    } else {
        assert(first_match_from(routes, kind, path, k) == Some(routes[k].2));
    }
}

/// A path that equals the pattern of an exact route is served by an exact
/// route with that pattern, never by a prefix route that the path also
/// starts with, whatever the order of registration.
pub proof fn lemma_exact_route_precedence(
    routes: Seq<RouteSpec>,
    method: Method,
    path: Seq<u8>,
    i: int,
)
    requires
        is_routable(method),
        0 <= i < routes.len(),
        routes[i].1 == RouteKind::Exact,
        routes[i].0 == path,
    ensures
        exists|j: int|
            0 <= j < routes.len() && routes[j].1 == RouteKind::Exact && routes[j].0 == path
                && resolve_spec(routes, method, path) == Some(routes[j].2),
{
    lemma_first_match_reaches(routes, RouteKind::Exact, path, 0, i);
}

/// Whether `path` satisfies the route, byte by byte.
fn route_accepts(route: &Route, path: &[u8]) -> (r: bool)
    ensures
        r == route_matches(route.pattern@, route.kind, path@),
{
    let n = route.pattern.len();
    match route.kind {
        RouteKind::Exact => {
            if path.len() != n {
                return false;
            }
        },
        RouteKind::Prefix => {
            if path.len() < n {
                return false;
            }
        },
    }
    let mut i: usize = 0;
    while i < n
        invariant
            n == route.pattern@.len(),
            n <= path@.len(),
            i <= n,
            forall|j: int| 0 <= j < i ==> path@[j] == route.pattern@[j],
        decreases n - i,
    {
        if path[i] != route.pattern[i] {
            assert(path@.subrange(0, n as int)[i as int] != route.pattern@[i as int]);
            return false;
        }
        i = i + 1;
    }
    assert(path@.subrange(0, n as int) =~= route.pattern@);
    if route.kind == RouteKind::Exact {
        assert(path@ =~= route.pattern@);
    }
    true
}

/// The ordered route table and the lookup over it.
pub struct Dispatcher {
    routes: Vec<Route>,
}

impl View for Dispatcher {
    type V = Seq<RouteSpec>;

    closed spec fn view(&self) -> Seq<RouteSpec> {
        self.routes@.map_values(|r: Route| r@)
    }
}

impl Dispatcher {
    /// The server's table: `/` and `/hello` exact, `/public/` as a prefix.
    pub fn new() -> (d: Dispatcher)
        ensures
            d@ == standard_routes(),
    {
        let root = vec![47u8];
        let hello = vec![47u8, 104u8, 101u8, 108u8, 108u8, 111u8];
        let public = vec![47u8, 112u8, 117u8, 98u8, 108u8, 105u8, 99u8, 47u8];
        assert(root@ =~= root_path());
        assert(hello@ =~= hello_path());
        assert(public@ =~= public_path());
        let mut routes: Vec<Route> = Vec::new();
        routes.push(Route { pattern: root, kind: RouteKind::Exact, target: Target::Index });
        routes.push(Route { pattern: hello, kind: RouteKind::Exact, target: Target::HelloWorld });
        routes.push(Route { pattern: public, kind: RouteKind::Prefix, target: Target::Public });
        let d = Dispatcher { routes };
        assert(d@ =~= standard_routes());
        d
    }

    /// The first route of the given kind, in registration order, that the
    /// path satisfies.
    fn first_match(&self, kind: RouteKind, path: &[u8]) -> (r: Option<Target>)
        ensures
            r == first_match_from(self@, kind, path@, 0),
    {
        let mut i: usize = 0;
        while i < self.routes.len()
            invariant
                i <= self.routes@.len(),
                self@.len() == self.routes@.len(),
                first_match_from(self@, kind, path@, 0) == first_match_from(
                    self@,
                    kind,
                    path@,
                    i as int,
                ),
            decreases self.routes@.len() - i,
        {
            let route = &self.routes[i];
            assert(self@[i as int] == route@);
            if route.kind == kind && route_accepts(route, path) {
                return Some(route.target);
            }
            i = i + 1;
        }
        None
    }

    /// The handler for a request, or `None` when no route matches.
    pub fn resolve(&self, method: Method, path: &str) -> (r: Option<Target>)
        ensures
            r == resolve_spec(self@, method, path.spec_bytes()),
    {
        if !(method == Method::Get || method == Method::Head) {
            return None;
        }
        let bytes = path.as_bytes();
        match self.first_match(RouteKind::Exact, bytes) {
            Some(t) => Some(t),
            None => self.first_match(RouteKind::Prefix, bytes),
        }
    }
}

} // verus!

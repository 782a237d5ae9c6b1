use vstd::prelude::*;
use crate::counter::{count_after, next_count};

verus! {

/// A response made by the library itself: a status code and a text body.
pub struct Response {
    pub status: u16,
    pub body: String,
}

/// The body of the greeting route.
pub open spec fn hello_body() -> Seq<char> {
    "Hello World"@
}

/// `/hello`: status 200 with the greeting.
pub fn hello_world() -> (r: Response)
    ensures
        r.status == 200,
        r.body@ == hello_body(),
{
    Response { status: 200, body: "Hello World".to_owned() }
}

/// The two static asset bundles that the root route chooses between.
#[derive(Clone, Copy, Debug, PartialEq, Eq, Structural)]
pub enum Bundle {
    /// Bundle A: a whole directory tree, served for an even counter.
    React,
    /// Bundle B: a single entry file, served for an odd counter.
    Angular,
}

/// The bundle that a counter value selects: even values pick the directory
/// tree, odd values the single entry file.
pub open spec fn bundle_for(counter: usize) -> Bundle {
    if counter % 2 == 0 {
        Bundle::React
    } else {
        Bundle::Angular
    }
}

/// The other bundle.
pub open spec fn flip(b: Bundle) -> Bundle {
    match b {
        Bundle::React => Bundle::Angular,
        Bundle::Angular => Bundle::React,
    }
}

/// Where a bundle's files are found, relative to the working directory.
pub open spec fn bundle_root(b: Bundle) -> Seq<char> {
    match b {
        Bundle::React => "public/react/"@,
        Bundle::Angular => "public/angular/index.html"@,
    }
}

/// The root of the files served under `/public/`.
pub open spec fn public_root_path() -> Seq<char> {
    "public/"@
}

impl Bundle {
    /// The directory or file that serves this bundle.
    pub fn root(&self) -> (r: String)
        ensures
            r@ == bundle_root(*self),
    {
        match self {
            Bundle::React => "public/react/".to_owned(),
            Bundle::Angular => "public/angular/index.html".to_owned(),
        }
    }
}

/// The directory served under `/public/`.
pub fn public_root() -> (r: String)
    ensures
        r@ == public_root_path(),
{
    "public/".to_owned()
}

/// `/`: chooses the bundle from a fresh read of the counter.
pub fn get_index(counter: usize) -> (r: Bundle)
    ensures
        r == bundle_for(counter),
{
    if counter % 2 == 0 {
        Bundle::React
    } else {
        Bundle::Angular
    }
}

/// One increment always changes the bundle, also where the counter wraps:
/// the largest `usize` is odd and wraps to zero. On a fresh counter the
/// first request reads one and is served the single entry file.
pub proof fn lemma_next_count_flips_bundle(c: usize)
    ensures
        bundle_for(next_count(c)) == flip(bundle_for(c)),
        bundle_for(next_count(0)) == Bundle::Angular,
{
}

/// Requests to `/` that run one after another each move the counter to the
/// successor of its value (`Middleware::before`) and then read it to choose
/// the bundle (`get_index`), so from a start value `c` the `k`-th of them
/// reads `count_after(c, k + 1)`. The bundles they serve alternate: each differs
/// from the one before, and the `k`-th is the first one for even `k` and the
/// other one for odd `k`.
pub proof fn lemma_sequential_requests_alternate(c: usize, k: nat)
    ensures
        bundle_for(count_after(c, k + 2)) != bundle_for(count_after(c, k + 1)),
        bundle_for(count_after(c, k + 1)) == if k % 2 == 0 {
            bundle_for(count_after(c, 1))
        } else {
            flip(bundle_for(count_after(c, 1)))
        },
    decreases k,
{
    lemma_next_count_flips_bundle(count_after(c, k + 1));
    if k > 0 {
        lemma_sequential_requests_alternate(c, (k - 1) as nat);
        lemma_next_count_flips_bundle(count_after(c, k));
    }
}

} // verus!

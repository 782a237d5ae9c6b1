use vstd::prelude::*;

pub mod counter;
pub mod handlers;
pub mod middleware;
pub mod routes;

verus! {

} // verus!

//! The roots of the graph.
use vstd::prelude::*;

verus! {

/// The version of the graph's interface.
pub open spec fn api_version() -> Seq<char> {
    "1.0"@
}

/// The root of queries.
#[derive(Clone, Copy, Debug)]
pub struct Query;

/// The root of mutations.
#[derive(Clone, Copy, Debug)]
pub struct Mutation;

impl Query {
    pub fn apiVersion() -> (r: &'static str)
        ensures
            r@ == api_version(),
    {
        "1.0"
    }
}

impl Mutation {
    pub fn apiVersion() -> (r: &'static str)
        ensures
            r@ == api_version(),
    {
        "1.0"
    }
}

} // verus!

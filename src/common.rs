//! Values shared by many endpoints.
use vstd::prelude::*;

verus! {

/// A payload without content.
#[derive(Clone, Copy, Debug)]
pub struct EmptyJSON {
    /// Always not present
    pub empty: Option<i32>,
}

impl EmptyJSON {
    pub fn new() -> (r: EmptyJSON)
        ensures
            r.empty is None,
    {
        EmptyJSON { empty: None }
    }
}

} // verus!

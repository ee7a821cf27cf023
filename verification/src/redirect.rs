//! The one kind of response the flow produces: a redirect target.

use vstd::prelude::*;

verus! {

/// An HTTP redirect, reduced to its target.
#[derive(Debug)]
pub struct Redirect {
    pub target: Vec<u8>,
}

impl Redirect {
    /// A redirect to `target`.
    pub fn to(target: Vec<u8>) -> (r: Redirect)
        ensures
            r.target == target,
    {
        Redirect { target }
    }

    /// Where the redirect points.
    pub fn target(&self) -> (r: &Vec<u8>)
        ensures
            r == self.target,
    {
        &self.target
    }
}

} // verus!

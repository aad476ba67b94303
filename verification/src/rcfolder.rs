//! A folder handle that only carries its path.

use vstd::prelude::*;

verus! {

/// A named folder on the host.
#[derive(Debug)]
pub struct RcFolder {
    path: String,
}

impl View for RcFolder {
    type V = Seq<char>;

    closed spec fn view(&self) -> Seq<char> {
        self.path@
    }
}

impl RcFolder {
    /// Wrap a path.
    pub fn new(path: String) -> (r: Self)
        ensures
            r@ == path@,
    {
        RcFolder { path }
    }

    /// The wrapped path.
    pub fn get_path(&self) -> (r: &String)
        ensures
            r@ == self@,
    {
        &self.path
    }
}

} // verus!

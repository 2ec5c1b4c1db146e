//! The model builder's configuration: where downloaded model files are
//! cached.
//!
//! Fetching model files and constructing an in-process model are the
//! unverified driver's work; the builder only carries the cache location
//! they share.

use vstd::prelude::*;

verus! {

/// Configuration for building a local model: the cache directory every
/// download and lookup uses.
#[derive(Debug)]
pub struct Builder {
    pub cache_dir: String,
}

impl Builder {
    pub fn new(cache_dir: String) -> (b: Self)
        ensures
            b.cache_dir == cache_dir,
    {
        Builder { cache_dir }
    }
}

} // verus!

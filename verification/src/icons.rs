//! Keys of the cache of the tool's bundled icons.

use vstd::prelude::*;

verus! {

/// A bundled icon at a size: the key under which its handle is cached.
#[derive(Clone, Copy, Debug, PartialEq, Eq, Hash)]
pub struct IconCacheKey {
    pub name: &'static str,
    pub size: u16,
}

impl IconCacheKey {
    pub fn new(name: &'static str, size: u16) -> (k: Self)
        ensures
            k.name@ == name@,
            k.size == size,
    {
        IconCacheKey { name, size }
    }
}

} // verus!

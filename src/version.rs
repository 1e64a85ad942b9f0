//! Monotonic counters used to invalidate caches and trigger redraws.

use vstd::prelude::*;

verus! {

/// A counter that only moves forward, wrapping to zero past `usize::MAX`.
#[derive(Clone, Copy, Debug, PartialEq, Eq, Structural)]
pub struct Version {
    pub version: usize,
}

impl Version {
    /// The value after one increment.
    pub open spec fn next(self) -> Version {
        Version {
            version: if self.version == usize::MAX {
                0
            } else {
                (self.version + 1) as usize
            },
        }
    }

    /// Adds one, wrapping on overflow.
    pub fn increment(&mut self)
        ensures
            *final(self) == old(self).next(),
    {
        self.version = self.version.wrapping_add(1);
    }

    pub fn value(&self) -> (r: usize)
        ensures
            r == self.version,
    {
        self.version
    }
}

/// Below the wrap-around point, an increment strictly increases the counter.
pub proof fn lemma_increment_increases(v: Version)
    requires
        v.version < usize::MAX,
    ensures
        v.next().version > v.version,
{
}

impl Default for Version {
    fn default() -> (r: Version)
        ensures
            r.version == 0,
    {
        Version { version: 0 }
    }
}

} // verus!

use vstd::prelude::*;

verus! {

/// A counter handing out stacking indices, each above the ones before it.
pub struct NextZIndex(pub u32);

impl NextZIndex {
    /// Advances the counter and returns the index for a newly created segment.
    pub fn advance(&mut self) -> (z: u32)
        requires
            old(self).0 < u32::MAX,
        ensures
            final(self).0 == old(self).0 + 1,
            z == final(self).0,
    {
        self.0 = self.0 + 1;
        self.0
    }
}

} // verus!

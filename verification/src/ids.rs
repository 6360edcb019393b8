//! Unique identifiers for spawned entities.
use crate::alive::Id;
use vstd::prelude::*;

verus! {

/// Hands out identifiers in ascending order, starting from zero.
#[derive(Debug, Default)]
pub struct Ids(pub u64);

impl Ids {
    /// A new identifier: the counter's value, which then moves on by one. The counter must not
    /// be at its largest value.
    pub fn get(&mut self) -> (id: Id)
        requires
            old(self).0 < u64::MAX,
        ensures
            id.0 == old(self).0,
            final(self).0 == old(self).0 + 1,
    {
        self.0 = self.0 + 1;
        Id(self.0 - 1)
    }
}

} // verus!

use vstd::prelude::*;

verus! {

/// The index of a message in the log.
#[derive(Debug, Copy, Clone, Ord, PartialOrd, Eq, PartialEq, Structural, Default)]
pub struct LogMsgIdx(pub u64);

/// A term.
#[derive(Debug, Copy, Clone, Ord, PartialOrd, Eq, PartialEq, Structural, Default)]
pub struct Term(pub u64);

impl Term {
    /// Moves to the next term.
    pub fn increment(&mut self)
        requires
            old(self).0 < u64::MAX,
        ensures
            final(self).0 == old(self).0 + 1,
    {
        self.0 = self.0 + 1
    }
}

} // verus!

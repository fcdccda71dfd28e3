//! The side of the fabric a row is worked from.

use vstd::prelude::*;

verus! {

/// Represents the side of the line: the right (public) side or the wrong
/// (hidden) side of the fabric.
#[derive(Debug, PartialEq, Eq, Hash, Copy, Clone)]
pub enum Side {
    RS,
    WS,
}

impl Side {
    /// The side the next row is worked from: unchanged when working in the
    /// round, the opposite side when working flat.
    pub open spec fn spec_switch(self, in_round: bool) -> Side {
        if in_round {
            self
        } else {
            match self {
                Side::RS => Side::WS,
                Side::WS => Side::RS,
            }
        }
    }

    /// Switch to the other side
    ///
    /// # Arguments
    /// `in_round` - If the pattern is in the round
    #[verifier::when_used_as_spec(spec_switch)]
    pub fn switch(self, in_round: bool) -> (r: Side)
        ensures
            r == self.spec_switch(in_round),
    {
        if in_round {
            self
        } else {
            match self {
                Side::RS => Side::WS,
                Side::WS => Side::RS,
            }
        }
    }
}

} // verus!

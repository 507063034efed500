//! Types shared across the selection machinery.

use vstd::prelude::*;

verus! {

/// Where a stylesheet comes from, for the cascade's origin order.
#[derive(Clone, Copy, PartialEq, Eq, Structural, Debug)]
pub enum StylesheetOrigin {
    OriginUA,
    OriginUser,
    OriginAuthor,
}

impl StylesheetOrigin {
    /// The origin's wire value in the collaborator interface: user-agent
    /// sheets are zero, user sheets one, author sheets two.
    pub fn to_net(&self) -> (r: u32)
        ensures
            r == match *self {
                StylesheetOrigin::OriginUA => 0u32,
                StylesheetOrigin::OriginUser => 1u32,
                StylesheetOrigin::OriginAuthor => 2u32,
            },
    {
        match *self {
            StylesheetOrigin::OriginUA => 0,
            StylesheetOrigin::OriginUser => 1,
            StylesheetOrigin::OriginAuthor => 2,
        }
    }
}

} // verus!

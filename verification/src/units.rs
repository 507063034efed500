//! Units used by CSS values.

use vstd::prelude::*;
use crate::fixed::Fixed;

verus! {

/// A CSS length. `Em` is relative to the font size in effect; `Px` and `Pt`
/// are absolute. A relative length must be resolved against a reference font
/// size before a consumer may read it as absolute; asking the wrong side of
/// a length is a programming error and is ruled out by precondition.
#[derive(Clone, Copy, PartialEq, Eq, Structural, Debug)]
pub enum Length {
    Em(Fixed),
    Px(Fixed),
    Pt(Fixed),
}

impl Length {
    /// Whether the length is relative to the font size.
    pub open spec fn spec_is_rel(self) -> bool {
        self is Em
    }

    /// The relative magnitude of a relative length.
    pub fn rel(self) -> (r: Fixed)
        requires
            self.spec_is_rel(),
        ensures
            self == Length::Em(r),
    {
        match self {
            Length::Em(x) => x,
            Length::Px(x) => x,
            Length::Pt(x) => x,
        }
    }

    /// The absolute magnitude of an absolute length.
    pub fn abs(self) -> (r: Fixed)
        requires
            !self.spec_is_rel(),
        ensures
            self == Length::Px(r) || self == Length::Pt(r),
    {
        match self {
            Length::Em(x) => x,
            Length::Px(x) => x,
            Length::Pt(x) => x,
        }
    }
}

/// Used by width, height, top, left and their kin.
#[derive(Clone, Copy, PartialEq, Eq, Structural, Debug)]
pub enum BoxSizing {
    BoxLength(Length),
    BoxPercent(Fixed),
    BoxAuto,
}

/// The absolute-size font keywords.
#[derive(Clone, Copy, PartialEq, Eq, Structural, Debug)]
pub enum AbsoluteSize {
    XXSmall,
    XSmall,
    Small,
    Medium,
    Large,
    XLarge,
    XXLarge,
}

/// The relative-size font keywords.
#[derive(Clone, Copy, PartialEq, Eq, Structural, Debug)]
pub enum RelativeSize {
    Larger,
    Smaller,
}

/// The generic font families.
#[derive(Clone, Copy, PartialEq, Eq, Structural, Debug)]
pub enum GenericFontFamily {
    Serif,
    SansSerif,
    Cursive,
    Fantasy,
    Monospace,
}

} // verus!

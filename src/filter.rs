//! The physical description of a filter: its response type and, for the
//! types that carry a gain, the branch that the gain's sign selects.
use vstd::prelude::*;

verus! {

/// The canonical second-order responses.
#[derive(Clone, Copy, Debug, PartialEq, Eq, Structural)]
pub enum Type {
    LowPass,
    HighPass,
    BandPass,
    Notch,
    Peak,
    LowShelf,
    HighShelf,
}

/// Whether the gain in decibels takes part in the type's formulas.
pub open spec fn spec_is_gain_bearing(t: Type) -> bool {
    t is Peak || t is LowShelf || t is HighShelf
}

impl Type {
    /// True for the peaking and shelving types, whose formulas depend on the gain.
    pub fn is_gain_bearing(&self) -> (r: bool)
        ensures
            r == spec_is_gain_bearing(*self),
    {
        match self {
            Type::Peak | Type::LowShelf | Type::HighShelf => true,
            _ => false,
        }
    }
}

} // verus!

verus! {

/// For the gain-bearing types, the sign of the gain selects a branch:
/// a gain of zero or more boosts, a negative gain cuts.
#[derive(Clone, Copy, Debug, PartialEq, Eq, Structural)]
pub enum Branch {
    Boost,
    Cut,
}

} // verus!

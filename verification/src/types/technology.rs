use vstd::prelude::*;

verus! {

/// The chemistry of a battery.
#[derive(Clone, Copy, Debug, PartialEq, Eq, Structural)]
pub enum Technology {
    Unknown,
    LithiumIon,
    LeadAcid,
    LithiumPolymer,
    NickelMetalHydride,
    NickelCadmium,
    NickelZinc,
    LithiumIronPhosphate,
    RechargeableAlkalineManganese,
}

impl Default for Technology {
    fn default() -> (r: Technology)
        ensures
            r == Technology::Unknown,
    {
        Technology::Unknown
    }
}

} // verus!

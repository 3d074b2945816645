use vstd::prelude::*;

verus! {

/// A logical range axis in the Held-Suarez damping region.
#[derive(Clone, Copy, Debug, PartialEq, Eq, Structural)]
pub enum HeldSuarezDampingAxis {
    /// Common west-east tendency range.
    WestEast,
    /// Common active vertical range.
    BottomTop,
    /// South-north range for west-east momentum.
    WestEastMomentumSouthNorth,
    /// South-north range for south-north momentum.
    SouthNorthMomentumSouthNorth,
}

impl HeldSuarezDampingAxis {
    /// The axis name used in diagnostics.
    pub open spec fn spec_text(self) -> Seq<char> {
        match self {
            HeldSuarezDampingAxis::WestEast => "west-east"@,
            HeldSuarezDampingAxis::BottomTop => "bottom-top"@,
            HeldSuarezDampingAxis::WestEastMomentumSouthNorth => "west-east momentum south-north"@,
            HeldSuarezDampingAxis::SouthNorthMomentumSouthNorth => "south-north momentum south-north"@,
        }
    }

    /// The axis name used in diagnostics.
    pub fn to_string(&self) -> (r: String)
        ensures
            r@ == self.spec_text(),
    {
        String::from_str(match self {
            HeldSuarezDampingAxis::WestEast => "west-east",
            HeldSuarezDampingAxis::BottomTop => "bottom-top",
            HeldSuarezDampingAxis::WestEastMomentumSouthNorth => "west-east momentum south-north",
            HeldSuarezDampingAxis::SouthNorthMomentumSouthNorth => "south-north momentum south-north",
        })
    }
}

} // verus!

use vstd::prelude::*;

verus! {

/// Memory axis named in full inverse-density range errors.
#[derive(Clone, Copy, Debug, PartialEq, Eq, Structural)]
pub enum InverseDensityAxis {
    /// West-east memory axis.
    WestEast,
    /// South-north memory axis.
    SouthNorth,
    /// Bottom-top memory axis.
    BottomTop,
}

impl InverseDensityAxis {
    /// The axis name used in diagnostics.
    pub open spec fn spec_text(self) -> Seq<char> {
        match self {
            InverseDensityAxis::WestEast => "west-east"@,
            InverseDensityAxis::SouthNorth => "south-north"@,
            InverseDensityAxis::BottomTop => "bottom-top"@,
        }
    }

    /// The axis name used in diagnostics.
    pub fn to_string(&self) -> (r: String)
        ensures
            r@ == self.spec_text(),
    {
        String::from_str(match self {
            InverseDensityAxis::WestEast => "west-east",
            InverseDensityAxis::SouthNorth => "south-north",
            InverseDensityAxis::BottomTop => "bottom-top",
        })
    }
}

} // verus!

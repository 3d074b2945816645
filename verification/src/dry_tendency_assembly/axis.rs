use vstd::prelude::*;

verus! {

/// Memory axis named in dry-tendency assembly range errors.
#[derive(Clone, Copy, Debug, PartialEq, Eq, Structural)]
pub enum DryTendencyAssemblyAxis {
    /// West-east memory axis.
    WestEast,
    /// South-north memory axis.
    SouthNorth,
    /// Bottom-top memory axis.
    BottomTop,
}

impl DryTendencyAssemblyAxis {
    /// The axis name used in diagnostics.
    pub open spec fn spec_text(self) -> Seq<char> {
        match self {
            DryTendencyAssemblyAxis::WestEast => "west-east"@,
            DryTendencyAssemblyAxis::SouthNorth => "south-north"@,
            DryTendencyAssemblyAxis::BottomTop => "bottom-top"@,
        }
    }

    /// The axis name used in diagnostics.
    pub fn to_string(&self) -> (r: String)
        ensures
            r@ == self.spec_text(),
    {
        String::from_str(match self {
            DryTendencyAssemblyAxis::WestEast => "west-east",
            DryTendencyAssemblyAxis::SouthNorth => "south-north",
            DryTendencyAssemblyAxis::BottomTop => "bottom-top",
        })
    }
}

} // verus!

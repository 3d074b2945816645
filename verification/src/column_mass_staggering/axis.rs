use vstd::prelude::*;

verus! {

/// Logical field axis used in column-mass staggering diagnostics.
#[derive(Clone, Copy, Debug, PartialEq, Eq, Structural)]
pub enum ColumnMassStaggeringAxis {
    /// West-east memory axis.
    WestEast,
    /// South-north memory axis.
    SouthNorth,
}

impl ColumnMassStaggeringAxis {
    /// The axis name used in diagnostics.
    pub open spec fn spec_text(self) -> Seq<char> {
        match self {
            ColumnMassStaggeringAxis::WestEast => "west-east"@,
            ColumnMassStaggeringAxis::SouthNorth => "south-north"@,
        }
    }

    /// The axis name used in diagnostics.
    pub fn to_string(&self) -> (r: String)
        ensures
            r@ == self.spec_text(),
    {
        String::from_str(match self {
            ColumnMassStaggeringAxis::WestEast => "west-east",
            ColumnMassStaggeringAxis::SouthNorth => "south-north",
        })
    }
}

} // verus!

use vstd::prelude::*;

verus! {

/// Field role used in column-mass staggering shape errors.
#[derive(Clone, Copy, Debug, PartialEq, Eq, Structural)]
pub enum ColumnMassStaggeringField {
    /// Perturbation dry-air column mass input.
    PerturbationMass,
    /// Base-state dry-air column mass input.
    BaseMass,
    /// Already-combined full dry-air column mass input.
    FullMass,
    /// Output at west-east momentum points.
    WestEastMomentumMass,
    /// Output at south-north momentum points.
    SouthNorthMomentumMass,
}

impl ColumnMassStaggeringField {
    /// The field role name used in diagnostics.
    pub open spec fn spec_text(self) -> Seq<char> {
        match self {
            ColumnMassStaggeringField::PerturbationMass => "perturbation mass"@,
            ColumnMassStaggeringField::BaseMass => "base mass"@,
            ColumnMassStaggeringField::FullMass => "full mass"@,
            ColumnMassStaggeringField::WestEastMomentumMass => "west-east momentum mass"@,
            ColumnMassStaggeringField::SouthNorthMomentumMass => "south-north momentum mass"@,
        }
    }

    /// The field role name used in diagnostics.
    pub fn to_string(&self) -> (r: String)
        ensures
            r@ == self.spec_text(),
    {
        String::from_str(match self {
            ColumnMassStaggeringField::PerturbationMass => "perturbation mass",
            ColumnMassStaggeringField::BaseMass => "base mass",
            ColumnMassStaggeringField::FullMass => "full mass",
            ColumnMassStaggeringField::WestEastMomentumMass => "west-east momentum mass",
            ColumnMassStaggeringField::SouthNorthMomentumMass => "south-north momentum mass",
        })
    }
}

} // verus!

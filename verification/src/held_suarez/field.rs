use vstd::prelude::*;

verus! {

/// A field participating in Held-Suarez momentum damping.
#[derive(Clone, Copy, Debug, PartialEq, Eq, Structural)]
pub enum HeldSuarezDampingField {
    /// West-east momentum tendency updated in place.
    WestEastMomentumTendency,
    /// South-north momentum tendency updated in place.
    SouthNorthMomentumTendency,
    /// West-east momentum read by the damping operator.
    WestEastMomentum,
    /// South-north momentum read by the damping operator.
    SouthNorthMomentum,
    /// Perturbation pressure.
    PerturbationPressure,
    /// Base-state pressure.
    BasePressure,
}

impl HeldSuarezDampingField {
    /// The field role name used in diagnostics.
    pub open spec fn spec_text(self) -> Seq<char> {
        match self {
            HeldSuarezDampingField::WestEastMomentumTendency => "west-east momentum tendency"@,
            HeldSuarezDampingField::SouthNorthMomentumTendency => "south-north momentum tendency"@,
            HeldSuarezDampingField::WestEastMomentum => "west-east momentum"@,
            HeldSuarezDampingField::SouthNorthMomentum => "south-north momentum"@,
            HeldSuarezDampingField::PerturbationPressure => "perturbation pressure"@,
            HeldSuarezDampingField::BasePressure => "base pressure"@,
        }
    }

    /// The field role name used in diagnostics.
    pub fn to_string(&self) -> (r: String)
        ensures
            r@ == self.spec_text(),
    {
        String::from_str(match self {
            HeldSuarezDampingField::WestEastMomentumTendency => "west-east momentum tendency",
            HeldSuarezDampingField::SouthNorthMomentumTendency => "south-north momentum tendency",
            HeldSuarezDampingField::WestEastMomentum => "west-east momentum",
            HeldSuarezDampingField::SouthNorthMomentum => "south-north momentum",
            HeldSuarezDampingField::PerturbationPressure => "perturbation pressure",
            HeldSuarezDampingField::BasePressure => "base pressure",
        })
    }
}

} // verus!

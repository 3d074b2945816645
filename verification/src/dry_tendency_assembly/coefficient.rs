use vstd::prelude::*;

verus! {

/// Vertical coefficient used by the diabatic-heating term.
#[derive(Clone, Copy, Debug, PartialEq, Eq, Structural)]
pub enum DryTendencyAssemblyCoefficient {
    /// Multiplier applied to full column mass (`c1`).
    FullMassMultiplier,
    /// Additive vertical offset (`c2`).
    VerticalOffset,
}

impl DryTendencyAssemblyCoefficient {
    /// The coefficient name used in diagnostics.
    pub open spec fn spec_text(self) -> Seq<char> {
        match self {
            DryTendencyAssemblyCoefficient::FullMassMultiplier => "full-mass multiplier"@,
            DryTendencyAssemblyCoefficient::VerticalOffset => "vertical offset"@,
        }
    }

    /// The coefficient name used in diagnostics.
    pub fn to_string(&self) -> (r: String)
        ensures
            r@ == self.spec_text(),
    {
        String::from_str(match self {
            DryTendencyAssemblyCoefficient::FullMassMultiplier => "full-mass multiplier",
            DryTendencyAssemblyCoefficient::VerticalOffset => "vertical offset",
        })
    }
}

} // verus!

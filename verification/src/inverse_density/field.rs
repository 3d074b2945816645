use vstd::prelude::*;

verus! {

/// Field role used by full inverse-density shape validation.
#[derive(Clone, Copy, Debug, PartialEq, Eq, Structural)]
pub enum InverseDensityField {
    /// Full inverse-density output (`alt`).
    FullOutput,
    /// Perturbation inverse density (`al`).
    Perturbation,
    /// Base-state inverse density (`alb`).
    BaseState,
}

impl InverseDensityField {
    /// The field role name used in diagnostics.
    pub open spec fn spec_text(self) -> Seq<char> {
        match self {
            InverseDensityField::FullOutput => "full inverse-density output"@,
            InverseDensityField::Perturbation => "perturbation inverse density"@,
            InverseDensityField::BaseState => "base-state inverse density"@,
        }
    }

    /// The field role name used in diagnostics.
    pub fn to_string(&self) -> (r: String)
        ensures
            r@ == self.spec_text(),
    {
        String::from_str(match self {
            InverseDensityField::FullOutput => "full inverse-density output",
            InverseDensityField::Perturbation => "perturbation inverse density",
            InverseDensityField::BaseState => "base-state inverse density",
        })
    }
}

} // verus!

use vstd::prelude::*;

verus! {

/// Whether persistent boundary tendencies must be accumulated this substep.
#[derive(Clone, Copy, Debug, PartialEq, Eq, Structural)]
pub enum DryTendencyAssemblyPhase {
    /// WRF `rk_step == 1`: add saved boundary tendencies before coupling.
    FirstSubstep,
    /// WRF `rk_step != 1`: reuse the already assembled persistent tendencies.
    LaterSubstep,
}

impl DryTendencyAssemblyPhase {
    /// Saved boundary tendencies are added on the first substep only.
    pub fn adds_saved_tendencies(self) -> (r: bool)
        ensures r == (self is FirstSubstep),
    {
        matches!(self, Self::FirstSubstep)
    }
}

} // verus!

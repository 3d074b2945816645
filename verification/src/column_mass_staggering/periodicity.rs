use vstd::prelude::*;

verus! {

/// Periodic horizontal axes used by WRF's big-step mass staggering.
#[derive(Clone, Copy, Debug, PartialEq, Eq, Structural)]
pub enum ColumnMassStaggeringPeriodicity {
    /// Neither horizontal axis is periodic.
    Neither,
    /// Only the west-east axis is periodic.
    WestEast,
    /// Only the south-north axis is periodic.
    SouthNorth,
    /// Both horizontal axes are periodic.
    Both,
}

impl ColumnMassStaggeringPeriodicity {
    pub open spec fn spec_is_west_east_periodic(self) -> bool {
        self is WestEast || self is Both
    }

    pub open spec fn spec_is_south_north_periodic(self) -> bool {
        self is SouthNorth || self is Both
    }

    /// Returns whether west-east boundary points use periodic halo mass.
    #[verifier::when_used_as_spec(spec_is_west_east_periodic)]
    pub fn is_west_east_periodic(self) -> (r: bool)
        ensures r == (self is WestEast || self is Both),
    {
        matches!(self, Self::WestEast | Self::Both)
    }

    /// Returns whether south-north boundary points use periodic halo mass.
    #[verifier::when_used_as_spec(spec_is_south_north_periodic)]
    pub fn is_south_north_periodic(self) -> (r: bool)
        ensures r == (self is SouthNorth || self is Both),
    {
        matches!(self, Self::SouthNorth | Self::Both)
    }

    /// The periodicity with exactly the requested periodic axes.
    pub fn from_axes(west_east: bool, south_north: bool) -> (r: Self)
        ensures
            r.spec_is_west_east_periodic() == west_east,
            r.spec_is_south_north_periodic() == south_north,
    {
        match (west_east, south_north) {
            (false, false) => Self::Neither,
            (true, false) => Self::WestEast,
            (false, true) => Self::SouthNorth,
            (true, true) => Self::Both,
        }
    }
}

impl Default for ColumnMassStaggeringPeriodicity {
    fn default() -> (r: Self)
        ensures r == ColumnMassStaggeringPeriodicity::Neither,
    {
        Self::Neither
    }
}

/// A periodicity is determined by its two axis flags: two periodicities that
/// agree on both axes are the same variant.
pub proof fn lemma_periodicity_determined_by_axes(a: ColumnMassStaggeringPeriodicity, b: ColumnMassStaggeringPeriodicity)
    requires
        a.spec_is_west_east_periodic() == b.spec_is_west_east_periodic(),
        a.spec_is_south_north_periodic() == b.spec_is_south_north_periodic(),
    ensures
        a == b,
{
}

} // verus!

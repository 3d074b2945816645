use vstd::prelude::*;

use crate::grid::GridShape;

verus! {

/// Borrowed fields participating in one Held-Suarez damping update.
///
/// The bundle makes the two mutable outputs and four immutable inputs explicit
/// without cloning domain-sized storage.
pub struct HeldSuarezDampingFields<'a, Field> {
    pub west_east_momentum_tendency: &'a mut Field,
    pub south_north_momentum_tendency: &'a mut Field,
    pub west_east_momentum: &'a Field,
    pub south_north_momentum: &'a Field,
    pub perturbation_pressure: &'a Field,
    pub base_pressure: &'a Field,
}

impl<'a, Field> HeldSuarezDampingFields<'a, Field> {
    /// Groups all fields for a damping update without allocating or copying.
    pub fn new(
        west_east_momentum_tendency: &'a mut Field,
        south_north_momentum_tendency: &'a mut Field,
        west_east_momentum: &'a Field,
        south_north_momentum: &'a Field,
        perturbation_pressure: &'a Field,
        base_pressure: &'a Field,
    ) -> (r: Self)
        ensures
            *r.west_east_momentum_tendency == *old(west_east_momentum_tendency),
            *r.south_north_momentum_tendency == *old(south_north_momentum_tendency),
            *final(west_east_momentum_tendency) == *final(r.west_east_momentum_tendency),
            *final(south_north_momentum_tendency) == *final(r.south_north_momentum_tendency),
            r.west_east_momentum == west_east_momentum,
            r.south_north_momentum == south_north_momentum,
            r.perturbation_pressure == perturbation_pressure,
            r.base_pressure == base_pressure,
    {
        Self {
            west_east_momentum_tendency,
            south_north_momentum_tendency,
            west_east_momentum,
            south_north_momentum,
            perturbation_pressure,
            base_pressure,
        }
    }
}

/// Shapes of the six fields taking part in Held-Suarez damping.
#[derive(Clone, Copy, Debug, PartialEq, Eq)]
pub struct HeldSuarezDampingShapes {
    pub west_east_momentum_tendency: GridShape,
    pub south_north_momentum_tendency: GridShape,
    pub west_east_momentum: GridShape,
    pub south_north_momentum: GridShape,
    pub perturbation_pressure: GridShape,
    pub base_pressure: GridShape,
}

} // verus!

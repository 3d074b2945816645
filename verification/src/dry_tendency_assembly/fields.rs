use vstd::prelude::*;

verus! {

/// Mutable Runge–Kutta tendencies produced by dry-tendency assembly.
pub struct DryTendencyAssemblyRungeKuttaTendencies<'a, Field> {
    pub west_east_momentum: &'a mut Field,
    pub south_north_momentum: &'a mut Field,
    pub vertical_momentum: &'a mut Field,
    pub geopotential: &'a mut Field,
    pub potential_temperature: &'a mut Field,
    pub column_mass: &'a mut Field,
}

impl<'a, Field> DryTendencyAssemblyRungeKuttaTendencies<'a, Field> {
    /// Groups the six mutable RK tendency fields without allocating.
    pub fn new(
        west_east_momentum: &'a mut Field,
        south_north_momentum: &'a mut Field,
        vertical_momentum: &'a mut Field,
        geopotential: &'a mut Field,
        potential_temperature: &'a mut Field,
        column_mass: &'a mut Field,
    ) -> (r: Self)
        ensures
            *r.west_east_momentum == *old(west_east_momentum),
            *r.south_north_momentum == *old(south_north_momentum),
            *r.vertical_momentum == *old(vertical_momentum),
            *r.geopotential == *old(geopotential),
            *r.potential_temperature == *old(potential_temperature),
            *r.column_mass == *old(column_mass),
            *final(west_east_momentum) == *final(r.west_east_momentum),
            *final(south_north_momentum) == *final(r.south_north_momentum),
            *final(vertical_momentum) == *final(r.vertical_momentum),
            *final(geopotential) == *final(r.geopotential),
            *final(potential_temperature) == *final(r.potential_temperature),
            *final(column_mass) == *final(r.column_mass),
    {
        Self {
            west_east_momentum,
            south_north_momentum,
            vertical_momentum,
            geopotential,
            potential_temperature,
            column_mass,
        }
    }
}

/// Persistent physics/forward tendencies, updated only on the first substep.
pub struct DryTendencyAssemblyForwardTendencies<'a, Field> {
    pub west_east_momentum: &'a mut Field,
    pub south_north_momentum: &'a mut Field,
    pub vertical_momentum: &'a mut Field,
    pub geopotential: &'a mut Field,
    pub potential_temperature: &'a mut Field,
    pub column_mass: &'a Field,
}

impl<'a, Field> DryTendencyAssemblyForwardTendencies<'a, Field> {
    /// Groups WRF's `*tendf` fields; column mass is immutable in the routine.
    pub fn new(
        west_east_momentum: &'a mut Field,
        south_north_momentum: &'a mut Field,
        vertical_momentum: &'a mut Field,
        geopotential: &'a mut Field,
        potential_temperature: &'a mut Field,
        column_mass: &'a Field,
    ) -> (r: Self)
        ensures
            *r.west_east_momentum == *old(west_east_momentum),
            *r.south_north_momentum == *old(south_north_momentum),
            *r.vertical_momentum == *old(vertical_momentum),
            *r.geopotential == *old(geopotential),
            *r.potential_temperature == *old(potential_temperature),
            r.column_mass == column_mass,
            *final(west_east_momentum) == *final(r.west_east_momentum),
            *final(south_north_momentum) == *final(r.south_north_momentum),
            *final(vertical_momentum) == *final(r.vertical_momentum),
            *final(geopotential) == *final(r.geopotential),
            *final(potential_temperature) == *final(r.potential_temperature),
    {
        Self {
            west_east_momentum,
            south_north_momentum,
            vertical_momentum,
            geopotential,
            potential_temperature,
            column_mass,
        }
    }
}

/// Saved boundary-condition tendencies accumulated on the first substep.
#[derive(Clone, Copy)]
pub struct DryTendencyAssemblySavedTendencies<'a, Field> {
    pub west_east_momentum: &'a Field,
    pub south_north_momentum: &'a Field,
    pub vertical_momentum: &'a Field,
    pub geopotential: &'a Field,
    pub potential_temperature: &'a Field,
}

impl<'a, Field> DryTendencyAssemblySavedTendencies<'a, Field> {
    /// Groups WRF's five `*_save` fields without copying.
    pub fn new(
        west_east_momentum: &'a Field,
        south_north_momentum: &'a Field,
        vertical_momentum: &'a Field,
        geopotential: &'a Field,
        potential_temperature: &'a Field,
    ) -> (r: Self)
        ensures
            r.west_east_momentum == west_east_momentum,
            r.south_north_momentum == south_north_momentum,
            r.vertical_momentum == vertical_momentum,
            r.geopotential == geopotential,
            r.potential_temperature == potential_temperature,
    {
        Self {
            west_east_momentum,
            south_north_momentum,
            vertical_momentum,
            geopotential,
            potential_temperature,
        }
    }
}

/// Thermodynamic fields used by the potential-temperature equation.
#[derive(Clone, Copy)]
pub struct DryTendencyAssemblyThermodynamics<'a, Field> {
    pub diabatic_heating: &'a Field,
    pub full_column_mass: &'a Field,
}

impl<'a, Field> DryTendencyAssemblyThermodynamics<'a, Field> {
    /// Groups `h_diabatic` and `mut` without copying.
    pub fn new(diabatic_heating: &'a Field, full_column_mass: &'a Field) -> (r: Self)
        ensures
            r.diabatic_heating == diabatic_heating,
            r.full_column_mass == full_column_mass,
    {
        Self { diabatic_heating, full_column_mass }
    }
}

/// The four map-factor fields actually read by WRF `rk_addtend_dry`.
#[derive(Clone, Copy)]
pub struct DryTendencyAssemblyMapFactors<'a, Field> {
    pub west_east_momentum_south_north: &'a Field,
    pub south_north_momentum_west_east: &'a Field,
    pub inverse_south_north_momentum_west_east: &'a Field,
    pub mass_point_south_north: &'a Field,
}

impl<'a, Field> DryTendencyAssemblyMapFactors<'a, Field> {
    /// Groups `msfuy`, `msfvx`, `msfvx_inv`, and `msfty`.
    pub fn new(
        west_east_momentum_south_north: &'a Field,
        south_north_momentum_west_east: &'a Field,
        inverse_south_north_momentum_west_east: &'a Field,
        mass_point_south_north: &'a Field,
    ) -> (r: Self)
        ensures
            r.west_east_momentum_south_north == west_east_momentum_south_north,
            r.south_north_momentum_west_east == south_north_momentum_west_east,
            r.inverse_south_north_momentum_west_east == inverse_south_north_momentum_west_east,
            r.mass_point_south_north == mass_point_south_north,
    {
        Self {
            west_east_momentum_south_north,
            south_north_momentum_west_east,
            inverse_south_north_momentum_west_east,
            mass_point_south_north,
        }
    }
}

} // verus!

use vstd::prelude::*;

use crate::dry_tendency_assembly::{
    DryTendencyAssemblyCoefficient, DryTendencyAssemblyError, DryTendencyAssemblyField,
    DryTendencyAssemblyRegion, DryTendencyAssemblyResult,
};
use crate::grid::{first_mismatched_shape, GridShape};

verus! {

/// The shapes of every field and the lengths of both vertical coefficient
/// arrays handed to dry-tendency assembly: what its structural validation
/// reads.
#[derive(Clone, Copy, Debug, PartialEq, Eq)]
pub struct DryTendencyAssemblyFieldShapes {
    pub west_east_runge_kutta_momentum: GridShape,
    pub south_north_runge_kutta_momentum: GridShape,
    pub vertical_runge_kutta_momentum: GridShape,
    pub runge_kutta_geopotential: GridShape,
    pub runge_kutta_potential_temperature: GridShape,
    pub runge_kutta_column_mass: GridShape,
    pub west_east_forward_momentum: GridShape,
    pub south_north_forward_momentum: GridShape,
    pub vertical_forward_momentum: GridShape,
    pub forward_geopotential: GridShape,
    pub forward_potential_temperature: GridShape,
    pub forward_column_mass: GridShape,
    pub saved_west_east_momentum: GridShape,
    pub saved_south_north_momentum: GridShape,
    pub saved_vertical_momentum: GridShape,
    pub saved_geopotential: GridShape,
    pub saved_potential_temperature: GridShape,
    pub diabatic_heating: GridShape,
    pub full_column_mass: GridShape,
    pub west_east_momentum_south_north_map_factor: GridShape,
    pub south_north_momentum_west_east_map_factor: GridShape,
    pub inverse_south_north_momentum_west_east_map_factor: GridShape,
    pub mass_point_south_north_map_factor: GridShape,
    pub full_mass_multiplier_length: usize,
    pub vertical_offset_length: usize,
}

impl DryTendencyAssemblyFieldShapes {
    /// The volume fields, in validation order.
    pub open spec fn spec_volume_fields(self) -> Seq<(DryTendencyAssemblyField, GridShape)> {
        seq![
            (DryTendencyAssemblyField::WestEastRungeKuttaMomentum, self.west_east_runge_kutta_momentum),
            (DryTendencyAssemblyField::SouthNorthRungeKuttaMomentum, self.south_north_runge_kutta_momentum),
            (DryTendencyAssemblyField::VerticalRungeKuttaMomentum, self.vertical_runge_kutta_momentum),
            (DryTendencyAssemblyField::RungeKuttaGeopotential, self.runge_kutta_geopotential),
            (DryTendencyAssemblyField::RungeKuttaPotentialTemperature, self.runge_kutta_potential_temperature),
            (DryTendencyAssemblyField::WestEastForwardMomentum, self.west_east_forward_momentum),
            (DryTendencyAssemblyField::SouthNorthForwardMomentum, self.south_north_forward_momentum),
            (DryTendencyAssemblyField::VerticalForwardMomentum, self.vertical_forward_momentum),
            (DryTendencyAssemblyField::ForwardGeopotential, self.forward_geopotential),
            (DryTendencyAssemblyField::ForwardPotentialTemperature, self.forward_potential_temperature),
            (DryTendencyAssemblyField::SavedWestEastMomentum, self.saved_west_east_momentum),
            (DryTendencyAssemblyField::SavedSouthNorthMomentum, self.saved_south_north_momentum),
            (DryTendencyAssemblyField::SavedVerticalMomentum, self.saved_vertical_momentum),
            (DryTendencyAssemblyField::SavedGeopotential, self.saved_geopotential),
            (DryTendencyAssemblyField::SavedPotentialTemperature, self.saved_potential_temperature),
            (DryTendencyAssemblyField::DiabaticHeating, self.diabatic_heating),
        ]
    }

    /// The single-level fields, in validation order.
    pub open spec fn spec_horizontal_fields(self) -> Seq<(DryTendencyAssemblyField, GridShape)> {
        seq![
            (DryTendencyAssemblyField::RungeKuttaColumnMass, self.runge_kutta_column_mass),
            (DryTendencyAssemblyField::ForwardColumnMass, self.forward_column_mass),
            (DryTendencyAssemblyField::FullColumnMass, self.full_column_mass),
            (DryTendencyAssemblyField::WestEastMomentumSouthNorthMapFactor, self.west_east_momentum_south_north_map_factor),
            (DryTendencyAssemblyField::SouthNorthMomentumWestEastMapFactor, self.south_north_momentum_west_east_map_factor),
            (DryTendencyAssemblyField::InverseSouthNorthMomentumWestEastMapFactor,
                self.inverse_south_north_momentum_west_east_map_factor),
            (DryTendencyAssemblyField::MassPointSouthNorthMapFactor, self.mass_point_south_north_map_factor),
        ]
    }
}

/// The first entry of `fields` whose shape is not `expected` is entry `i`.
pub open spec fn spec_first_mismatch_at(
    fields: Seq<(DryTendencyAssemblyField, GridShape)>,
    expected: GridShape,
    i: int,
) -> bool {
    &&& 0 <= i < fields.len()
    &&& fields[i].1 != expected
    &&& forall|j: int| 0 <= j < i ==> fields[j].1 == expected
}

/// Some entry of `fields` has a shape other than `expected`.
pub open spec fn spec_has_mismatch(fields: Seq<(DryTendencyAssemblyField, GridShape)>, expected: GridShape) -> bool {
    exists|i: int| 0 <= i < fields.len() && fields[i].1 != expected
}

/// Whether `r` is the outcome of the structural checks of dry-tendency
/// assembly: the first volume field whose shape is not the region's shape,
/// else the first single-level field whose shape is not its horizontal
/// shape, else the first coefficient array that does not span the vertical
/// extent, else success.
pub open spec fn spec_assembly_check(
    shapes: DryTendencyAssemblyFieldShapes,
    region: DryTendencyAssemblyRegion,
    r: DryTendencyAssemblyResult<()>,
) -> bool {
    let volume = region.spec_shape();
    let horizontal = volume.spec_horizontal_shape();
    let levels = volume.spec_bottom_top_points();
    if spec_has_mismatch(shapes.spec_volume_fields(), volume) {
        exists|i: int| spec_first_mismatch_at(shapes.spec_volume_fields(), volume, i)
            && r == Err::<(), _>(DryTendencyAssemblyError::FieldShapeMismatch {
                field: shapes.spec_volume_fields()[i].0,
                expected: volume,
                actual: shapes.spec_volume_fields()[i].1,
            })
    } else if spec_has_mismatch(shapes.spec_horizontal_fields(), horizontal) {
        exists|i: int| spec_first_mismatch_at(shapes.spec_horizontal_fields(), horizontal, i)
            && r == Err::<(), _>(DryTendencyAssemblyError::FieldShapeMismatch {
                field: shapes.spec_horizontal_fields()[i].0,
                expected: horizontal,
                actual: shapes.spec_horizontal_fields()[i].1,
            })
    } else if shapes.full_mass_multiplier_length != levels {
        r == Err::<(), _>(DryTendencyAssemblyError::CoefficientLengthMismatch {
            coefficient: DryTendencyAssemblyCoefficient::FullMassMultiplier,
            expected: levels,
            actual: shapes.full_mass_multiplier_length,
        })
    } else if shapes.vertical_offset_length != levels {
        r == Err::<(), _>(DryTendencyAssemblyError::CoefficientLengthMismatch {
            coefficient: DryTendencyAssemblyCoefficient::VerticalOffset,
            expected: levels,
            actual: shapes.vertical_offset_length,
        })
    } else {
        r is Ok
    }
}

/// Checks, before any output changes, that every volume field has the
/// region's shape, then that every single-level field has its horizontal
/// shape, then that both coefficient arrays span the vertical extent; the
/// first failure in that order is returned.
pub fn validate_dry_tendency_assembly(
    shapes: &DryTendencyAssemblyFieldShapes,
    region: &DryTendencyAssemblyRegion,
) -> (r: DryTendencyAssemblyResult<()>)
    ensures
        spec_assembly_check(*shapes, *region, r),
{
    let volume_shape = region.shape();
    let horizontal_shape = volume_shape.horizontal_shape();
    let volume_fields = vec![
        (DryTendencyAssemblyField::WestEastRungeKuttaMomentum, shapes.west_east_runge_kutta_momentum),
        (DryTendencyAssemblyField::SouthNorthRungeKuttaMomentum, shapes.south_north_runge_kutta_momentum),
        (DryTendencyAssemblyField::VerticalRungeKuttaMomentum, shapes.vertical_runge_kutta_momentum),
        (DryTendencyAssemblyField::RungeKuttaGeopotential, shapes.runge_kutta_geopotential),
        (DryTendencyAssemblyField::RungeKuttaPotentialTemperature, shapes.runge_kutta_potential_temperature),
        (DryTendencyAssemblyField::WestEastForwardMomentum, shapes.west_east_forward_momentum),
        (DryTendencyAssemblyField::SouthNorthForwardMomentum, shapes.south_north_forward_momentum),
        (DryTendencyAssemblyField::VerticalForwardMomentum, shapes.vertical_forward_momentum),
        (DryTendencyAssemblyField::ForwardGeopotential, shapes.forward_geopotential),
        (DryTendencyAssemblyField::ForwardPotentialTemperature, shapes.forward_potential_temperature),
        (DryTendencyAssemblyField::SavedWestEastMomentum, shapes.saved_west_east_momentum),
        (DryTendencyAssemblyField::SavedSouthNorthMomentum, shapes.saved_south_north_momentum),
        (DryTendencyAssemblyField::SavedVerticalMomentum, shapes.saved_vertical_momentum),
        (DryTendencyAssemblyField::SavedGeopotential, shapes.saved_geopotential),
        (DryTendencyAssemblyField::SavedPotentialTemperature, shapes.saved_potential_temperature),
        (DryTendencyAssemblyField::DiabaticHeating, shapes.diabatic_heating),
    ];
    assert(volume_fields@ =~= shapes.spec_volume_fields());
    if let Some(i) = first_mismatched_shape(&volume_fields, volume_shape) {
        assert(spec_first_mismatch_at(shapes.spec_volume_fields(), volume_shape, i as int));
        return Err(DryTendencyAssemblyError::FieldShapeMismatch {
            field: volume_fields[i].0,
            expected: volume_shape,
            actual: volume_fields[i].1,
        });
    }
    let horizontal_fields = vec![
        (DryTendencyAssemblyField::RungeKuttaColumnMass, shapes.runge_kutta_column_mass),
        (DryTendencyAssemblyField::ForwardColumnMass, shapes.forward_column_mass),
        (DryTendencyAssemblyField::FullColumnMass, shapes.full_column_mass),
        (DryTendencyAssemblyField::WestEastMomentumSouthNorthMapFactor, shapes.west_east_momentum_south_north_map_factor),
        (DryTendencyAssemblyField::SouthNorthMomentumWestEastMapFactor, shapes.south_north_momentum_west_east_map_factor),
        (DryTendencyAssemblyField::InverseSouthNorthMomentumWestEastMapFactor,
            shapes.inverse_south_north_momentum_west_east_map_factor),
        (DryTendencyAssemblyField::MassPointSouthNorthMapFactor, shapes.mass_point_south_north_map_factor),
    ];
    assert(horizontal_fields@ =~= shapes.spec_horizontal_fields());
    if let Some(i) = first_mismatched_shape(&horizontal_fields, horizontal_shape) {
        assert(spec_first_mismatch_at(shapes.spec_horizontal_fields(), horizontal_shape, i as int));
        return Err(DryTendencyAssemblyError::FieldShapeMismatch {
            field: horizontal_fields[i].0,
            expected: horizontal_shape,
            actual: horizontal_fields[i].1,
        });
    }
    let levels = volume_shape.bottom_top_points();
    if shapes.full_mass_multiplier_length != levels {
        return Err(DryTendencyAssemblyError::CoefficientLengthMismatch {
            coefficient: DryTendencyAssemblyCoefficient::FullMassMultiplier,
            expected: levels,
            actual: shapes.full_mass_multiplier_length,
        });
    }
    if shapes.vertical_offset_length != levels {
        return Err(DryTendencyAssemblyError::CoefficientLengthMismatch {
            coefficient: DryTendencyAssemblyCoefficient::VerticalOffset,
            expected: levels,
            actual: shapes.vertical_offset_length,
        });
    }
    Ok(())
}

} // verus!

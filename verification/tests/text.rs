use wrf_dynamics::text::decimal;
use wrf_dynamics::{
    ColumnMassStaggeringAxis, ColumnMassStaggeringError, ColumnMassStaggeringField, DryTendencyAssemblyAxis,
    DryTendencyAssemblyCoefficient, DryTendencyAssemblyError, DryTendencyAssemblyField, GridShape,
    HeldSuarezDampingAxis, HeldSuarezDampingError, HeldSuarezDampingField, InverseDensityAxis,
    InverseDensityError, InverseDensityField,
};

#[test]
fn decimal_text_has_no_leading_zeros() {
    assert_eq!(decimal(0), "0");
    assert_eq!(decimal(7), "7");
    assert_eq!(decimal(10), "10");
    assert_eq!(decimal(120), "120");
    assert_eq!(decimal(usize::MAX), usize::MAX.to_string());
}

#[test]
fn shape_text_matches_its_debug_output() {
    let shape = GridShape::try_new(6, 5, 1).unwrap();
    assert_eq!(shape.debug_text(), format!("{shape:?}"));
    assert_eq!(
        shape.debug_text(),
        "GridShape { west_east_points: 6, south_north_points: 5, bottom_top_points: 1 }"
    );
}

#[test]
fn column_mass_errors_name_their_axis_field_and_extents() {
    assert_eq!(
        ColumnMassStaggeringError::EmptyMassDomainRange { axis: ColumnMassStaggeringAxis::WestEast }.to_string(),
        "west-east mass-domain range is empty"
    );
    assert_eq!(
        ColumnMassStaggeringError::MassDomainBoundaryOutOfBounds {
            axis: ColumnMassStaggeringAxis::SouthNorth,
            boundary_index: 5,
            field_extent: 5,
        }
        .to_string(),
        "south-north mass-domain boundary index 5 is outside field extent 5"
    );
    assert_eq!(
        ColumnMassStaggeringError::TileRangeOutOfBounds {
            axis: ColumnMassStaggeringAxis::WestEast,
            range_end: 7,
            field_extent: 6,
        }
        .to_string(),
        "west-east tile range ends at 7, beyond field extent 6"
    );
    assert_eq!(
        ColumnMassStaggeringError::PeriodicLowerHaloMissing { axis: ColumnMassStaggeringAxis::SouthNorth }.to_string(),
        "south-north periodic lower boundary requires one preceding halo mass point"
    );
    assert_eq!(
        ColumnMassStaggeringError::FieldShapeMismatch { field: ColumnMassStaggeringField::SouthNorthMomentumMass }
            .to_string(),
        "south-north momentum mass shape does not match the staggering region"
    );
    assert_eq!(
        ColumnMassStaggeringError::RequiresSingleVerticalLevel { bottom_top_points: 3 }.to_string(),
        "column-mass staggering requires one vertical level, found 3"
    );
    assert_eq!(ColumnMassStaggeringError::WorkerPanicked.to_string(), "a column-mass staggering worker panicked");
}

#[test]
fn held_suarez_errors_name_their_axis_field_and_shapes() {
    let expected = GridShape::try_new(6, 6, 4).unwrap();
    let actual = GridShape::try_new(5, 6, 4).unwrap();
    assert_eq!(
        HeldSuarezDampingError::EmptyRange { axis: HeldSuarezDampingAxis::WestEastMomentumSouthNorth }.to_string(),
        "Held-Suarez west-east momentum south-north range is empty"
    );
    assert_eq!(
        HeldSuarezDampingError::SurfaceLevelOutOfBounds { surface_level: 4, bottom_top_points: 4 }.to_string(),
        "Held-Suarez surface level 4 is outside 4 vertical points"
    );
    assert_eq!(
        HeldSuarezDampingError::FieldShapeMismatch { field: HeldSuarezDampingField::BasePressure, expected, actual }
            .to_string(),
        format!("Held-Suarez base pressure shape {actual:?} does not match {expected:?}")
    );
    assert_eq!(
        HeldSuarezDampingError::MissingPrecedingNeighbor { axis: HeldSuarezDampingAxis::BottomTop }.to_string(),
        "Held-Suarez bottom-top range requires a preceding pressure neighbor"
    );
}

#[test]
fn inverse_density_errors_name_their_axis_field_and_shapes() {
    let expected = GridShape::try_new(5, 5, 5).unwrap();
    let actual = GridShape::try_new(4, 5, 5).unwrap();
    assert_eq!(
        InverseDensityError::TileRangeOutOfBounds { axis: InverseDensityAxis::BottomTop, range_end: 6, field_extent: 5 }
            .to_string(),
        "bottom-top tile end 6 exceeds field extent 5"
    );
    assert_eq!(
        InverseDensityError::FieldShapeMismatch { field: InverseDensityField::Perturbation, expected, actual }
            .to_string(),
        format!("perturbation inverse density shape {actual:?} differs from expected shape {expected:?}")
    );
}

#[test]
fn dry_assembly_errors_name_their_axis_field_and_coefficient() {
    assert_eq!(
        DryTendencyAssemblyError::CoefficientLengthMismatch {
            coefficient: DryTendencyAssemblyCoefficient::VerticalOffset,
            expected: 5,
            actual: 4,
        }
        .to_string(),
        "vertical offset has 4 values, expected 5"
    );
    assert_eq!(
        DryTendencyAssemblyError::TileOutsideMassDomain { axis: DryTendencyAssemblyAxis::SouthNorth }.to_string(),
        "south-north tile lies outside the mass domain and its upper stagger"
    );
    assert_eq!(DryTendencyAssemblyField::MassPointSouthNorthMapFactor.to_string(), "mass-point map factor");
    assert_eq!(DryTendencyAssemblyField::WestEastRungeKuttaMomentum.to_string(), "west-east RK momentum tendency");
}

#[test]
fn every_dry_assembly_field_role_has_its_own_name() {
    let roles = [
        DryTendencyAssemblyField::WestEastRungeKuttaMomentum,
        DryTendencyAssemblyField::SouthNorthRungeKuttaMomentum,
        DryTendencyAssemblyField::VerticalRungeKuttaMomentum,
        DryTendencyAssemblyField::RungeKuttaGeopotential,
        DryTendencyAssemblyField::RungeKuttaPotentialTemperature,
        DryTendencyAssemblyField::RungeKuttaColumnMass,
        DryTendencyAssemblyField::WestEastForwardMomentum,
        DryTendencyAssemblyField::SouthNorthForwardMomentum,
        DryTendencyAssemblyField::VerticalForwardMomentum,
        DryTendencyAssemblyField::ForwardGeopotential,
        DryTendencyAssemblyField::ForwardPotentialTemperature,
        DryTendencyAssemblyField::ForwardColumnMass,
        DryTendencyAssemblyField::SavedWestEastMomentum,
        DryTendencyAssemblyField::SavedSouthNorthMomentum,
        DryTendencyAssemblyField::SavedVerticalMomentum,
        DryTendencyAssemblyField::SavedGeopotential,
        DryTendencyAssemblyField::SavedPotentialTemperature,
        DryTendencyAssemblyField::DiabaticHeating,
        DryTendencyAssemblyField::FullColumnMass,
        DryTendencyAssemblyField::WestEastMomentumSouthNorthMapFactor,
        DryTendencyAssemblyField::SouthNorthMomentumWestEastMapFactor,
        DryTendencyAssemblyField::InverseSouthNorthMomentumWestEastMapFactor,
        DryTendencyAssemblyField::MassPointSouthNorthMapFactor,
    ];
    for (i, a) in roles.iter().enumerate() {
        for (j, b) in roles.iter().enumerate() {
            assert_eq!(i == j, a.to_string() == b.to_string());
        }
    }
    assert_eq!(DryTendencyAssemblyField::InverseSouthNorthMomentumWestEastMapFactor.to_string(), "inverse south-north momentum map factor");
}

use wrf_dynamics::held_suarez::{
    apply_held_suarez_damping, damp_south_north_momentum_lines, damp_west_east_momentum_lines, linear_index, validate_field_shape,
    validate_field_shapes, validate_range,
};
use wrf_dynamics::{
    DampingLineWindows, GridShape, HeldSuarezDampingAxis, HeldSuarezDampingError, HeldSuarezDampingField,
    HeldSuarezDampingFields, HeldSuarezDampingRegion, HeldSuarezDampingShapes,
};

#[test]
fn try_new_rejects_empty_and_out_of_bounds_ranges() {
    let shape = GridShape::try_new(6, 6, 4).unwrap();

    assert_eq!(
        HeldSuarezDampingRegion::try_new(shape, 2..2, 1..4, 1..5, 1..5, 1),
        Err(HeldSuarezDampingError::EmptyRange {
            axis: HeldSuarezDampingAxis::WestEast,
        })
    );
    assert_eq!(
        HeldSuarezDampingRegion::try_new(shape, 1..5, 1..5, 1..5, 1..5, 1),
        Err(HeldSuarezDampingError::RangeOutOfBounds {
            axis: HeldSuarezDampingAxis::BottomTop,
            range_end: 5,
            field_extent: 4,
        })
    );
    assert_eq!(
        HeldSuarezDampingRegion::try_new(shape, 1..5, 1..4, 1..7, 1..5, 1),
        Err(HeldSuarezDampingError::RangeOutOfBounds {
            axis: HeldSuarezDampingAxis::WestEastMomentumSouthNorth,
            range_end: 7,
            field_extent: 6,
        })
    );
}

#[test]
fn try_new_requires_staggered_preceding_neighbors() {
    let shape = GridShape::try_new(6, 6, 4).unwrap();

    assert_eq!(
        HeldSuarezDampingRegion::try_new(shape, 0..4, 1..4, 1..5, 1..5, 1),
        Err(HeldSuarezDampingError::MissingPrecedingNeighbor {
            axis: HeldSuarezDampingAxis::WestEast,
        })
    );
    assert_eq!(
        HeldSuarezDampingRegion::try_new(shape, 1..5, 1..4, 1..5, 0..4, 1),
        Err(HeldSuarezDampingError::MissingPrecedingNeighbor {
            axis: HeldSuarezDampingAxis::SouthNorthMomentumSouthNorth,
        })
    );
}

#[test]
fn try_new_rejects_an_out_of_bounds_surface_level() {
    let shape = GridShape::try_new(6, 6, 4).unwrap();

    assert_eq!(
        HeldSuarezDampingRegion::try_new(shape, 1..5, 1..4, 1..5, 1..5, 4),
        Err(HeldSuarezDampingError::SurfaceLevelOutOfBounds {
            surface_level: 4,
            bottom_top_points: 4,
        })
    );
}

#[test]
fn accepted_region_keeps_its_ranges() {
    let shape = GridShape::try_new(6, 6, 4).unwrap();
    let region = HeldSuarezDampingRegion::try_new(shape, 1..5, 1..4, 1..5, 2..5, 1).unwrap();
    assert_eq!(region.shape(), shape);
    assert_eq!(region.west_east_range(), 1..5);
    assert_eq!(region.bottom_top_range(), 1..4);
    assert_eq!(region.west_east_momentum_south_north_range(), 1..5);
    assert_eq!(region.south_north_momentum_south_north_range(), 2..5);
    assert_eq!(region.surface_level(), 1);
    assert_eq!(region.clone(), region);
}

#[test]
fn linear_index_follows_wrf_memory_order() {
    assert_eq!(linear_index(0, 0, 0, 6, 4), 0);
    assert_eq!(linear_index(5, 0, 0, 6, 4), 5);
    assert_eq!(linear_index(0, 1, 0, 6, 4), 6);
    assert_eq!(linear_index(0, 0, 1, 6, 4), 24);
    assert_eq!(linear_index(2, 3, 4, 6, 4), (4 * 4 + 3) * 6 + 2);
    let shape = GridShape::try_new(6, 6, 4).unwrap();
    assert_eq!(shape.linear_index(2, 3, 4), linear_index(2, 3, 4, 6, 4));
    assert_eq!(shape.point_count(), 144);
}

#[test]
fn damping_windows_select_the_staggered_neighbours() {
    let shape = GridShape::try_new(6, 6, 4).unwrap();
    let region = HeldSuarezDampingRegion::try_new(shape, 1..5, 1..4, 1..5, 2..5, 1).unwrap();
    assert_eq!(
        region.south_north_momentum_windows(2, 3),
        DampingLineWindows {
            line: (3 * 4 + 2) * 6 + 1,
            adjacent: (2 * 4 + 2) * 6 + 1,
            surface: (3 * 4 + 1) * 6 + 1,
            adjacent_surface: (2 * 4 + 1) * 6 + 1,
            length: 4,
        }
    );
    assert_eq!(
        region.west_east_momentum_windows(2, 3),
        DampingLineWindows {
            line: (3 * 4 + 2) * 6 + 1,
            adjacent: (3 * 4 + 2) * 6,
            surface: (3 * 4 + 1) * 6 + 1,
            adjacent_surface: (3 * 4 + 1) * 6,
            length: 4,
        }
    );
}

#[test]
fn field_shape_validation_reports_expected_and_actual_shapes() {
    let shape = GridShape::try_new(6, 6, 4).unwrap();
    let wrong_shape = GridShape::try_new(5, 6, 4).unwrap();
    let region = HeldSuarezDampingRegion::try_new(shape, 1..5, 1..4, 1..5, 2..5, 1).unwrap();
    assert_eq!(
        validate_field_shapes(shape, shape, shape, shape, shape, wrong_shape, &region),
        Err(HeldSuarezDampingError::FieldShapeMismatch {
            field: HeldSuarezDampingField::BasePressure,
            expected: region.shape(),
            actual: wrong_shape,
        })
    );
    assert_eq!(
        validate_field_shapes(shape, wrong_shape, shape, shape, shape, wrong_shape, &region),
        Err(HeldSuarezDampingError::FieldShapeMismatch {
            field: HeldSuarezDampingField::SouthNorthMomentumTendency,
            expected: shape,
            actual: wrong_shape,
        })
    );
    assert_eq!(validate_field_shapes(shape, shape, shape, shape, shape, shape, &region), Ok(()));
    assert_eq!(validate_field_shape(shape, HeldSuarezDampingField::WestEastMomentum, shape), Ok(()));
    assert_eq!(
        validate_range(HeldSuarezDampingAxis::BottomTop, &(0..3), 2),
        Err(HeldSuarezDampingError::RangeOutOfBounds {
            axis: HeldSuarezDampingAxis::BottomTop,
            range_end: 3,
            field_extent: 2,
        })
    );
}

#[test]
fn field_bundle_writes_reach_the_borrowed_fields() {
    let mut west_east_tendency = vec![0.0_f32; 4];
    let mut south_north_tendency = vec![0.0_f32; 4];
    let west_east_momentum = vec![1.0_f32; 4];
    let south_north_momentum = vec![2.0_f32; 4];
    let perturbation_pressure = vec![3.0_f32; 4];
    let base_pressure = vec![4.0_f32; 4];
    let fields = HeldSuarezDampingFields::new(
        &mut west_east_tendency,
        &mut south_north_tendency,
        &west_east_momentum,
        &south_north_momentum,
        &perturbation_pressure,
        &base_pressure,
    );
    fields.west_east_momentum_tendency[1] = 5.0;
    fields.south_north_momentum_tendency[2] = 6.0;
    assert_eq!(fields.base_pressure[0], 4.0);
    assert_eq!(west_east_tendency, vec![0.0, 5.0, 0.0, 0.0]);
    assert_eq!(south_north_tendency, vec![0.0, 0.0, 6.0, 0.0]);
}

#[test]
fn rejects_a_field_shape_mismatch_before_mutating_outputs() {
    let shape = GridShape::try_new(6, 6, 4).unwrap();
    let region = HeldSuarezDampingRegion::try_new(shape, 1..5, 1..4, 1..5, 2..5, 1).unwrap();
    let initial_west_east_tendency: Vec<f32> = (0..shape.point_count()).map(|index| 100.0 + index as f32).collect();
    let mut west_east_tendency = initial_west_east_tendency.clone();
    let mut south_north_tendency = vec![200.0_f32; shape.point_count()];
    let wrong_shape = GridShape::try_new(5, 6, 4).unwrap();
    let shapes = HeldSuarezDampingShapes {
        west_east_momentum_tendency: shape,
        south_north_momentum_tendency: shape,
        west_east_momentum: shape,
        south_north_momentum: shape,
        perturbation_pressure: shape,
        base_pressure: wrong_shape,
    };

    let result = apply_held_suarez_damping(
        &region,
        shapes,
        &mut west_east_tendency,
        &mut south_north_tendency,
        |_, line| line.iter().map(|value| value * 0.5).collect(),
        |_, line| line.iter().map(|value| value * 0.5).collect(),
    );

    assert_eq!(
        result,
        Err(HeldSuarezDampingError::FieldShapeMismatch {
            field: HeldSuarezDampingField::BasePressure,
            expected: region.shape(),
            actual: wrong_shape,
        })
    );
    assert_eq!(west_east_tendency, initial_west_east_tendency);
    assert!(south_north_tendency.iter().all(|value| *value == 200.0));
}

#[test]
fn damping_replaces_exactly_the_active_lines_of_each_component() {
    let shape = GridShape::try_new(6, 6, 4).unwrap();
    let region = HeldSuarezDampingRegion::try_new(shape, 1..5, 1..4, 1..5, 2..5, 1).unwrap();
    let initial: Vec<i64> = (0..shape.point_count()).map(|index| index as i64).collect();

    let mut west_east = initial.clone();
    damp_west_east_momentum_lines(&region, &mut west_east, |windows, line| {
        line.iter().map(|value| value + 1_000 * windows.adjacent as i64).collect()
    });
    let mut south_north = initial.clone();
    damp_south_north_momentum_lines(&region, &mut south_north, |windows, line| {
        line.iter().map(|value| value + 1_000 * windows.adjacent as i64).collect()
    });

    for south_north_index in 0..6 {
        for bottom_top_index in 0..4 {
            for west_east_index in 0..6 {
                let index = shape.linear_index(west_east_index, bottom_top_index, south_north_index);
                let on_line = (1..5).contains(&west_east_index) && (1..4).contains(&bottom_top_index);
                let line_start = shape.linear_index(1, bottom_top_index, south_north_index) as i64;
                let west_east_expected = if on_line && (1..5).contains(&south_north_index) {
                    index as i64 + 1_000 * (line_start - 1)
                } else {
                    index as i64
                };
                let south_north_expected = if on_line && (2..5).contains(&south_north_index) {
                    index as i64 + 1_000 * (line_start - 24)
                } else {
                    index as i64
                };
                assert_eq!(west_east[index], west_east_expected);
                assert_eq!(south_north[index], south_north_expected);
            }
        }
    }
}

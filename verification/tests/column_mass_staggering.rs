use wrf_dynamics::column_mass_staggering::{
    calculate_full_column_mass, calculate_full_mass_points, stagger_column_mass, stagger_column_mass_for_big_step,
    stagger_full_column_mass_for_big_step, stagger_big_step_points, stagger_column_mass_points, validate_big_step_operation, validate_full_big_step_operation, validate_full_mass_operation,
    validate_mass_domain_range, validate_periodic_lower_halos, validate_stagger_operation,
    validate_tile_range,
};
use wrf_dynamics::{
    ColumnMassSource, ColumnMassStaggeringAxis, ColumnMassStaggeringAxisBoundary,
    ColumnMassStaggeringError, ColumnMassStaggeringField, ColumnMassStaggeringPeriodicity,
    ColumnMassStaggeringRegion, GridShape,
};

#[test]
fn derives_every_boundary_state_from_independent_contacts() {
    let cases = [
        ((false, false), ColumnMassStaggeringAxisBoundary::Interior),
        ((true, false), ColumnMassStaggeringAxisBoundary::Lower),
        ((false, true), ColumnMassStaggeringAxisBoundary::Upper),
        ((true, true), ColumnMassStaggeringAxisBoundary::Both),
    ];

    for ((lower, upper), expected) in cases {
        let boundary = ColumnMassStaggeringAxisBoundary::from_contacts(lower, upper);
        assert_eq!(boundary, expected);
        assert_eq!(boundary.touches_lower(), lower);
        assert_eq!(boundary.touches_upper(), upper);
    }
}

#[test]
fn variants_select_only_their_named_periodic_axes() {
    assert!(!ColumnMassStaggeringPeriodicity::Neither.is_west_east_periodic());
    assert!(!ColumnMassStaggeringPeriodicity::Neither.is_south_north_periodic());
    assert!(ColumnMassStaggeringPeriodicity::WestEast.is_west_east_periodic());
    assert!(!ColumnMassStaggeringPeriodicity::WestEast.is_south_north_periodic());
    assert!(!ColumnMassStaggeringPeriodicity::SouthNorth.is_west_east_periodic());
    assert!(ColumnMassStaggeringPeriodicity::SouthNorth.is_south_north_periodic());
    assert!(ColumnMassStaggeringPeriodicity::Both.is_west_east_periodic());
    assert!(ColumnMassStaggeringPeriodicity::Both.is_south_north_periodic());
}

#[test]
fn rejects_non_planar_shapes_and_invalid_domain_ranges() {
    let three_dimensional_shape = GridShape::try_new(4, 4, 2).unwrap();
    assert_eq!(
        ColumnMassStaggeringRegion::try_new(three_dimensional_shape, 0..3, 0..3, 1..3, 1..3,),
        Err(ColumnMassStaggeringError::RequiresSingleVerticalLevel {
            bottom_top_points: 2,
        })
    );

    let shape = GridShape::try_new(4, 4, 1).unwrap();
    assert_eq!(
        ColumnMassStaggeringRegion::try_new(shape, 1..1, 0..3, 1..3, 1..3),
        Err(ColumnMassStaggeringError::EmptyMassDomainRange {
            axis: ColumnMassStaggeringAxis::WestEast,
        })
    );
    assert_eq!(
        ColumnMassStaggeringRegion::try_new(shape, 0..4, 0..3, 1..3, 1..3),
        Err(ColumnMassStaggeringError::MassDomainBoundaryOutOfBounds {
            axis: ColumnMassStaggeringAxis::WestEast,
            boundary_index: 4,
            field_extent: 4,
        })
    );
}

#[test]
fn rejects_invalid_tile_ranges() {
    let shape = GridShape::try_new(5, 5, 1).unwrap();
    assert_eq!(
        ColumnMassStaggeringRegion::try_new(shape, 1..4, 1..4, 2..2, 2..4),
        Err(ColumnMassStaggeringError::EmptyTileRange {
            axis: ColumnMassStaggeringAxis::WestEast,
        })
    );
    assert_eq!(
        ColumnMassStaggeringRegion::try_new(shape, 0..4, 0..4, 1..6, 1..4),
        Err(ColumnMassStaggeringError::TileRangeOutOfBounds {
            axis: ColumnMassStaggeringAxis::WestEast,
            range_end: 6,
            field_extent: 5,
        })
    );
    assert_eq!(
        ColumnMassStaggeringRegion::try_new(shape, 1..4, 1..4, 0..4, 1..4),
        Err(ColumnMassStaggeringError::TileOutsideMassDomain {
            axis: ColumnMassStaggeringAxis::WestEast,
        })
    );
}

#[test]
fn derives_staggered_output_ranges_and_boundary_contacts() {
    let shape = GridShape::try_new(6, 5, 1).unwrap();
    let region = ColumnMassStaggeringRegion::try_new(shape, 1..4, 1..3, 1..5, 1..4).unwrap();

    assert_eq!(region.west_east_momentum_west_east_range(), 1..5);
    assert_eq!(region.west_east_momentum_south_north_range(), 1..3);
    assert_eq!(region.south_north_momentum_west_east_range(), 1..4);
    assert_eq!(region.south_north_momentum_south_north_range(), 1..4);
    assert_eq!(
        region.west_east_boundary(),
        ColumnMassStaggeringAxisBoundary::Both
    );
    assert_eq!(
        region.south_north_boundary(),
        ColumnMassStaggeringAxisBoundary::Both
    );
    assert_eq!(region.full_mass_ranges(), Ok((0..4, 0..3)));
}

#[test]
fn full_mass_requires_a_lower_memory_halo_on_both_axes() {
    let shape = GridShape::try_new(5, 5, 1).unwrap();
    let west_east_missing =
        ColumnMassStaggeringRegion::try_new(shape, 0..4, 1..4, 0..4, 1..4).unwrap();
    assert_eq!(
        west_east_missing.full_mass_ranges(),
        Err(ColumnMassStaggeringError::FullMassLowerHaloMissing {
            axis: ColumnMassStaggeringAxis::WestEast,
        })
    );

    let south_north_missing =
        ColumnMassStaggeringRegion::try_new(shape, 1..4, 0..4, 1..4, 0..4).unwrap();
    assert_eq!(
        south_north_missing.full_mass_ranges(),
        Err(ColumnMassStaggeringError::FullMassLowerHaloMissing {
            axis: ColumnMassStaggeringAxis::SouthNorth,
        })
    );
}

#[test]
fn boundary_contacts_round_trip_for_every_state() {
    for boundary in [
        ColumnMassStaggeringAxisBoundary::Interior,
        ColumnMassStaggeringAxisBoundary::Lower,
        ColumnMassStaggeringAxisBoundary::Upper,
        ColumnMassStaggeringAxisBoundary::Both,
    ] {
        assert_eq!(
            ColumnMassStaggeringAxisBoundary::from_contacts(boundary.touches_lower(), boundary.touches_upper()),
            boundary
        );
    }
}

#[test]
fn periodicity_is_rebuilt_from_its_axes() {
    for periodicity in [
        ColumnMassStaggeringPeriodicity::Neither,
        ColumnMassStaggeringPeriodicity::WestEast,
        ColumnMassStaggeringPeriodicity::SouthNorth,
        ColumnMassStaggeringPeriodicity::Both,
    ] {
        assert_eq!(
            ColumnMassStaggeringPeriodicity::from_axes(
                periodicity.is_west_east_periodic(),
                periodicity.is_south_north_periodic()
            ),
            periodicity
        );
    }
    assert_eq!(ColumnMassStaggeringPeriodicity::default(), ColumnMassStaggeringPeriodicity::Neither);
}

#[test]
fn standalone_range_checks_report_each_failure() {
    assert_eq!(
        validate_mass_domain_range(ColumnMassStaggeringAxis::SouthNorth, &(2..5), 5),
        Err(ColumnMassStaggeringError::MassDomainBoundaryOutOfBounds {
            axis: ColumnMassStaggeringAxis::SouthNorth,
            boundary_index: 5,
            field_extent: 5,
        })
    );
    assert_eq!(validate_mass_domain_range(ColumnMassStaggeringAxis::SouthNorth, &(2..4), 5), Ok(()));
    assert_eq!(
        validate_tile_range(ColumnMassStaggeringAxis::SouthNorth, &(1..6), &(1..4), 8),
        Err(ColumnMassStaggeringError::TileOutsideMassDomain {
            axis: ColumnMassStaggeringAxis::SouthNorth,
        })
    );
    assert_eq!(validate_tile_range(ColumnMassStaggeringAxis::SouthNorth, &(1..5), &(1..4), 8), Ok(()));
}

#[test]
fn boundary_contacts_follow_the_tile_endpoints() {
    let shape = GridShape::try_new(6, 5, 1).unwrap();
    for (west_east_domain, south_north_domain, west_east, south_north) in [
        (0..5, 0..4, ColumnMassStaggeringAxisBoundary::Interior, ColumnMassStaggeringAxisBoundary::Interior),
        (1..5, 1..4, ColumnMassStaggeringAxisBoundary::Lower, ColumnMassStaggeringAxisBoundary::Lower),
        (0..4, 0..3, ColumnMassStaggeringAxisBoundary::Upper, ColumnMassStaggeringAxisBoundary::Upper),
        (1..4, 1..3, ColumnMassStaggeringAxisBoundary::Both, ColumnMassStaggeringAxisBoundary::Both),
    ] {
        let region = ColumnMassStaggeringRegion::try_new(shape, west_east_domain, south_north_domain, 1..5, 1..4).unwrap();
        assert_eq!(region.west_east_boundary(), west_east);
        assert_eq!(region.south_north_boundary(), south_north);
    }
}

#[test]
fn staggered_sources_copy_at_touched_boundaries_and_average_inside() {
    let shape = GridShape::try_new(6, 5, 1).unwrap();
    let region = ColumnMassStaggeringRegion::try_new(shape, 1..4, 1..3, 1..5, 1..4).unwrap();
    assert_eq!(region.west_east_momentum_mass_source(1, 1), ColumnMassSource::Point(7));
    assert_eq!(region.west_east_momentum_mass_source(1, 2), ColumnMassSource::Average(8, 7));
    assert_eq!(region.west_east_momentum_mass_source(2, 4), ColumnMassSource::Point(15));
    assert_eq!(region.south_north_momentum_mass_source(1, 2), ColumnMassSource::Point(8));
    assert_eq!(region.south_north_momentum_mass_source(2, 2), ColumnMassSource::Average(14, 8));
    assert_eq!(region.south_north_momentum_mass_source(3, 2), ColumnMassSource::Point(14));

    let interior = ColumnMassStaggeringRegion::try_new(shape, 0..5, 0..4, 1..5, 1..4).unwrap();
    assert_eq!(interior.west_east_momentum_mass_source(1, 1), ColumnMassSource::Average(7, 6));
    assert_eq!(interior.south_north_momentum_mass_source(1, 3), ColumnMassSource::Average(9, 3));
}

#[test]
fn big_step_sources_use_periodic_halos_only_on_periodic_axes() {
    let shape = GridShape::try_new(6, 5, 1).unwrap();
    let region = ColumnMassStaggeringRegion::try_new(shape, 1..4, 1..3, 1..5, 1..4).unwrap();
    let both = ColumnMassStaggeringPeriodicity::Both;
    let neither = ColumnMassStaggeringPeriodicity::Neither;
    assert_eq!(region.big_step_west_east_momentum_source(both, 1, 1), (7, 6));
    assert_eq!(region.big_step_west_east_momentum_source(neither, 1, 1), (7, 7));
    assert_eq!(region.big_step_west_east_momentum_source(both, 1, 4), (9, 10));
    assert_eq!(region.big_step_west_east_momentum_source(neither, 1, 4), (9, 9));
    assert_eq!(region.big_step_west_east_momentum_source(neither, 2, 2), (14, 13));
    assert_eq!(region.big_step_south_north_momentum_source(both, 1, 2), (8, 2));
    assert_eq!(region.big_step_south_north_momentum_source(neither, 1, 2), (8, 8));
    assert_eq!(region.big_step_south_north_momentum_source(both, 3, 2), (14, 20));
    assert_eq!(region.big_step_south_north_momentum_source(neither, 3, 2), (14, 14));
    assert_eq!(region.big_step_south_north_momentum_source(both, 2, 2), (14, 8));
}

#[test]
fn big_step_validation_rejects_missing_periodic_lower_halo() {
    let shape = GridShape::try_new(4, 4, 1).unwrap();
    let region = ColumnMassStaggeringRegion::try_new(shape, 0..3, 0..3, 0..4, 0..4).unwrap();
    for (periodicity, expected_axis) in [
        (ColumnMassStaggeringPeriodicity::WestEast, ColumnMassStaggeringAxis::WestEast),
        (ColumnMassStaggeringPeriodicity::SouthNorth, ColumnMassStaggeringAxis::SouthNorth),
    ] {
        assert_eq!(
            validate_big_step_operation(shape, shape, shape, shape, &region, periodicity),
            Err(ColumnMassStaggeringError::PeriodicLowerHaloMissing { axis: expected_axis })
        );
    }
    assert_eq!(validate_periodic_lower_halos(&region, ColumnMassStaggeringPeriodicity::Neither), Ok(()));
}

#[test]
fn operation_validation_reports_the_first_mismatched_field() {
    let shape = GridShape::try_new(4, 4, 1).unwrap();
    let wrong_shape = GridShape::try_new(5, 4, 1).unwrap();
    let region = ColumnMassStaggeringRegion::try_new(shape, 0..3, 0..3, 1..4, 1..4).unwrap();
    assert_eq!(
        validate_stagger_operation(wrong_shape, shape, shape, shape, &region),
        Err(ColumnMassStaggeringError::FieldShapeMismatch { field: ColumnMassStaggeringField::PerturbationMass })
    );
    assert_eq!(
        validate_stagger_operation(shape, shape, shape, wrong_shape, &region),
        Err(ColumnMassStaggeringError::FieldShapeMismatch { field: ColumnMassStaggeringField::SouthNorthMomentumMass })
    );
    assert_eq!(validate_stagger_operation(shape, shape, shape, shape, &region), Ok(()));
    assert_eq!(
        validate_full_big_step_operation(wrong_shape, shape, shape, &region, ColumnMassStaggeringPeriodicity::Both),
        Err(ColumnMassStaggeringError::FieldShapeMismatch { field: ColumnMassStaggeringField::FullMass })
    );
    assert_eq!(validate_full_mass_operation(shape, shape, shape, &region), Ok(()));
    let no_halo = ColumnMassStaggeringRegion::try_new(shape, 0..3, 0..3, 0..4, 1..4).unwrap();
    assert_eq!(
        validate_full_mass_operation(shape, shape, shape, &no_halo),
        Err(ColumnMassStaggeringError::FullMassLowerHaloMissing { axis: ColumnMassStaggeringAxis::WestEast })
    );
}

#[test]
fn big_step_rejects_missing_periodic_lower_halo_before_mutation() {
    let shape = GridShape::try_new(4, 4, 1).unwrap();
    let perturbation_mass = vec![1.0_f32; shape.point_count()];
    let base_mass = vec![2.0_f32; shape.point_count()];
    let region = ColumnMassStaggeringRegion::try_new(shape, 0..3, 0..3, 0..4, 0..4).unwrap();

    for (periodicity, expected_axis) in [
        (ColumnMassStaggeringPeriodicity::WestEast, ColumnMassStaggeringAxis::WestEast),
        (ColumnMassStaggeringPeriodicity::SouthNorth, ColumnMassStaggeringAxis::SouthNorth),
    ] {
        let mut west_east = vec![-7.0_f32; shape.point_count()];
        let mut south_north = vec![-7.0_f32; shape.point_count()];
        assert_eq!(
            stagger_column_mass_for_big_step(
                &region,
                periodicity,
                shape,
                shape,
                shape,
                shape,
                &mut west_east,
                &mut south_north,
                |index, adjacent| {
                    0.5 * (perturbation_mass[index] + perturbation_mass[adjacent] + base_mass[index] + base_mass[adjacent])
                },
            ),
            Err(ColumnMassStaggeringError::PeriodicLowerHaloMissing { axis: expected_axis })
        );
        assert!(west_east.iter().all(|value| *value == -7.0));
        assert!(south_north.iter().all(|value| *value == -7.0));
    }
}

#[test]
fn full_big_step_validates_input_shape_before_mutating_outputs() {
    let shape = GridShape::try_new(4, 4, 1).unwrap();
    let wrong_shape = GridShape::try_new(5, 4, 1).unwrap();
    let full_mass = vec![1.0_f32; wrong_shape.point_count()];
    let mut west_east = vec![-7.0_f32; shape.point_count()];
    let mut south_north = vec![-7.0_f32; shape.point_count()];
    let region = ColumnMassStaggeringRegion::try_new(shape, 1..3, 1..3, 1..4, 1..4).unwrap();

    assert_eq!(
        stagger_full_column_mass_for_big_step(
            &region,
            ColumnMassStaggeringPeriodicity::Both,
            wrong_shape,
            shape,
            shape,
            &mut west_east,
            &mut south_north,
            |index, adjacent| 0.5 * (full_mass[index] + full_mass[adjacent]),
        ),
        Err(ColumnMassStaggeringError::FieldShapeMismatch { field: ColumnMassStaggeringField::FullMass })
    );
    assert!(west_east.iter().all(|value| *value == -7.0));
    assert!(south_north.iter().all(|value| *value == -7.0));
}

#[test]
fn rejects_a_mismatched_field_before_mutating_outputs() {
    let shape = GridShape::try_new(4, 4, 1).unwrap();
    let wrong_shape = GridShape::try_new(5, 4, 1).unwrap();
    let perturbation_mass = vec![1.0_f32; wrong_shape.point_count()];
    let base_mass = vec![2.0_f32; shape.point_count()];
    let mut west_east = vec![-7.0_f32; shape.point_count()];
    let mut south_north = vec![-7.0_f32; shape.point_count()];
    let region = ColumnMassStaggeringRegion::try_new(shape, 0..3, 0..3, 1..4, 1..4).unwrap();

    assert_eq!(
        stagger_column_mass(
            &region,
            wrong_shape,
            shape,
            shape,
            shape,
            &mut west_east,
            &mut south_north,
            |source| match source {
                ColumnMassSource::Point(index) => perturbation_mass[index] + base_mass[index],
                ColumnMassSource::Average(index, preceding) => {
                    0.5 * (perturbation_mass[index] + perturbation_mass[preceding] + base_mass[index] + base_mass[preceding])
                }
            },
        ),
        Err(ColumnMassStaggeringError::FieldShapeMismatch { field: ColumnMassStaggeringField::PerturbationMass })
    );
    assert!(west_east.iter().all(|value| *value == -7.0));
    assert!(south_north.iter().all(|value| *value == -7.0));
}

#[test]
fn checked_operations_write_after_passing_every_check() {
    let shape = GridShape::try_new(6, 5, 1).unwrap();
    let region = ColumnMassStaggeringRegion::try_new(shape, 1..5, 1..4, 1..5, 1..4).unwrap();
    let mut west_east = vec![-999_i64; shape.point_count()];
    let mut south_north = vec![-999_i64; shape.point_count()];
    assert_eq!(
        stagger_column_mass(&region, shape, shape, shape, shape, &mut west_east, &mut south_north, encode_source),
        Ok(())
    );
    assert_eq!(west_east[shape.linear_index(1, 0, 1)], 7);
    assert_eq!(south_north[shape.linear_index(1, 0, 2)], -(13 * 100 + 7));
    assert_eq!(west_east[0], -999);

    let mut full = vec![-1_i64; shape.point_count()];
    assert_eq!(calculate_full_column_mass(&region, shape, shape, shape, &mut full, |index| index as i64), Ok(()));
    assert_eq!(full[0], 0);
    assert_eq!(full[shape.linear_index(5, 0, 0)], -1);

    let wrong = GridShape::try_new(6, 4, 1).unwrap();
    let mut untouched = vec![-1_i64; shape.point_count()];
    assert_eq!(
        calculate_full_column_mass(&region, shape, shape, wrong, &mut untouched, |index| index as i64),
        Err(ColumnMassStaggeringError::FieldShapeMismatch { field: ColumnMassStaggeringField::BaseMass })
    );
    assert!(untouched.iter().all(|value| *value == -1));
}

// Encodes a source so that every output names the offsets it came from.
fn encode_source(source: ColumnMassSource) -> i64 {
    match source {
        ColumnMassSource::Point(index) => index as i64,
        ColumnMassSource::Average(index, preceding) => -((index * 100 + preceding) as i64),
    }
}

#[test]
fn staggering_writes_active_points_from_their_sources_and_keeps_halos() {
    let shape = GridShape::try_new(6, 5, 1).unwrap();
    let region = ColumnMassStaggeringRegion::try_new(shape, 1..5, 1..4, 1..5, 1..4).unwrap();
    let mut west_east = vec![-999_i64; shape.point_count()];
    let mut south_north = vec![-999_i64; shape.point_count()];

    stagger_column_mass_points(&region, &mut west_east, &mut south_north, encode_source);

    let at = |west_east_index: usize, south_north_index: usize| shape.linear_index(west_east_index, 0, south_north_index);
    // Lower west-east boundary copies the adjacent mass point; inside, neighbours are averaged.
    assert_eq!(west_east[at(1, 1)], 7);
    assert_eq!(west_east[at(2, 1)], -(8 * 100 + 7));
    assert_eq!(west_east[at(4, 3)], -(22 * 100 + 21));
    // Lower south-north boundary row copies; later rows average with the row before.
    assert_eq!(south_north[at(1, 1)], 7);
    assert_eq!(south_north[at(1, 2)], -(13 * 100 + 7));
    assert_eq!(south_north[at(4, 3)], -(22 * 100 + 16));
    // Halo rows and columns keep their values.
    for south_north_index in 0..5 {
        for west_east_index in 0..6 {
            let inside = (1..5).contains(&west_east_index) && (1..4).contains(&south_north_index);
            if !inside {
                assert_eq!(west_east[at(west_east_index, south_north_index)], -999);
                assert_eq!(south_north[at(west_east_index, south_north_index)], -999);
            }
        }
    }
}

#[test]
fn big_step_staggering_pairs_boundary_points_with_periodic_halos() {
    let shape = GridShape::try_new(6, 5, 1).unwrap();
    let region = ColumnMassStaggeringRegion::try_new(shape, 1..4, 1..3, 1..5, 1..4).unwrap();
    assert_eq!(validate_periodic_lower_halos(&region, ColumnMassStaggeringPeriodicity::Both), Ok(()));
    let mut west_east = vec![-1_i64; shape.point_count()];
    let mut south_north = vec![-1_i64; shape.point_count()];

    stagger_big_step_points(
        &region,
        ColumnMassStaggeringPeriodicity::Both,
        &mut west_east,
        &mut south_north,
        |index, adjacent| (index * 100 + adjacent) as i64,
    );

    let at = |west_east_index: usize, south_north_index: usize| shape.linear_index(west_east_index, 0, south_north_index);
    assert_eq!(west_east[at(1, 1)], 7 * 100 + 6);
    assert_eq!(west_east[at(2, 1)], 8 * 100 + 7);
    assert_eq!(west_east[at(4, 1)], 9 * 100 + 10);
    assert_eq!(west_east[at(1, 3)], -1);
    assert_eq!(south_north[at(1, 1)], 7 * 100 + 1);
    assert_eq!(south_north[at(1, 2)], 13 * 100 + 7);
    assert_eq!(south_north[at(1, 3)], 13 * 100 + 19);
    assert_eq!(south_north[at(4, 1)], -1);
    assert_eq!(south_north[at(0, 2)], -1);
}

#[test]
fn full_mass_covers_the_lower_halo_and_fails_without_one() {
    let shape = GridShape::try_new(6, 5, 1).unwrap();
    let region = ColumnMassStaggeringRegion::try_new(shape, 1..5, 1..4, 1..5, 1..4).unwrap();
    let mut full = vec![-1_i64; shape.point_count()];
    assert_eq!(calculate_full_mass_points(&region, &mut full, |index| 2 * index as i64), Ok(()));
    for south_north_index in 0..5 {
        for west_east_index in 0..6 {
            let index = shape.linear_index(west_east_index, 0, south_north_index);
            let active = west_east_index < 5 && south_north_index < 4;
            assert_eq!(full[index], if active { 2 * index as i64 } else { -1 });
        }
    }

    let no_halo = ColumnMassStaggeringRegion::try_new(shape, 0..5, 1..4, 0..5, 1..4).unwrap();
    let mut untouched = vec![-1_i64; shape.point_count()];
    assert_eq!(
        calculate_full_mass_points(&no_halo, &mut untouched, |index| index as i64),
        Err(ColumnMassStaggeringError::FullMassLowerHaloMissing { axis: ColumnMassStaggeringAxis::WestEast })
    );
    assert!(untouched.iter().all(|value| *value == -1));
}

fn pair_of(source: ColumnMassSource) -> (usize, usize) {
    match source {
        ColumnMassSource::Point(index) => (index, index),
        ColumnMassSource::Average(first, second) => (first, second),
    }
}

#[test]
fn non_periodic_big_step_reads_the_split_staggering_points() {
    let shape = GridShape::try_new(6, 5, 1).unwrap();
    let region = ColumnMassStaggeringRegion::try_new(shape, 1..4, 1..3, 1..5, 1..4).unwrap();
    let periodicity = ColumnMassStaggeringPeriodicity::Neither;
    for south_north_index in region.west_east_momentum_south_north_range() {
        for west_east_index in region.west_east_momentum_west_east_range() {
            assert_eq!(
                region.big_step_west_east_momentum_source(periodicity, south_north_index, west_east_index),
                pair_of(region.west_east_momentum_mass_source(south_north_index, west_east_index))
            );
        }
    }
    for south_north_index in region.south_north_momentum_south_north_range() {
        for west_east_index in region.south_north_momentum_west_east_range() {
            assert_eq!(
                region.big_step_south_north_momentum_source(periodicity, south_north_index, west_east_index),
                pair_of(region.south_north_momentum_mass_source(south_north_index, west_east_index))
            );
        }
    }
}

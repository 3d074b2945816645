use wrf_dynamics::inverse_density::{
    calculate_full_inverse_density, calculate_inverse_density_points, clipped, validate_domain, validate_field_shapes, validate_tile,
};
use wrf_dynamics::{GridShape, InverseDensityAxis, InverseDensityError, InverseDensityField, InverseDensityRegion};

#[test]
fn clips_every_upper_stagger_to_the_mass_domain() {
    let shape = GridShape::try_new(8, 7, 7).unwrap();
    let region = InverseDensityRegion::try_new(shape, 1..6, 1..5, 2..5, 1..7, 1..6, 2..6).unwrap();

    assert_eq!(region.output_ranges(), (1..6, 1..5, 2..5));
}

#[test]
fn rejects_every_range_failure_category() {
    for (axis, extent) in [
        (InverseDensityAxis::WestEast, 8),
        (InverseDensityAxis::SouthNorth, 7),
        (InverseDensityAxis::BottomTop, 7),
    ] {
        assert_eq!(
            validate_domain(axis, &(1..1), extent),
            Err(InverseDensityError::EmptyMassDomainRange { axis })
        );
        assert_eq!(
            validate_domain(axis, &(1..extent + 1), extent),
            Err(InverseDensityError::MassDomainRangeOutOfBounds {
                axis,
                range_end: extent + 1,
                field_extent: extent,
            })
        );
        assert_eq!(
            validate_tile(axis, &(2..2), &(1..5), extent),
            Err(InverseDensityError::EmptyTileRange { axis })
        );
        assert_eq!(
            validate_tile(axis, &(1..extent + 1), &(1..extent), extent),
            Err(InverseDensityError::TileRangeOutOfBounds {
                axis,
                range_end: extent + 1,
                field_extent: extent,
            })
        );
        assert_eq!(
            validate_tile(axis, &(0..2), &(1..5), extent),
            Err(InverseDensityError::TileOutsideMassDomain { axis })
        );
    }
}

#[test]
fn region_reports_the_first_failing_axis() {
    let shape = GridShape::try_new(5, 5, 5).unwrap();
    assert_eq!(
        InverseDensityRegion::try_new(shape, 1..4, 1..4, 1..6, 1..5, 1..5, 1..5),
        Err(InverseDensityError::MassDomainRangeOutOfBounds {
            axis: InverseDensityAxis::BottomTop,
            range_end: 6,
            field_extent: 5,
        })
    );
    assert_eq!(
        InverseDensityRegion::try_new(shape, 1..4, 1..4, 1..4, 1..5, 1..6, 1..5),
        Err(InverseDensityError::TileRangeOutOfBounds {
            axis: InverseDensityAxis::SouthNorth,
            range_end: 6,
            field_extent: 5,
        })
    );
    assert_eq!(clipped(&(3..9), 5), 3..5);
    assert_eq!(clipped(&(6..9), 5), 5..5);
}

#[test]
fn rejects_each_field_role_before_mutation() {
    let expected = GridShape::try_new(5, 5, 5).unwrap();
    let wrong = GridShape::try_new(4, 5, 5).unwrap();
    let region = InverseDensityRegion::try_new(expected, 1..4, 1..4, 1..4, 1..5, 1..5, 1..5).unwrap();

    for role in [InverseDensityField::FullOutput, InverseDensityField::Perturbation, InverseDensityField::BaseState] {
        let shape_of = |field: InverseDensityField| if field == role { wrong } else { expected };
        let mut output = vec![-999.0_f32; shape_of(InverseDensityField::FullOutput).point_count()];
        let perturbation = vec![1.0_f32; shape_of(InverseDensityField::Perturbation).point_count()];
        let base_state = vec![1.0_f32; shape_of(InverseDensityField::BaseState).point_count()];
        let result = calculate_full_inverse_density(
            &region,
            shape_of(InverseDensityField::FullOutput),
            shape_of(InverseDensityField::Perturbation),
            shape_of(InverseDensityField::BaseState),
            &mut output,
            |index| perturbation[index] + base_state[index],
        );

        assert_eq!(result, Err(InverseDensityError::FieldShapeMismatch { field: role, expected, actual: wrong }));
        assert!(output.iter().all(|value| *value == -999.0));
    }
}

#[test]
fn field_shape_validation_reports_the_first_mismatched_role() {
    let expected = GridShape::try_new(5, 5, 5).unwrap();
    let wrong = GridShape::try_new(4, 5, 5).unwrap();
    let region = InverseDensityRegion::try_new(expected, 1..4, 1..4, 1..4, 1..5, 1..5, 1..5).unwrap();
    assert_eq!(
        validate_field_shapes(wrong, wrong, expected, &region),
        Err(InverseDensityError::FieldShapeMismatch { field: InverseDensityField::FullOutput, expected, actual: wrong })
    );
    assert_eq!(validate_field_shapes(expected, expected, expected, &region), Ok(()));
}

#[test]
fn writes_the_clipped_tile_and_keeps_every_other_point() {
    let shape = GridShape::try_new(5, 5, 5).unwrap();
    let region = InverseDensityRegion::try_new(shape, 1..4, 1..4, 1..4, 1..5, 1..5, 1..5).unwrap();
    let perturbation: Vec<f32> = (0..shape.point_count()).map(|index| 0.25 + index as f32).collect();
    let base_state = vec![0.75_f32; shape.point_count()];
    let mut output = vec![-999.0_f32; shape.point_count()];
    calculate_inverse_density_points(&region, &mut output, |index| perturbation[index] + base_state[index]);
    for south_north in 0..5 {
        for bottom_top in 0..5 {
            for west_east in 0..5 {
                let index = shape.linear_index(west_east, bottom_top, south_north);
                let active = (1..4).contains(&west_east) && (1..4).contains(&south_north) && (1..4).contains(&bottom_top);
                let expected = if active { index as f32 + 1.0 } else { -999.0 };
                assert_eq!(output[index], expected, "point ({west_east}, {bottom_top}, {south_north})");
            }
        }
    }
}

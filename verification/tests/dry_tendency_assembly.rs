use wrf_dynamics::dry_tendency_assembly::{
    accumulate_column_mass_points, assemble_dry_tendencies, clipped_if, for_each_volume_pair, validate_domain, validate_dry_tendency_assembly,
    validate_tile,
};
use wrf_dynamics::{
    DryLargeStepBoundaryStageControls, DryTendencyAssemblyActiveRanges, DryTendencyAssemblyAxis,
    DryTendencyAssemblyCoefficient, DryTendencyAssemblyError, DryTendencyAssemblyField,
    DryTendencyAssemblyFieldShapes, DryTendencyAssemblyForwardTendencies, DryTendencyAssemblyMapFactors,
    DryTendencyAssemblyPhase, DryTendencyAssemblyRegion, DryTendencyAssemblyRungeKuttaTendencies,
    DryTendencyAssemblySavedTendencies, DryTendencyAssemblyThermodynamics, DryTendencyBoundaryStageControls,
    GridShape, SpecifiedBoundaryTendencyParameters, SpecifiedBoundaryWestEastPeriodicity,
};

#[test]
fn derives_all_staggered_component_ranges() {
    let region = DryTendencyAssemblyRegion::try_new(
        GridShape::try_new(7, 6, 5).unwrap(),
        1..6,
        1..5,
        1..4,
        2..7,
        2..6,
        1..5,
    )
    .unwrap();
    assert_eq!(
        region.west_east_momentum_ranges(),
        DryTendencyAssemblyActiveRanges {
            west_east: 2..7,
            south_north: 2..5,
            bottom_top: 1..4
        }
    );
    assert_eq!(
        region.south_north_momentum_ranges(),
        DryTendencyAssemblyActiveRanges {
            west_east: 2..6,
            south_north: 2..6,
            bottom_top: 1..4
        }
    );
    assert_eq!(
        region.vertical_ranges(),
        DryTendencyAssemblyActiveRanges {
            west_east: 2..6,
            south_north: 2..5,
            bottom_top: 1..5
        }
    );
    assert_eq!(
        region.mass_ranges(),
        DryTendencyAssemblyActiveRanges {
            west_east: 2..6,
            south_north: 2..5,
            bottom_top: 1..4
        }
    );
}

#[test]
fn removes_inclusive_kte_from_interior_mass_level_loops() {
    let region = DryTendencyAssemblyRegion::try_new(
        GridShape::try_new(7, 6, 5).unwrap(),
        1..6,
        1..5,
        1..4,
        2..4,
        2..4,
        1..3,
    )
    .unwrap();

    assert_eq!(region.mass_ranges().bottom_top, 1..2);
    assert_eq!(region.vertical_ranges().bottom_top, 1..3);
}

#[test]
fn range_checks_name_the_failing_axis() {
    let shape = GridShape::try_new(7, 6, 5).unwrap();
    assert_eq!(
        DryTendencyAssemblyRegion::try_new(shape, 1..6, 1..5, 1..4, 2..7, 0..6, 1..5),
        Err(DryTendencyAssemblyError::TileOutsideMassDomain { axis: DryTendencyAssemblyAxis::SouthNorth })
    );
    assert_eq!(
        validate_domain(DryTendencyAssemblyAxis::BottomTop, &(3..3), 5),
        Err(DryTendencyAssemblyError::EmptyMassDomainRange { axis: DryTendencyAssemblyAxis::BottomTop })
    );
    assert_eq!(
        validate_tile(DryTendencyAssemblyAxis::WestEast, &(1..8), &(1..6), 7),
        Err(DryTendencyAssemblyError::TileRangeOutOfBounds {
            axis: DryTendencyAssemblyAxis::WestEast,
            range_end: 8,
            field_extent: 7,
        })
    );
    assert_eq!(clipped_if(&(2..7), 6, true), 2..6);
    assert_eq!(clipped_if(&(2..7), 6, false), 2..7);
}

fn uniform_shapes(volume: GridShape, horizontal: GridShape, levels: usize) -> DryTendencyAssemblyFieldShapes {
    DryTendencyAssemblyFieldShapes {
        west_east_runge_kutta_momentum: volume,
        south_north_runge_kutta_momentum: volume,
        vertical_runge_kutta_momentum: volume,
        runge_kutta_geopotential: volume,
        runge_kutta_potential_temperature: volume,
        runge_kutta_column_mass: horizontal,
        west_east_forward_momentum: volume,
        south_north_forward_momentum: volume,
        vertical_forward_momentum: volume,
        forward_geopotential: volume,
        forward_potential_temperature: volume,
        forward_column_mass: horizontal,
        saved_west_east_momentum: volume,
        saved_south_north_momentum: volume,
        saved_vertical_momentum: volume,
        saved_geopotential: volume,
        saved_potential_temperature: volume,
        diabatic_heating: volume,
        full_column_mass: horizontal,
        west_east_momentum_south_north_map_factor: horizontal,
        south_north_momentum_west_east_map_factor: horizontal,
        inverse_south_north_momentum_west_east_map_factor: horizontal,
        mass_point_south_north_map_factor: horizontal,
        full_mass_multiplier_length: levels,
        vertical_offset_length: levels,
    }
}

#[test]
fn structural_validation_checks_volumes_then_planes_then_coefficients() {
    let volume = GridShape::try_new(4, 4, 4).unwrap();
    let horizontal = volume.horizontal_shape();
    assert_eq!(horizontal, GridShape::try_new(4, 4, 1).unwrap());
    let wrong = GridShape::try_new(2, 2, 2).unwrap();
    let region = DryTendencyAssemblyRegion::try_new(volume, 1..3, 1..3, 1..3, 1..4, 1..4, 1..4).unwrap();

    let valid = uniform_shapes(volume, horizontal, 4);
    assert_eq!(validate_dry_tendency_assembly(&valid, &region), Ok(()));

    let mut shapes = valid;
    shapes.diabatic_heating = wrong;
    shapes.full_column_mass = wrong;
    assert_eq!(
        validate_dry_tendency_assembly(&shapes, &region),
        Err(DryTendencyAssemblyError::FieldShapeMismatch {
            field: DryTendencyAssemblyField::DiabaticHeating,
            expected: volume,
            actual: wrong,
        })
    );

    let mut shapes = valid;
    shapes.full_column_mass = wrong;
    shapes.vertical_offset_length = 3;
    assert_eq!(
        validate_dry_tendency_assembly(&shapes, &region),
        Err(DryTendencyAssemblyError::FieldShapeMismatch {
            field: DryTendencyAssemblyField::FullColumnMass,
            expected: horizontal,
            actual: wrong,
        })
    );

    let mut shapes = valid;
    shapes.vertical_offset_length = 3;
    assert_eq!(
        validate_dry_tendency_assembly(&shapes, &region),
        Err(DryTendencyAssemblyError::CoefficientLengthMismatch {
            coefficient: DryTendencyAssemblyCoefficient::VerticalOffset,
            expected: 4,
            actual: 3,
        })
    );
}

#[test]
fn phase_adds_saved_tendencies_only_on_the_first_substep() {
    assert!(DryTendencyAssemblyPhase::FirstSubstep.adds_saved_tendencies());
    assert!(!DryTendencyAssemblyPhase::LaterSubstep.adds_saved_tendencies());
}

#[test]
fn field_bundles_group_the_borrowed_fields() {
    let mut rk = [vec![0.0_f32; 2], vec![0.0; 2], vec![0.0; 2], vec![0.0; 2], vec![0.0; 2], vec![0.0; 2]];
    let [u, v, w, ph, t, mu] = &mut rk;
    let runge_kutta = DryTendencyAssemblyRungeKuttaTendencies::new(u, v, w, ph, t, mu);
    runge_kutta.column_mass[1] = 3.0;
    assert_eq!(rk[5], vec![0.0, 3.0]);

    let mut forward = [vec![1.0_f32; 2], vec![1.0; 2], vec![1.0; 2], vec![1.0; 2], vec![1.0; 2]];
    let forward_mass = vec![2.0_f32; 2];
    let [uf, vf, wf, phf, tf] = &mut forward;
    let forward_bundle = DryTendencyAssemblyForwardTendencies::new(uf, vf, wf, phf, tf, &forward_mass);
    forward_bundle.geopotential[0] = 9.0;
    assert_eq!(forward_bundle.column_mass[0], 2.0);
    assert_eq!(forward[3], vec![9.0, 1.0]);

    let saved = vec![0.5_f32; 2];
    let saved_bundle = DryTendencyAssemblySavedTendencies::new(&saved, &saved, &saved, &saved, &saved);
    assert_eq!(saved_bundle.potential_temperature[1], 0.5);
    let thermodynamics = DryTendencyAssemblyThermodynamics::new(&saved, &forward_mass);
    assert_eq!(thermodynamics.full_column_mass[0], 2.0);
    let maps = DryTendencyAssemblyMapFactors::new(&saved, &forward_mass, &saved, &forward_mass);
    assert_eq!(maps.mass_point_south_north[1], 2.0);
}

#[test]
fn stage_controls_keep_their_settings() {
    let parameters = SpecifiedBoundaryTendencyParameters::new(5, 1);
    assert_eq!(parameters.specified_boundary_width, 5);
    assert_eq!(parameters.specified_zone, 1);
    let controls = DryTendencyBoundaryStageControls::new(
        DryTendencyAssemblyPhase::FirstSubstep,
        parameters,
        SpecifiedBoundaryWestEastPeriodicity::Nonperiodic,
    );
    assert_eq!(controls.phase, DryTendencyAssemblyPhase::FirstSubstep);
    assert_eq!(controls.boundary_parameters, parameters);
    let large_step = DryLargeStepBoundaryStageControls::new(parameters, SpecifiedBoundaryWestEastPeriodicity::Periodic);
    assert_eq!(large_step.west_east_periodicity, SpecifiedBoundaryWestEastPeriodicity::Periodic);
}

#[test]
fn grid_shape_rejects_zero_extents_and_overflow() {
    assert_eq!(GridShape::try_new(0, 4, 4), Err(wrf_dynamics::GridShapeError::ZeroExtent));
    assert_eq!(
        GridShape::try_new(usize::MAX, 2, 1),
        Err(wrf_dynamics::GridShapeError::PointCountOverflow)
    );
    let shape = GridShape::try_new(7, 6, 5).unwrap();
    assert_eq!((shape.west_east_points(), shape.south_north_points(), shape.bottom_top_points()), (7, 6, 5));
}

#[test]
fn volume_pairs_update_only_the_active_component_points() {
    let shape = GridShape::try_new(7, 6, 5).unwrap();
    let region = DryTendencyAssemblyRegion::try_new(shape, 1..6, 1..5, 1..4, 2..7, 2..6, 1..5).unwrap();
    let count = shape.point_count();
    let mut runge_kutta = vec![0_i64; count];
    let mut forward: Vec<i64> = (0..count).map(|index| index as i64).collect();
    let ranges = region.mass_ranges();

    for_each_volume_pair(&region, &mut runge_kutta, &mut forward, &ranges, |index, horizontal, level, rk, fw| {
        (rk + fw + 1, (horizontal * 10 + level) as i64 + 1_000 * index as i64)
    });

    for south_north in 0..6 {
        for bottom_top in 0..5 {
            for west_east in 0..7 {
                let index = shape.linear_index(west_east, bottom_top, south_north);
                let active = (2..6).contains(&west_east) && (2..5).contains(&south_north) && (1..4).contains(&bottom_top);
                if active {
                    let horizontal = south_north * 7 + west_east;
                    assert_eq!(runge_kutta[index], index as i64 + 1);
                    assert_eq!(forward[index], (horizontal * 10 + bottom_top) as i64 + 1_000 * index as i64);
                } else {
                    assert_eq!(runge_kutta[index], 0);
                    assert_eq!(forward[index], index as i64);
                }
            }
        }
    }
}

#[test]
fn column_mass_accumulates_on_active_mass_columns_only() {
    let shape = GridShape::try_new(7, 6, 5).unwrap();
    let region = DryTendencyAssemblyRegion::try_new(shape, 1..6, 1..5, 1..4, 2..7, 2..6, 1..5).unwrap();
    let horizontal = shape.horizontal_shape();
    let forward_mass: Vec<i64> = (0..horizontal.point_count()).map(|index| 3 * index as i64).collect();
    let mut runge_kutta_mass = vec![5_i64; horizontal.point_count()];

    accumulate_column_mass_points(&region, &mut runge_kutta_mass, |index, rk| rk + forward_mass[index]);

    for south_north in 0..6 {
        for west_east in 0..7 {
            let index = horizontal.linear_index(west_east, 0, south_north);
            let active = (2..6).contains(&west_east) && (2..5).contains(&south_north);
            assert_eq!(runge_kutta_mass[index], if active { 5 + 3 * index as i64 } else { 5 });
        }
    }
}

fn pattern(count: usize, offset: f32) -> Vec<f32> {
    (0..count).map(|index| offset + index as f32 * 0.5).collect()
}

#[test]
fn validation_failure_is_atomic_across_every_mutable_output() {
    let shape = GridShape::try_new(6, 6, 5).unwrap();
    let horizontal = shape.horizontal_shape();
    let region = DryTendencyAssemblyRegion::try_new(shape, 1..5, 1..5, 1..4, 1..6, 1..6, 1..5).unwrap();
    let mut full_mass_multiplier: Vec<f32> = (0..5).map(|k| 0.2 + k as f32 * 0.03).collect();
    let vertical_offset: Vec<f32> = (0..5).map(|k| 0.4 - k as f32 * 0.02).collect();
    full_mass_multiplier.pop();
    let mut shapes = uniform_shapes(shape, horizontal, 5);
    shapes.full_mass_multiplier_length = full_mass_multiplier.len();
    shapes.vertical_offset_length = vertical_offset.len();

    let count = shape.point_count();
    let mut runge_kutta: Vec<Vec<f32>> = (0..5).map(|field| pattern(count, field as f32)).collect();
    let mut forward: Vec<Vec<f32>> = (0..5).map(|field| pattern(count, 10.0 + field as f32)).collect();
    let mut runge_kutta_mass = pattern(horizontal.point_count(), 20.0);
    let forward_mass = pattern(horizontal.point_count(), 30.0);
    let before = (runge_kutta.clone(), forward.clone(), runge_kutta_mass.clone());

    let [rk_u, rk_v, rk_w, rk_ph, rk_t] = &mut runge_kutta[..] else { unreachable!() };
    let [fw_u, fw_v, fw_w, fw_ph, fw_t] = &mut forward[..] else { unreachable!() };
    let saved = |_: usize, _: usize, fw: f32| fw + 1.0;
    let add = |_: usize, _: usize, _: usize, rk: f32, fw: f32| rk + fw;
    let result = assemble_dry_tendencies(
        &region,
        &shapes,
        DryTendencyAssemblyRungeKuttaTendencies::new(rk_u, rk_v, rk_w, rk_ph, rk_t, &mut runge_kutta_mass),
        DryTendencyAssemblyForwardTendencies::new(fw_u, fw_v, fw_w, fw_ph, fw_t, &forward_mass),
        DryTendencyAssemblyPhase::FirstSubstep,
        saved,
        add,
        saved,
        add,
        saved,
        add,
        saved,
        add,
        saved,
        |_, _, level, rk, fw| rk + fw * full_mass_multiplier[level] + vertical_offset[level],
        |index, rk| rk + forward_mass[index],
    );

    assert_eq!(
        result,
        Err(DryTendencyAssemblyError::CoefficientLengthMismatch {
            coefficient: DryTendencyAssemblyCoefficient::FullMassMultiplier,
            expected: 5,
            actual: 4,
        })
    );
    assert_eq!((runge_kutta, forward, runge_kutta_mass), before);
}

#[test]
fn assembly_updates_each_component_over_its_own_ranges() {
    let shape = GridShape::try_new(7, 6, 5).unwrap();
    let horizontal = shape.horizontal_shape();
    let region = DryTendencyAssemblyRegion::try_new(shape, 1..6, 1..5, 1..4, 2..7, 2..6, 1..5).unwrap();
    let shapes = uniform_shapes(shape, horizontal, 5);
    let count = shape.point_count();
    let components = [
        region.west_east_momentum_ranges(),
        region.south_north_momentum_ranges(),
        region.vertical_ranges(),
        region.vertical_ranges(),
        region.mass_ranges(),
    ];

    for (phase, saved_increment) in [(DryTendencyAssemblyPhase::FirstSubstep, 10), (DryTendencyAssemblyPhase::LaterSubstep, 0)] {
        let mut runge_kutta: Vec<Vec<i64>> = vec![vec![0; count]; 5];
        let mut forward: Vec<Vec<i64>> = vec![vec![1; count]; 5];
        let mut runge_kutta_mass = vec![0_i64; horizontal.point_count()];
        let forward_mass = vec![4_i64; horizontal.point_count()];

        let [rk_u, rk_v, rk_w, rk_ph, rk_t] = &mut runge_kutta[..] else { unreachable!() };
        let [fw_u, fw_v, fw_w, fw_ph, fw_t] = &mut forward[..] else { unreachable!() };
        let saved = |_: usize, _: usize, fw: i64| fw + 10;
        let add = |_: usize, _: usize, _: usize, rk: i64, fw: i64| rk + fw;
        let result = assemble_dry_tendencies(
            &region,
            &shapes,
            DryTendencyAssemblyRungeKuttaTendencies::new(rk_u, rk_v, rk_w, rk_ph, rk_t, &mut runge_kutta_mass),
            DryTendencyAssemblyForwardTendencies::new(fw_u, fw_v, fw_w, fw_ph, fw_t, &forward_mass),
            phase,
            saved,
            add,
            saved,
            add,
            saved,
            add,
            saved,
            add,
            saved,
            add,
            |index, rk| rk + forward_mass[index],
        );
        assert_eq!(result, Ok(()));

        for (field, ranges) in components.iter().enumerate() {
            for south_north in 0..6 {
                for bottom_top in 0..5 {
                    for west_east in 0..7 {
                        let index = shape.linear_index(west_east, bottom_top, south_north);
                        let active = ranges.west_east.contains(&west_east)
                            && ranges.south_north.contains(&south_north)
                            && ranges.bottom_top.contains(&bottom_top);
                        let forward_expected = if active { 1 + saved_increment } else { 1 };
                        assert_eq!(forward[field][index], forward_expected);
                        assert_eq!(runge_kutta[field][index], if active { forward_expected } else { 0 });
                    }
                }
            }
        }
        if phase == DryTendencyAssemblyPhase::LaterSubstep {
            assert!(forward.iter().all(|values| values.iter().all(|value| *value == 1)));
        }
        let mass = region.mass_ranges();
        for south_north in 0..6 {
            for west_east in 0..7 {
                let index = horizontal.linear_index(west_east, 0, south_north);
                let active = mass.west_east.contains(&west_east) && mass.south_north.contains(&south_north);
                assert_eq!(runge_kutta_mass[index], if active { 4 } else { 0 });
            }
        }
    }
}

// The four-by-four-by-four example of the assembly documentation, with the
// first-substep arithmetic supplied as closures.
#[test]
fn documented_first_substep_example_adds_saved_tendencies() {
    let shape = GridShape::try_new(4, 4, 4).unwrap();
    let horizontal = shape.horizontal_shape();
    let region = DryTendencyAssemblyRegion::try_new(shape, 1..3, 1..3, 1..3, 1..4, 1..4, 1..4).unwrap();
    let shapes = uniform_shapes(shape, horizontal, 4);
    let count = shape.point_count();
    let mut runge_kutta: Vec<Vec<f32>> = vec![vec![0.0; count]; 5];
    let mut forward: Vec<Vec<f32>> = vec![vec![0.1; count]; 5];
    let saved = vec![0.01_f32; count];
    let heating = vec![0.001_f32; count];
    let mut runge_kutta_mass = vec![0.0_f32; horizontal.point_count()];
    let forward_mass = vec![0.1_f32; horizontal.point_count()];
    let full_mass = vec![100.0_f32; horizontal.point_count()];
    let map_factor = vec![1.0_f32; horizontal.point_count()];
    let (c1, c2) = ([0.2_f32; 4], [0.4_f32; 4]);

    let [rk_u, rk_v, rk_w, rk_ph, rk_t] = &mut runge_kutta[..] else { unreachable!() };
    let [fw_u, fw_v, fw_w, fw_ph, fw_t] = &mut forward[..] else { unreachable!() };
    let scaled_saved = |index: usize, h: usize, fw: f32| fw + saved[index] * map_factor[h];
    let plain_saved = |index: usize, _: usize, fw: f32| fw + saved[index];
    let divided = |_: usize, h: usize, _: usize, rk: f32, fw: f32| rk + fw / map_factor[h];
    let result = assemble_dry_tendencies(
        &region,
        &shapes,
        DryTendencyAssemblyRungeKuttaTendencies::new(rk_u, rk_v, rk_w, rk_ph, rk_t, &mut runge_kutta_mass),
        DryTendencyAssemblyForwardTendencies::new(fw_u, fw_v, fw_w, fw_ph, fw_t, &forward_mass),
        DryTendencyAssemblyPhase::FirstSubstep,
        scaled_saved,
        divided,
        scaled_saved,
        |_, h, _, rk, fw| rk + fw * map_factor[h],
        scaled_saved,
        divided,
        plain_saved,
        divided,
        plain_saved,
        |index, h, k, rk, fw| rk + fw / map_factor[h] + (c1[k] * full_mass[h] + c2[k]) * heating[index] / map_factor[h],
        |index, rk| rk + forward_mass[index],
    );
    assert_eq!(result, Ok(()));

    for j in 0..4 {
        for i in 0..4 {
            let h = j * 4 + i;
            let active = (1..3).contains(&i) && (1..3).contains(&j);
            assert_eq!(runge_kutta_mass[h], if active { 0.1 } else { 0.0 });
        }
    }
    for j in 0..4 {
        for k in 0..4 {
            for i in 0..4 {
                let x = (j * 4 + k) * 4 + i;
                if (1..4).contains(&i) && (1..3).contains(&j) && (1..3).contains(&k) {
                    assert_eq!(forward[0][x], 0.1_f32 + 0.01_f32);
                    assert_eq!(runge_kutta[0][x], 0.1_f32 + 0.01_f32);
                } else {
                    assert_eq!(forward[0][x], 0.1);
                    assert_eq!(runge_kutta[0][x], 0.0);
                }
            }
        }
    }
}

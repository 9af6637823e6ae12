use terminal_fluid_sim::{
    Action, FieldType, FluidSim, Phase, Relaxed, Scale, SimConfig, Stencil, Transport,
    PROJECTION_ITERATIONS,
};

const OVERLAX: f32 = 1.9;

fn default_config() -> SimConfig<f32> {
    SimConfig { gravity: 0.0, wind_speed: 50.0, smoke_size: 0.25, density: 1000.0 }
}

fn unit() -> Scale<f32> {
    Scale { zero: 0.0, one: 1.0 }
}

fn smoke_rows(height: usize, smoke_size: f32) -> usize {
    (height as f32 * smoke_size).round() as usize
}

fn new_sim(width: usize, height: usize, config: SimConfig<f32>) -> FluidSim<f32> {
    FluidSim::new(width, height, config, unit(), smoke_rows(height, config.smoke_size))
}

fn after_gravity(sim: &FluidSim<f32>, delta: f32) -> Vec<f32> {
    let gravity = sim.get_config().gravity;
    sim.get_vertical_grid().iter().map(|v| v + gravity * delta).collect()
}

fn divergence(sim: &FluidSim<f32>, stencil: &Stencil) -> f32 {
    let u = sim.get_horizontal_grid();
    let v = sim.get_vertical_grid();
    u[stencil.right] - u[stencil.cell] + v[stencil.top] - v[stencil.cell]
}

fn relaxation(sim: &FluidSim<f32>, stencil: &Stencil, delta: f32) -> Relaxed<f32> {
    let u = sim.get_horizontal_grid();
    let v = sim.get_vertical_grid();
    let p = sim.get_pressure_grid();
    let pressure_constant = sim.get_config().density / delta;
    let correction = OVERLAX * (-divergence(sim, stencil) / stencil.number_of_fluids() as f32);
    Relaxed {
        left_face: u[stencil.cell] - correction,
        right_face: u[stencil.right] + correction,
        bottom_face: v[stencil.cell] - correction,
        top_face: v[stencil.top] + correction,
        pressure: p[stencil.cell] + pressure_constant * correction,
    }
}

fn sample_vector(sim: &FluidSim<f32>, x: f32, y: f32, field_type: FieldType) -> f32 {
    let (width, height) = sim.get_size();
    let x = x.min(width as f32).max(1.0);
    let y = y.min(height as f32).max(1.0);
    let (right, up) = field_type.offset();
    let dx = if right { 0.5 } else { 0.0 };
    let dy = if up { 0.5 } else { 0.0 };
    let cells = sim.sample_cells((x - dx).floor() as usize, (y - dy).trunc() as usize);
    let x_ratio = (x - dx) - cells.x_left as f32;
    let y_ratio = (y - dy) - cells.y_bottom as f32;
    let sx = 1.0 - x_ratio;
    let sy = 1.0 - y_ratio;
    let field = sim.field(field_type);
    sx * sy * field[cells.bottom_left]
        + x_ratio * sy * field[cells.bottom_right]
        + x_ratio * y_ratio * field[cells.top_right]
        + sx * y_ratio * field[cells.top_left]
}

fn average(field: &[f32], cells: [usize; 4]) -> f32 {
    let sum: f32 = cells.into_iter().map(|cell| field[cell]).sum();
    sum * 0.25
}

fn after_advection(sim: &FluidSim<f32>, delta: f32) -> (Vec<f32>, Vec<f32>, Vec<f32>) {
    let u = sim.get_horizontal_grid();
    let v = sim.get_vertical_grid();
    let mut new_u = u.clone();
    let mut new_v = v.clone();
    let mut new_smoke = sim.get_smoke_grid().clone();
    for index in 0..u.len() {
        let Some(cells) = sim.advection_stencil(index) else {
            continue;
        };
        let (i, j) = (cells.x, cells.y);

        let x = i as f32 - u[index] * delta;
        let y = j as f32 + 0.5 - average(v, cells.avg_vertical_cells()) * delta;
        new_u[index] = sample_vector(sim, x, y, FieldType::Horizontal);

        let x = i as f32 + 0.5 - average(u, cells.avg_horizontal_cells()) * delta;
        let y = j as f32 - v[index] * delta;
        new_v[index] = sample_vector(sim, x, y, FieldType::Vertical);

        let cell_v = (v[index] + v[cells.top]) * 0.5;
        let cell_u = (u[index] + u[cells.right]) * 0.5;
        let x = i as f32 + 0.5 - cell_u * delta;
        let y = j as f32 + 0.5 - cell_v * delta;
        new_smoke[index] = sample_vector(sim, x, y, FieldType::Smoke);
    }
    (new_u, new_v, new_smoke)
}

/// One step, driven as the library asks. Returns the number of relaxations.
fn step_with_delta(sim: &mut FluidSim<f32>, delta: f32) -> usize {
    let mut relaxations = 0;
    assert!(sim.begin_step());
    loop {
        match sim.next_action() {
            Action::Done => break,
            Action::Gravity => {
                let candidate = after_gravity(sim, delta);
                assert!(sim.add_gravity(&candidate));
            }
            Action::ClearPressure => assert!(sim.clear_pressure()),
            Action::Relax(stencil) => {
                let values = relaxation(sim, &stencil, delta);
                assert!(sim.relax(values));
                relaxations += 1;
            }
            Action::Advect => {
                let (u, v, smoke) = after_advection(sim, delta);
                assert!(sim.move_velocity(&u, &v, &smoke));
            }
        }
    }
    relaxations
}

fn relaxable_cells(sim: &FluidSim<f32>) -> Vec<usize> {
    (0..sim.get_block_grid().len()).filter(|&cell| sim.projection_stencil(cell).is_some()).collect()
}

fn total_divergence(sim: &FluidSim<f32>) -> f32 {
    relaxable_cells(sim)
        .into_iter()
        .map(|cell| divergence(sim, &sim.projection_stencil(cell).unwrap()).abs())
        .sum()
}

#[test]
fn active_cells_are_interior_and_free() {
    let mut sim = new_sim(5, 5, default_config());
    sim.set_block(2, 2);
    for x in 0..5 {
        for y in 0..5 {
            let interior = (1..4).contains(&x) && (1..4).contains(&y);
            let expected = interior && !(x == 2 && y == 2);
            assert_eq!(sim.is_active(x * 5 + y), expected, "({x}, {y})");
        }
    }
    assert!(!sim.is_active(25));
    assert!(!sim.is_active(usize::MAX));
}

#[test]
fn gravity_spares_cells_above_border_and_obstacle() {
    let mut sim = new_sim(5, 6, default_config());
    sim.set_block(2, 2);
    for x in 0..5 {
        for y in 0..6 {
            let index = x * 6 + y;
            // interior, free, and the cell below is interior and free too
            let expected = (1..4).contains(&x) && (2..5).contains(&y)
                && !(x == 2 && (y == 2 || y == 3));
            assert_eq!(sim.has_gravity(index), expected, "({x}, {y})");
        }
    }
    assert!(!sim.has_gravity(0));
    assert!(!sim.has_gravity(30));
}

#[test]
fn stencil_of_a_cell() {
    let mut sim = new_sim(5, 5, default_config());
    sim.set_block(2, 3);
    let stencil = sim.projection_stencil(12).unwrap();
    assert_eq!(
        stencil,
        Stencil {
            cell: 12,
            top: 13,
            right: 17,
            bottom: 11,
            left: 7,
            top_open: false,
            right_open: true,
            bottom_open: true,
            left_open: true,
        }
    );
    assert_eq!(stencil.number_of_fluids(), 3);
    // next to the inlet wall the left face is closed
    let stencil = sim.projection_stencil(6).unwrap();
    assert!(!stencil.left_open && stencil.top_open && stencil.right_open && stencil.bottom_open);
    assert_eq!(stencil.number_of_fluids(), 3);
    // border and obstacle have none
    assert_eq!(sim.projection_stencil(0), None);
    assert_eq!(sim.projection_stencil(5), None);
    assert_eq!(sim.projection_stencil(13), None);
    assert_eq!(sim.projection_stencil(24), None);
    assert_eq!(sim.projection_stencil(25), None);
}

#[test]
fn walled_in_cell_is_not_relaxed() {
    let mut sim = new_sim(5, 5, default_config());
    sim.set_block(2, 3);
    sim.set_block(3, 2);
    sim.set_block(2, 1);
    sim.set_block(1, 2);
    assert!(sim.is_active(12));
    assert_eq!(sim.projection_stencil(12), None);
    assert!(!relaxable_cells(&sim).contains(&12));
    let relaxations = step_with_delta(&mut sim, 1.0 / 60.0);
    assert_eq!(relaxations, PROJECTION_ITERATIONS * 4);
    assert_eq!(sim.get_pressure_grid()[12], 0.0);
}

#[test]
fn a_step_asks_for_gravity_sweeps_and_advection_in_turn() {
    let mut sim = new_sim(4, 5, default_config());
    assert_eq!(sim.next_action(), Action::Done);
    assert_eq!(sim.phase(), Phase::Idle);
    assert!(sim.begin_step());
    assert!(!sim.begin_step());
    assert_eq!(sim.next_action(), Action::Gravity);
    assert!(sim.add_gravity(&vec![0.0; 20]));
    assert_eq!(sim.phase(), Phase::Pressure);
    assert_eq!(sim.next_action(), Action::ClearPressure);
    assert!(sim.clear_pressure());

    // interior of a 4 by 5 grid: columns 1 and 2, rows 1 to 3
    let order = [6, 7, 8, 11, 12, 13];
    for sweep in 0..PROJECTION_ITERATIONS {
        for cell in order {
            assert_eq!(sim.phase(), Phase::Projection { sweep, cell });
            match sim.next_action() {
                Action::Relax(stencil) => {
                    assert_eq!(Some(stencil), sim.projection_stencil(cell));
                    let values = relaxation(&sim, &stencil, 0.5);
                    assert!(sim.relax(values));
                }
                other => panic!("expected a relaxation, got {other:?}"),
            }
        }
    }
    assert_eq!(sim.phase(), Phase::Advection);
    assert_eq!(sim.next_action(), Action::Advect);
    let (u, v, smoke) = after_advection(&sim, 0.5);
    assert!(sim.move_velocity(&u, &v, &smoke));
    assert_eq!(sim.phase(), Phase::Idle);
    assert_eq!(sim.next_action(), Action::Done);
}

#[test]
fn fifty_sweeps() {
    assert_eq!(PROJECTION_ITERATIONS, 50);
    let mut sim = new_sim(7, 7, default_config());
    assert_eq!(step_with_delta(&mut sim, 1.0 / 60.0), 50 * 25);
}

#[test]
fn grid_without_interior_goes_straight_to_advection() {
    for (width, height) in [(1, 1), (2, 2), (2, 9), (9, 2), (1, 5)] {
        let mut sim = new_sim(width, height, default_config());
        let before = (
            sim.get_horizontal_grid().clone(),
            sim.get_vertical_grid().clone(),
            sim.get_smoke_grid().clone(),
        );
        assert!(sim.begin_step());
        assert!(sim.add_gravity(&vec![7.0; width * height]));
        assert_eq!(sim.phase(), Phase::Pressure);
        assert!(sim.clear_pressure());
        assert_eq!(sim.phase(), Phase::Advection);
        let other = vec![3.0; width * height];
        assert!(sim.move_velocity(&other, &other, &other));
        assert_eq!(sim.phase(), Phase::Idle);
        assert_eq!(sim.get_horizontal_grid(), &before.0);
        assert_eq!(sim.get_vertical_grid(), &before.1);
        assert_eq!(sim.get_smoke_grid(), &before.2);
    }
}

#[test]
fn actions_out_of_turn_are_refused() {
    let mut sim = new_sim(4, 4, default_config());
    let values =
        Relaxed { left_face: 1.0, right_face: 2.0, bottom_face: 3.0, top_face: 4.0, pressure: 5.0 };
    let field = vec![9.0; 16];
    let snapshot = |sim: &FluidSim<f32>| {
        (
            sim.get_horizontal_grid().clone(),
            sim.get_vertical_grid().clone(),
            sim.get_pressure_grid().clone(),
            sim.get_smoke_grid().clone(),
            sim.get_block_grid().clone(),
            sim.phase(),
        )
    };

    let idle = snapshot(&sim);
    assert!(!sim.add_gravity(&field));
    assert!(!sim.clear_pressure());
    assert!(!sim.relax(values));
    assert!(!sim.move_velocity(&field, &field, &field));
    assert_eq!(snapshot(&sim), idle);

    assert!(sim.begin_step());
    let gravity = snapshot(&sim);
    assert!(!sim.clear_pressure());
    assert!(!sim.relax(values));
    assert!(!sim.move_velocity(&field, &field, &field));
    assert!(!sim.add_gravity(&vec![9.0; 15]));
    assert!(!sim.add_gravity(&vec![9.0; 17]));
    assert_eq!(snapshot(&sim), gravity);

    assert!(sim.add_gravity(&field));
    let pressure = snapshot(&sim);
    assert_eq!(pressure.5, Phase::Pressure);
    assert!(!sim.add_gravity(&field));
    assert!(!sim.relax(values));
    assert!(!sim.move_velocity(&field, &field, &field));
    assert!(!sim.begin_step());
    assert_eq!(snapshot(&sim), pressure);

    assert!(sim.clear_pressure());
    let projection = snapshot(&sim);
    assert_eq!(projection.5, Phase::Projection { sweep: 0, cell: 5 });
    assert!(!sim.add_gravity(&field));
    assert!(!sim.clear_pressure());
    assert!(!sim.move_velocity(&field, &field, &field));
    assert!(!sim.begin_step());
    assert_eq!(snapshot(&sim), projection);

    while sim.phase() != Phase::Advection {
        assert!(sim.relax(values));
    }
    let advection = snapshot(&sim);
    assert!(!sim.relax(values));
    assert!(!sim.clear_pressure());
    assert!(!sim.add_gravity(&field));
    assert!(!sim.move_velocity(&field, &field, &vec![9.0; 15]));
    assert!(!sim.move_velocity(&vec![9.0; 15], &field, &field));
    assert!(!sim.move_velocity(&field, &vec![9.0; 17], &field));
    assert_eq!(snapshot(&sim), advection);
    assert!(sim.move_velocity(&field, &field, &field));
    assert_eq!(sim.phase(), Phase::Idle);
}

#[test]
fn gravity_changes_the_vertical_velocity_only() {
    let mut sim = new_sim(5, 6, SimConfig { gravity: -9.81, ..default_config() });
    sim.set_block(2, 2);
    // a step leaves a flow and a pressure behind
    step_with_delta(&mut sim, 1.0 / 60.0);
    let before = sim.get_vertical_grid().clone();
    let horizontal = sim.get_horizontal_grid().clone();
    let pressure = sim.get_pressure_grid().clone();
    let smoke = sim.get_smoke_grid().clone();
    let blocks = sim.get_block_grid().clone();
    assert!(pressure.iter().any(|&p| p != 0.0));
    let applies: Vec<bool> = (0..30).map(|i| sim.has_gravity(i)).collect();
    assert!(sim.begin_step());
    let candidate = after_gravity(&sim, 0.5);
    assert!(sim.add_gravity(&candidate));
    for i in 0..30 {
        let expected = if applies[i] { before[i] + -9.81 * 0.5 } else { before[i] };
        assert_eq!(sim.get_vertical_grid()[i], expected, "cell {i}");
    }
    assert_eq!(sim.get_horizontal_grid(), &horizontal);
    assert_eq!(sim.get_pressure_grid(), &pressure);
    assert_eq!(sim.get_smoke_grid(), &smoke);
    assert_eq!(sim.get_block_grid(), &blocks);
    assert_eq!(sim.get_size(), (5, 6));
    assert_eq!(sim.get_config().gravity, -9.81);
    assert_eq!(sim.phase(), Phase::Pressure);
}

#[test]
fn gravity_from_rest() {
    let mut sim = new_sim(5, 6, SimConfig { gravity: -9.81, ..default_config() });
    sim.set_block(2, 2);
    let applies: Vec<bool> = (0..30).map(|i| sim.has_gravity(i)).collect();
    assert!(sim.begin_step());
    let candidate = after_gravity(&sim, 0.5);
    assert!(sim.add_gravity(&candidate));
    for i in 0..30 {
        let expected = if applies[i] { -9.81 * 0.5 } else { 0.0 };
        assert_eq!(sim.get_vertical_grid()[i], expected, "cell {i}");
    }
}

#[test]
fn projection_begins_with_the_pressure_at_rest() {
    let mut sim = new_sim(6, 6, default_config());
    step_with_delta(&mut sim, 1.0 / 60.0);
    assert!(sim.get_pressure_grid().iter().any(|&p| p != 0.0));
    assert!(sim.begin_step());
    let candidate = after_gravity(&sim, 1.0 / 60.0);
    assert!(sim.add_gravity(&candidate));
    let horizontal = sim.get_horizontal_grid().clone();
    let vertical = sim.get_vertical_grid().clone();
    let smoke = sim.get_smoke_grid().clone();
    let blocks = sim.get_block_grid().clone();
    // the pressure of the step before is still there
    assert!(sim.get_pressure_grid().iter().any(|&p| p != 0.0));
    assert!(sim.clear_pressure());
    assert_eq!(sim.get_pressure_grid(), &vec![0.0; 36]);
    assert_eq!(sim.get_horizontal_grid(), &horizontal);
    assert_eq!(sim.get_vertical_grid(), &vertical);
    assert_eq!(sim.get_smoke_grid(), &smoke);
    assert_eq!(sim.get_block_grid(), &blocks);
    assert_eq!(sim.phase(), Phase::Projection { sweep: 0, cell: 7 });
}

#[test]
fn relaxation_writes_open_faces_only() {
    let mut sim = new_sim(5, 5, default_config());
    sim.set_block(2, 3);
    sim.set_block(3, 2);
    assert!(sim.begin_step());
    assert!(sim.add_gravity(&vec![0.0; 25]));
    assert!(sim.clear_pressure());
    let values = Relaxed {
        left_face: 11.0,
        right_face: 12.0,
        bottom_face: 13.0,
        top_face: 14.0,
        pressure: 15.0,
    };
    // relax up to the cell in the middle, whose top and right are closed
    while sim.phase() != (Phase::Projection { sweep: 0, cell: 12 }) {
        let keep = match sim.next_action() {
            Action::Relax(stencil) => relaxation(&sim, &stencil, 0.5),
            other => panic!("expected a relaxation, got {other:?}"),
        };
        assert!(sim.relax(keep));
    }
    let horizontal = sim.get_horizontal_grid().clone();
    let vertical = sim.get_vertical_grid().clone();
    let pressure = sim.get_pressure_grid().clone();
    let smoke = sim.get_smoke_grid().clone();
    assert!(sim.relax(values));
    for i in 0..25 {
        let u = if i == 12 { 11.0 } else { horizontal[i] };
        let v = if i == 12 { 13.0 } else { vertical[i] };
        let p = if i == 12 { 15.0 } else { pressure[i] };
        assert_eq!(sim.get_horizontal_grid()[i], u, "horizontal at {i}");
        assert_eq!(sim.get_vertical_grid()[i], v, "vertical at {i}");
        assert_eq!(sim.get_pressure_grid()[i], p, "pressure at {i}");
    }
    assert_eq!(sim.get_smoke_grid(), &smoke);
}

#[test]
fn relaxation_writes_all_four_faces_of_an_open_cell() {
    let mut sim = new_sim(5, 5, default_config());
    assert!(sim.begin_step());
    assert!(sim.add_gravity(&vec![0.0; 25]));
    assert!(sim.clear_pressure());
    let values = Relaxed {
        left_face: 11.0,
        right_face: 12.0,
        bottom_face: 13.0,
        top_face: 14.0,
        pressure: 15.0,
    };
    while sim.phase() != (Phase::Projection { sweep: 0, cell: 12 }) {
        assert!(sim.relax(values));
    }
    let horizontal = sim.get_horizontal_grid().clone();
    let vertical = sim.get_vertical_grid().clone();
    assert!(sim.relax(values));
    for i in 0..25 {
        let u = match i {
            12 => 11.0,
            17 => 12.0,
            _ => horizontal[i],
        };
        let v = match i {
            12 => 13.0,
            13 => 14.0,
            _ => vertical[i],
        };
        assert_eq!(sim.get_horizontal_grid()[i], u, "horizontal at {i}");
        assert_eq!(sim.get_vertical_grid()[i], v, "vertical at {i}");
    }
    assert_eq!(sim.get_pressure_grid()[12], 15.0);
}

#[test]
fn projection_never_writes_into_an_obstacle() {
    let mut sim = new_sim(7, 7, SimConfig { gravity: -9.81, ..default_config() });
    for (x, y) in [(3, 3), (3, 4), (4, 2), (5, 5), (1, 1)] {
        sim.set_block(x, y);
    }
    let blocks = sim.get_block_grid().clone();
    assert!(sim.begin_step());
    let candidate = after_gravity(&sim, 0.02);
    assert!(sim.add_gravity(&candidate));
    assert!(sim.clear_pressure());
    let horizontal = sim.get_horizontal_grid().clone();
    let vertical = sim.get_vertical_grid().clone();
    let pressure = sim.get_pressure_grid().clone();
    while let Action::Relax(stencil) = sim.next_action() {
        let values = relaxation(&sim, &stencil, 0.02);
        assert!(sim.relax(values));
        for i in 0..49 {
            if blocks[i] {
                assert_eq!(sim.get_horizontal_grid()[i], horizontal[i]);
                assert_eq!(sim.get_vertical_grid()[i], vertical[i]);
                assert_eq!(sim.get_pressure_grid()[i], pressure[i]);
            }
        }
    }
    assert_eq!(sim.get_block_grid(), &blocks);
}

#[test]
fn advection_freezes_border_and_obstacles() {
    let mut sim = new_sim(6, 5, default_config());
    sim.set_block(3, 2);
    let active: Vec<bool> = (0..30).map(|i| sim.is_active(i)).collect();
    assert!(sim.begin_step());
    assert!(sim.add_gravity(&vec![0.0; 30]));
    assert!(sim.clear_pressure());
    while let Action::Relax(stencil) = sim.next_action() {
        let values = relaxation(&sim, &stencil, 0.02);
        assert!(sim.relax(values));
    }
    let horizontal = sim.get_horizontal_grid().clone();
    let vertical = sim.get_vertical_grid().clone();
    let pressure = sim.get_pressure_grid().clone();
    let smoke = sim.get_smoke_grid().clone();
    let blocks = sim.get_block_grid().clone();
    let new_u: Vec<f32> = (0..30).map(|i| 100.0 + i as f32).collect();
    let new_v: Vec<f32> = (0..30).map(|i| 200.0 + i as f32).collect();
    let new_smoke: Vec<f32> = (0..30).map(|i| 300.0 + i as f32).collect();
    assert!(sim.move_velocity(&new_u, &new_v, &new_smoke));
    for i in 0..30 {
        let (u, v, s) =
            if active[i] { (new_u[i], new_v[i], new_smoke[i]) } else { (horizontal[i], vertical[i], smoke[i]) };
        assert_eq!(sim.get_horizontal_grid()[i], u);
        assert_eq!(sim.get_vertical_grid()[i], v);
        assert_eq!(sim.get_smoke_grid()[i], s);
    }
    assert_eq!(sim.get_pressure_grid(), &pressure);
    assert_eq!(sim.get_block_grid(), &blocks);
}

#[test]
fn cells_for_transport() {
    let mut sim = new_sim(5, 7, default_config());
    sim.set_block(3, 3);
    let cells = sim.advection_stencil(17).unwrap();
    assert_eq!(
        cells,
        Transport {
            cell: 17,
            x: 2,
            y: 3,
            top: 18,
            right: 24,
            bottom: 16,
            left: 10,
            top_left: 11,
            bottom_right: 23,
        }
    );
    // around the left face of (2, 3): (1, 3), (1, 4), (2, 4), (2, 3)
    assert_eq!(cells.avg_vertical_cells(), [10, 11, 18, 17]);
    // around the bottom face of (2, 3): (2, 2), (3, 2), (3, 3), (2, 3)
    assert_eq!(cells.avg_horizontal_cells(), [16, 23, 24, 17]);
    let cells = sim.advection_stencil(8).unwrap();
    assert_eq!((cells.x, cells.y), (1, 1));
    assert_eq!(cells.avg_vertical_cells(), [1, 2, 9, 8]);
    let cells = sim.advection_stencil(26).unwrap();
    assert_eq!((cells.x, cells.y), (3, 5));
    assert_eq!(cells.avg_horizontal_cells(), [25, 32, 33, 26]);
    assert_eq!([cells.top, cells.right, cells.bottom, cells.left], sim.indexes_around(3, 5));
    // border and obstacle are not transported into
    assert_eq!(sim.advection_stencil(0), None);
    assert_eq!(sim.advection_stencil(7), None);
    assert_eq!(sim.advection_stencil(24), None);
    assert_eq!(sim.advection_stencil(34), None);
    assert_eq!(sim.advection_stencil(35), None);
}

#[test]
fn field_samples_are_staggered() {
    assert_eq!(FieldType::Horizontal.offset(), (false, true));
    assert_eq!(FieldType::Vertical.offset(), (true, false));
    assert_eq!(FieldType::Smoke.offset(), (true, true));
}

#[test]
fn field_selects_the_buffer() {
    let mut sim = new_sim(4, 4, default_config());
    step_with_delta(&mut sim, 1.0 / 60.0);
    assert_eq!(sim.field(FieldType::Horizontal), sim.get_horizontal_grid());
    assert_eq!(sim.field(FieldType::Vertical), sim.get_vertical_grid());
    assert_eq!(sim.field(FieldType::Smoke), sim.get_smoke_grid());
}

#[test]
fn sample_cells_are_clamped_to_the_grid() {
    let sim = new_sim(5, 7, default_config());
    let cells = sim.sample_cells(2, 3);
    assert_eq!((cells.x_left, cells.x_right, cells.y_bottom, cells.y_top), (2, 3, 3, 4));
    assert_eq!(
        (cells.bottom_left, cells.bottom_right, cells.top_right, cells.top_left),
        (17, 24, 25, 18)
    );
    let cells = sim.sample_cells(4, 6);
    assert_eq!((cells.x_left, cells.x_right, cells.y_bottom, cells.y_top), (4, 4, 6, 6));
    assert_eq!(
        (cells.bottom_left, cells.bottom_right, cells.top_right, cells.top_left),
        (34, 34, 34, 34)
    );
    let cells = sim.sample_cells(5, 7);
    assert_eq!((cells.x_left, cells.x_right, cells.y_bottom, cells.y_top), (4, 4, 6, 6));
    let cells = sim.sample_cells(usize::MAX, 0);
    assert_eq!((cells.x_left, cells.x_right, cells.y_bottom, cells.y_top), (4, 4, 0, 1));
    assert_eq!(
        (cells.bottom_left, cells.bottom_right, cells.top_right, cells.top_left),
        (28, 28, 29, 29)
    );
    let cells = sim.sample_cells(3, 5);
    assert_eq!((cells.x_left, cells.x_right, cells.y_bottom, cells.y_top), (3, 4, 5, 6));
}

#[test]
fn sample_at_an_aligned_coordinate_is_the_stored_value() {
    let mut sim = new_sim(7, 7, SimConfig { gravity: -9.81, ..default_config() });
    sim.set_block(3, 3);
    for _ in 0..3 {
        step_with_delta(&mut sim, 1.0 / 60.0);
    }
    for i in 1..7 {
        for j in 1..7 {
            let index = sim.calculate_index(i, j);
            let (x, y) = (i as f32, j as f32);
            assert_eq!(
                sample_vector(&sim, x, y + 0.5, FieldType::Horizontal),
                sim.get_horizontal_grid()[index]
            );
            assert_eq!(
                sample_vector(&sim, x + 0.5, y, FieldType::Vertical),
                sim.get_vertical_grid()[index]
            );
            assert_eq!(
                sample_vector(&sim, x + 0.5, y + 0.5, FieldType::Smoke),
                sim.get_smoke_grid()[index]
            );
        }
    }
}

#[test]
fn steps_are_reproducible() {
    let run = || {
        let mut sim = new_sim(7, 7, default_config());
        for _ in 0..4 {
            step_with_delta(&mut sim, 1.0 / 60.0);
        }
        sim
    };
    let first = run();
    let second = run();
    assert_eq!(first.get_horizontal_grid().len(), 49);
    assert!(first.get_horizontal_grid().iter().all(|u| u.is_finite()));
    assert_eq!(first.get_horizontal_grid(), second.get_horizontal_grid());
    assert_eq!(first.get_vertical_grid(), second.get_vertical_grid());
    assert_eq!(first.get_pressure_grid(), second.get_pressure_grid());
    assert_eq!(first.get_smoke_grid(), second.get_smoke_grid());
    // the flow has moved on from the inlet profile
    let fresh = new_sim(7, 7, default_config());
    assert_ne!(first.get_horizontal_grid(), fresh.get_horizontal_grid());
    // and the frozen cells have not
    for index in 0..49 {
        if fresh.get_block_grid()[index] {
            assert_eq!(first.get_horizontal_grid()[index], fresh.get_horizontal_grid()[index]);
            assert_eq!(first.get_vertical_grid()[index], fresh.get_vertical_grid()[index]);
            assert_eq!(first.get_smoke_grid()[index], fresh.get_smoke_grid()[index]);
        }
    }
}

#[test]
fn projection_lowers_the_divergence() {
    let mut sim = new_sim(7, 7, default_config());
    sim.set_block(4, 3);
    assert!(sim.begin_step());
    let candidate = after_gravity(&sim, 1.0 / 60.0);
    assert!(sim.add_gravity(&candidate));
    assert!(sim.clear_pressure());
    let before = total_divergence(&sim);
    assert!(before > 1.0);
    while let Action::Relax(stencil) = sim.next_action() {
        let values = relaxation(&sim, &stencil, 1.0 / 60.0);
        assert!(sim.relax(values));
    }
    let after = total_divergence(&sim);
    assert!(after < before, "divergence went from {before} to {after}");
}

#[test]
fn smoke_stays_between_clear_and_injected() {
    let mut sim = new_sim(8, 8, default_config());
    for _ in 0..5 {
        step_with_delta(&mut sim, 1.0 / 60.0);
    }
    assert!(sim.get_smoke_grid().iter().all(|s| (0.0..=1.0).contains(s)));
}

#[test]
fn four_steps_from_rest_give_the_known_flow() {
    let mut sim = new_sim(7, 7, default_config());
    for _ in 0..4 {
        step_with_delta(&mut sim, 1.0 / 60.0);
    }
    let known: [u32; 49] = [
        0, 0, 0, 0, 0, 0, 0, 1112014848, 1112014848, 1112014848, 1112014848, 1112014848,
        1112014848, 1112014848, 0, 1111802748, 1111759521, 1111708548, 1111532488, 1110776621, 0,
        0, 1109804332, 1110111868, 1110002380, 1109228446, 1107046698, 0, 0, 1104877699,
        1107206340, 1107400943, 1105391763, 1101132055, 0, 0, 1099057508, 1101836966, 1102513916,
        1100753176, 1095759436, 0, 0, 1092153355, 1097343035, 1098665964, 1096510209, 1091169084,
        0,
    ];
    let flat: Vec<f32> = known.iter().map(|&bits| f32::from_bits(bits)).collect();
    assert_eq!(sim.get_horizontal_grid(), &flat);
    // the inlet column still blows with the wind speed
    assert_eq!(&flat[7..14], &[50.0; 7]);
}

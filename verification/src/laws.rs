//! What holds of every simulation, stated over the model in
//! [`crate::state`] and proved from it.

use crate::grid::{
    cell_index, in_grid, lemma_first_column_in_range, lemma_index_in_range,
    lemma_interior_neighbours,
};
use crate::state::{
    band_start, in_band, Phase, Relaxed, Scale, SimConfig, SimState, PROJECTION_ITERATIONS,
};
use vstd::prelude::*;

verus! {

/// A band of `rows` rows centred in a column of `height` rows lies in the
/// column, and leaves as many rows free below it as above it, or one fewer.
pub proof fn lemma_band_is_centred(height: int, rows: int)
    requires
        0 <= rows <= height,
    ensures
        0 <= band_start(height, rows),
        band_start(height, rows) + rows <= height,
        ({
            let below = band_start(height, rows);
            let above = height - (band_start(height, rows) + rows);
            above == below || above == below + 1
        }),
{
}

/// What a cell of a simulation holds that was just made or resized.
proof fn lemma_fresh_cell<T>(
    width: int,
    height: int,
    config: SimConfig<T>,
    scale: Scale<T>,
    smoke_rows: int,
    x: int,
    y: int,
)
    requires
        in_grid(width, height, x, y),
    ensures
        ({
            let s = SimState::fresh(width, height, config, scale, smoke_rows);
            let i = cell_index(height, x, y);
            &&& 0 <= i < width * height
            &&& s.blocks[i] == (x == 0)
            &&& s.horizontal[i] == if x == 1 {
                config.wind_speed
            } else {
                scale.zero
            }
            &&& s.smoke[i] == if x == 0 && in_band(height, smoke_rows, y) {
                scale.zero
            } else {
                scale.one
            }
        }),
{
    lemma_index_in_range(width, height, x, y);
    let i = cell_index(height, x, y);
    assert((i < height) == (x == 0) && (height <= i < 2 * height) == (x == 1) && (x == 0 ==> i
        == y)) by (nonlinear_arith)
        requires
            i == x * height + y,
            0 <= x,
            0 <= y < height,
    ;
}

/// A simulation that was just made or resized is well formed, where the
/// machine can count its cells, and no step is under way; each of its five
/// fields has `width * height` cells; the first column of the obstacle
/// mask is a wall and no other cell is an obstacle; the horizontal velocity
/// is `wind_speed` in every row of the second column and at rest elsewhere;
/// vertical velocity and pressure are at rest; the smoke is injected in the
/// centred band of the first column and the air is clear everywhere else.
pub proof fn lemma_fresh_state<T>(
    width: int,
    height: int,
    config: SimConfig<T>,
    scale: Scale<T>,
    smoke_rows: int,
)
    requires
        0 < width,
        0 < height,
        0 <= smoke_rows <= height,
    ensures
        ({
            let s = SimState::fresh(width, height, config, scale, smoke_rows);
            &&& width * height <= usize::MAX ==> s.wf()
            &&& s.phase is Idle
            &&& s.width == width && s.height == height
            &&& s.horizontal.len() == width * height
            &&& s.vertical.len() == width * height
            &&& s.pressure.len() == width * height
            &&& s.smoke.len() == width * height
            &&& s.blocks.len() == width * height
            &&& forall|x: int, y: int|
                in_grid(width, height, x, y) ==> #[trigger] s.blocks[cell_index(height, x, y)] == (x
                    == 0)
            &&& forall|x: int, y: int|
                in_grid(width, height, x, y) ==> #[trigger] s.horizontal[cell_index(height, x, y)]
                    == if x == 1 {
                    config.wind_speed
                } else {
                    scale.zero
                }
            &&& forall|i: int| 0 <= i < width * height ==> s.vertical[i] == scale.zero
            &&& forall|i: int| 0 <= i < width * height ==> s.pressure[i] == scale.zero
            &&& forall|x: int, y: int|
                in_grid(width, height, x, y) ==> #[trigger] s.smoke[cell_index(height, x, y)]
                    == if x == 0 && in_band(height, smoke_rows, y) {
                    scale.zero
                } else {
                    scale.one
                }
        }),
{
    let s = SimState::fresh(width, height, config, scale, smoke_rows);
    lemma_first_column_in_range(width, height);
    assert forall|x: int, y: int| in_grid(width, height, x, y) implies #[trigger] s.blocks[cell_index(
        height,
        x,
        y,
    )] == (x == 0) by {
        lemma_fresh_cell(width, height, config, scale, smoke_rows, x, y);
    }
    assert forall|x: int, y: int|
        in_grid(width, height, x, y) implies #[trigger] s.horizontal[cell_index(height, x, y)]
        == if x == 1 {
        config.wind_speed
    } else {
        scale.zero
    } by {
        lemma_fresh_cell(width, height, config, scale, smoke_rows, x, y);
    }
    assert forall|x: int, y: int|
        in_grid(width, height, x, y) implies #[trigger] s.smoke[cell_index(height, x, y)] == if x
        == 0 && in_band(height, smoke_rows, y) {
        scale.zero
    } else {
        scale.one
    } by {
        lemma_fresh_cell(width, height, config, scale, smoke_rows, x, y);
    }
}

/// A sweep of the projection visits the cells that it relaxes in the order
/// of their positions and leaves none out: the cell that follows position
/// `from` is relaxed, lies at or after `from`, and no cell between the two
/// is relaxed; where none follows, no cell at or after `from` is relaxed.
pub proof fn lemma_next_relaxable<T>(state: SimState<T>, from: int)
    requires
        0 <= from,
    ensures
        match state.next_relaxable(from) {
            Some(cell) => from <= cell < state.len() && state.relaxable(cell) && forall|other: int|
                from <= other < cell ==> !state.relaxable(other),
            None => forall|other: int| from <= other ==> !state.relaxable(other),
        },
    decreases state.len() - from,
{
    if from < state.len() && !state.relaxable(from) {
        lemma_next_relaxable(state, from + 1);
    }
}

/// Which cells the projection relaxes, and in which order, depends on the
/// grid and its obstacle mask alone.
pub proof fn lemma_schedule_follows_the_mask<T>(a: SimState<T>, b: SimState<T>, from: int)
    requires
        a.width == b.width,
        a.height == b.height,
        a.blocks == b.blocks,
    ensures
        a.next_relaxable(from) == b.next_relaxable(from),
        a.relaxable_from(from) == b.relaxable_from(from),
    decreases a.len() - from,
{
    if 0 <= from < a.len() {
        lemma_schedule_follows_the_mask(a, b, from + 1);
    }
}

/// The cells before the next one that is relaxed do not count: from
/// position `from` on, as many cells are relaxed as from the next relaxed
/// cell on, which is at least that cell; and none where no cell follows.
pub proof fn lemma_relaxable_from<T>(state: SimState<T>, from: int)
    requires
        0 <= from,
    ensures
        0 <= state.relaxable_from(from),
        match state.next_relaxable(from) {
            Some(cell) => state.relaxable_from(from) == 1 + state.relaxable_from(cell + 1),
            None => state.relaxable_from(from) == 0,
        },
    decreases state.len() - from,
{
    if from < state.len() {
        lemma_relaxable_from(state, from + 1);
    }
}

/// A step takes a fixed number of actions: gravity once, the clearing of
/// the pressure once, one relaxation of each cell that the projection
/// relaxes in each of its sweeps, and advection once. Every action that is
/// done when it is due lowers the number of actions that are left by exactly
/// one, and none is left exactly when no step is under way.
pub proof fn lemma_step_counts_down<T>(
    state: SimState<T>,
    values: Relaxed<T>,
    horizontal: Seq<T>,
    vertical: Seq<T>,
    smoke: Seq<T>,
)
    requires
        state.wf(),
        horizontal.len() == state.len(),
        vertical.len() == state.len(),
        smoke.len() == state.len(),
    ensures
        0 <= state.actions_left(),
        state.actions_left() == 0 <==> state.phase is Idle,
        state.phase is Idle ==> state.begun().actions_left() == 3 + PROJECTION_ITERATIONS
            * state.relaxable_from(0),
        state.phase is Gravity ==> state.accelerated(vertical).actions_left()
            == state.actions_left() - 1,
        state.phase is Pressure ==> state.pressure_cleared().actions_left() == state.actions_left()
            - 1,
        state.phase is Projection ==> state.relaxed(values).actions_left() == state.actions_left()
            - 1,
        state.phase is Advection ==> state.advected(horizontal, vertical, smoke).actions_left()
            == state.actions_left() - 1,
{
    let n = state.relaxable_from(0);
    lemma_relaxable_from(state, 0);
    lemma_next_relaxable(state, 0);
    lemma_schedule_follows_the_mask(state.begun(), state, 0);
    assert(0 <= PROJECTION_ITERATIONS * n) by (nonlinear_arith)
        requires
            0 <= n,
    ;
    match state.phase {
        Phase::Gravity => {
            lemma_schedule_follows_the_mask(state.accelerated(vertical), state, 0);
        },
        Phase::Pressure => {
            let after = state.pressure_cleared();
            lemma_schedule_follows_the_mask(after, state, 0);
            match state.next_relaxable(0) {
                Some(first) => {
                    lemma_schedule_follows_the_mask(after, state, first);
                    lemma_relaxable_from(state, first);
                    assert(state.relaxable_from(first) == n);
                    assert((PROJECTION_ITERATIONS - 1) * n + n == PROJECTION_ITERATIONS * n)
                        by (nonlinear_arith);
                },
                None => {},
            }
        },
        Phase::Projection { sweep, cell } => {
            let after = state.relaxed(values);
            lemma_interior_neighbours(state.width, state.height, cell as int);
            lemma_schedule_follows_the_mask(after, state, 0);
            lemma_relaxable_from(state, cell as int);
            lemma_relaxable_from(state, cell + 1);
            lemma_next_relaxable(state, cell + 1);
            assert(0 <= (PROJECTION_ITERATIONS - 1 - sweep) * n) by (nonlinear_arith)
                requires
                    0 <= n,
                    0 <= PROJECTION_ITERATIONS - 1 - sweep,
            ;
            assert(state.next_relaxable(cell as int) == Some(cell as int));
            match state.next_relaxable(cell + 1) {
                Some(next) => {
                    lemma_schedule_follows_the_mask(after, state, next);
                    lemma_relaxable_from(state, next);
                },
                None => {
                    let first = state.next_relaxable(0).unwrap();
                    lemma_schedule_follows_the_mask(after, state, first);
                    lemma_relaxable_from(state, first);
                    assert(state.relaxable_from(first) == n);
                    assert((PROJECTION_ITERATIONS - 1 - (sweep + 1)) * n + n == (
                    PROJECTION_ITERATIONS - 1 - sweep) * n) by (nonlinear_arith);
                    if sweep + 1 >= PROJECTION_ITERATIONS {
                        assert((PROJECTION_ITERATIONS - 1 - sweep) * n == 0) by (nonlinear_arith)
                            requires
                                PROJECTION_ITERATIONS - 1 - sweep == 0,
                        ;
                    }
                },
            }
        },
        _ => {},
    }
}

/// Storing a relaxation never writes into an obstacle: whatever cell is
/// relaxed and whatever values are handed in, each sample of an obstacle
/// cell is afterwards what it was, and so is the obstacle mask.
pub proof fn lemma_relaxation_spares_obstacles<T>(
    state: SimState<T>,
    values: Relaxed<T>,
    obstacle: int,
)
    requires
        state.wf(),
        state.blocked(obstacle),
    ensures
        state.relaxed(values).blocks == state.blocks,
        state.relaxed(values).smoke == state.smoke,
        state.relaxed(values).horizontal[obstacle] == state.horizontal[obstacle],
        state.relaxed(values).vertical[obstacle] == state.vertical[obstacle],
        state.relaxed(values).pressure[obstacle] == state.pressure[obstacle],
{
    if let Phase::Projection { cell, .. } = state.phase {
        lemma_interior_neighbours(state.width, state.height, cell as int);
    }
}

/// Storing a relaxation writes the pressure of the relaxed cell and nothing
/// else of the pressure field, and it leaves the velocity of every cell
/// unchanged but the four face samples of the relaxed cell.
pub proof fn lemma_relaxation_is_local<T>(state: SimState<T>, values: Relaxed<T>, other: int)
    requires
        state.wf(),
        0 <= other < state.len(),
    ensures
        state.phase matches Phase::Projection { cell, .. } ==> {
            &&& other != cell ==> state.relaxed(values).pressure[other] == state.pressure[other]
            &&& other != cell && other != cell + state.height ==> state.relaxed(
                values,
            ).horizontal[other] == state.horizontal[other]
            &&& other != cell && other != cell + 1 ==> state.relaxed(values).vertical[other]
                == state.vertical[other]
        },
        !(state.phase is Projection) ==> state.relaxed(values) == state,
{
    if let Phase::Projection { cell, .. } = state.phase {
        lemma_interior_neighbours(state.width, state.height, cell as int);
    }
}

/// Gravity and advection leave frozen what a step does not update: a cell
/// on the border and an obstacle keep velocity and smoke through both.
/// Gravity changes nothing but the vertical velocity, and neither touches
/// the pressure or the obstacle mask.
pub proof fn lemma_frozen_cells_keep_their_samples<T>(
    state: SimState<T>,
    horizontal: Seq<T>,
    vertical: Seq<T>,
    smoke: Seq<T>,
    cell: int,
)
    requires
        state.wf(),
        0 <= cell < state.len(),
        !state.active(cell),
    ensures
        state.accelerated(vertical).vertical[cell] == state.vertical[cell],
        state.accelerated(vertical).horizontal == state.horizontal,
        state.accelerated(vertical).pressure == state.pressure,
        state.accelerated(vertical).smoke == state.smoke,
        state.accelerated(vertical).blocks == state.blocks,
        state.accelerated(vertical).config == state.config,
        state.accelerated(vertical).width == state.width,
        state.accelerated(vertical).height == state.height,
        state.advected(horizontal, vertical, smoke).horizontal[cell] == state.horizontal[cell],
        state.advected(horizontal, vertical, smoke).vertical[cell] == state.vertical[cell],
        state.advected(horizontal, vertical, smoke).smoke[cell] == state.smoke[cell],
        state.advected(horizontal, vertical, smoke).pressure == state.pressure,
        state.advected(horizontal, vertical, smoke).blocks == state.blocks,
{
}

/// Making a cell an obstacle and freeing it at once leaves the simulation
/// exactly as it was, the obstacle mask and every other field, for every
/// cell that was free and for every cell of the inlet wall. (A cell off the
/// wall that was an obstacle already is free afterwards.)
pub proof fn lemma_set_then_unset_block<T>(state: SimState<T>, x: int, y: int)
    requires
        state.wf(),
        in_grid(state.width, state.height, x, y),
        x == 0 || !state.blocked(cell_index(state.height, x, y)),
    ensures
        state.with_block(x, y).without_block(x, y) == state,
{
    lemma_index_in_range(state.width, state.height, x, y);
    let index = cell_index(state.height, x, y);
    if x == 0 {
        assert(index == y);
        assert(state.blocks[y]);
        assert(state.blocks.update(index, true) =~= state.blocks);
    } else {
        assert(state.blocks.update(index, true).update(index, false) =~= state.blocks);
    }
}

/// Every operation keeps a simulation well formed: its five fields keep
/// their common length, the inlet wall stands, and a projection under way
/// has a cell before it that it relaxes.
pub proof fn lemma_operations_keep_well_formed<T>(
    state: SimState<T>,
    x: int,
    y: int,
    values: Relaxed<T>,
    config: SimConfig<T>,
    smoke_rows: int,
    horizontal: Seq<T>,
    vertical: Seq<T>,
    smoke: Seq<T>,
)
    requires
        state.wf(),
    ensures
        state.phase is Idle && in_grid(state.width, state.height, x, y) ==> state.with_block(
            x,
            y,
        ).wf(),
        state.phase is Idle && in_grid(state.width, state.height, x, y) ==> state.without_block(
            x,
            y,
        ).wf(),
        0 <= smoke_rows <= state.height ==> state.reconfigured(config, smoke_rows).wf(),
        state.begun().wf(),
        state.accelerated(vertical).wf(),
        state.pressure_cleared().wf(),
        state.relaxed(values).wf(),
        state.advected(horizontal, vertical, smoke).wf(),
{
    lemma_first_column_in_range(state.width, state.height);
    if in_grid(state.width, state.height, x, y) {
        lemma_index_in_range(state.width, state.height, x, y);
        if x != 0 {
            assert(x * state.height >= state.height) by (nonlinear_arith)
                requires
                    x >= 1,
                    state.height > 0,
            ;
        }
    }
    lemma_next_relaxable(state, 0);
    if let Phase::Projection { cell, .. } = state.phase {
        lemma_interior_neighbours(state.width, state.height, cell as int);
        lemma_next_relaxable(state, cell + 1);
        let after = state.with_relaxation(cell as int, values);
        assert(forall|c: int| after.relaxable(c) == state.relaxable(c));
    }
    let reconfigured = state.reconfigured(config, smoke_rows);
    assert(forall|c: int| reconfigured.relaxable(c) == state.relaxable(c));
}

} // verus!

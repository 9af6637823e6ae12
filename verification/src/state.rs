//! The mathematical model of a simulation: what its fields hold, and what
//! each operation on it makes of them.

use crate::grid::{cell_index, on_border};
use vstd::prelude::*;

verus! {

/// Physical parameters of a simulation. `wind_speed` and `smoke_size` shape
/// the inlet profile; `gravity` and `density` enter each step.
#[derive(Debug)]
pub struct SimConfig<T> {
    /// Acceleration added to the vertical velocity, per unit of time.
    pub gravity: T,
    /// Horizontal speed injected one column right of the inlet wall.
    pub wind_speed: T,
    /// Share of the grid's height that the smoke band takes.
    pub smoke_size: T,
    /// Density of the fluid.
    pub density: T,
}

/// The two ends of the scale of a sample: `zero` is a field at rest and the
/// density of injected smoke, `one` is the density of clear air.
#[derive(Debug)]
pub struct Scale<T> {
    pub zero: T,
    pub one: T,
}

impl<T: Copy> Clone for SimConfig<T> {
    fn clone(&self) -> (copy: Self)
        ensures
            copy == *self,
    {
        *self
    }
}

impl<T: Copy> Copy for SimConfig<T> {

}

impl<T: Copy> Clone for Scale<T> {
    fn clone(&self) -> (copy: Self)
        ensures
            copy == *self,
    {
        *self
    }
}

impl<T: Copy> Copy for Scale<T> {

}

/// The height of a smoke band for which `rows` rows are asked on a grid of
/// `height` rows: no more than the grid has.
pub open spec fn band_rows(height: int, rows: int) -> int {
    if rows <= height {
        rows
    } else {
        height
    }
}

/// First row of a band of `rows` rows centred in a column of `height` rows.
pub open spec fn band_start(height: int, rows: int) -> int {
    (height - rows) / 2
}

/// Whether row `row` lies in the band of `rows` rows centred in a column of
/// `height` rows.
pub open spec fn in_band(height: int, rows: int, row: int) -> bool {
    band_start(height, rows) <= row < band_start(height, rows) + rows
}

/// A horizontal velocity field with the inlet written into it: the column
/// right of the inlet wall holds `wind_speed`, every other cell is kept.
pub open spec fn with_inlet<T>(field: Seq<T>, height: int, wind_speed: T) -> Seq<T> {
    Seq::new(
        field.len(),
        |i: int|
            if height <= i < 2 * height {
                wind_speed
            } else {
                field[i]
            },
    )
}

/// A smoke field with the source written into it: in the first column the
/// centred band of `rows` rows holds `scale.zero` and the other rows hold
/// `scale.one`; every other column is kept.
pub open spec fn with_smoke_source<T>(field: Seq<T>, height: int, rows: int, scale: Scale<T>) -> Seq<
    T,
> {
    Seq::new(
        field.len(),
        |i: int|
            if i < height {
                if in_band(height, rows, i) {
                    scale.zero
                } else {
                    scale.one
                }
            } else {
                field[i]
            },
    )
}

/// A field of `len` cells that all hold `value`.
pub open spec fn uniform<T>(len: int, value: T) -> Seq<T> {
    Seq::new(len as nat, |i: int| value)
}

/// The obstacle mask of a new grid: the first column is a wall, every other
/// cell is free.
pub open spec fn inlet_wall(len: int, height: int) -> Seq<bool> {
    Seq::new(len as nat, |i: int| i < height)
}

/// A field in which the cells that `chosen` names are taken from `fresh`
/// and all others from `kept`.
pub open spec fn merged<T>(kept: Seq<T>, fresh: Seq<T>, chosen: spec_fn(int) -> bool) -> Seq<T> {
    Seq::new(
        kept.len(),
        |i: int|
            if chosen(i) {
                fresh[i]
            } else {
                kept[i]
            },
    )
}

/// The cells around one cell that a relaxation reads and writes, and which
/// of its four face neighbours are open to the fluid.
#[derive(Clone, Copy, Debug, PartialEq, Eq)]
pub struct Stencil {
    /// Position of the cell itself.
    pub cell: usize,
    /// Position of the neighbour above.
    pub top: usize,
    /// Position of the neighbour to the right.
    pub right: usize,
    /// Position of the neighbour below.
    pub bottom: usize,
    /// Position of the neighbour to the left.
    pub left: usize,
    /// Whether the neighbour above is no obstacle.
    pub top_open: bool,
    /// Whether the neighbour to the right is no obstacle.
    pub right_open: bool,
    /// Whether the neighbour below is no obstacle.
    pub bottom_open: bool,
    /// Whether the neighbour to the left is no obstacle.
    pub left_open: bool,
}

/// One for an open neighbour, nothing for an obstacle.
pub open spec fn openness(open: bool) -> int {
    if open {
        1
    } else {
        0
    }
}

impl Stencil {
    /// Number of open neighbours.
    pub open spec fn open_count(self) -> int {
        openness(self.top_open) + openness(self.right_open) + openness(self.bottom_open)
            + openness(self.left_open)
    }

    /// Number of open neighbours: the count by which the divergence of the
    /// cell is shared out.
    pub fn number_of_fluids(&self) -> (count: u8)
        ensures
            count == self.open_count(),
    {
        let mut count: u8 = 0;
        if self.top_open {
            count = count + 1;
        }
        if self.right_open {
            count = count + 1;
        }
        if self.bottom_open {
            count = count + 1;
        }
        if self.left_open {
            count = count + 1;
        }
        count
    }
}

/// The samples that one relaxation of a cell hands back: the velocities on
/// the four faces of the cell and the pressure accumulated in it.
#[derive(Debug)]
pub struct Relaxed<T> {
    /// Horizontal velocity on the left face, stored with the cell.
    pub left_face: T,
    /// Horizontal velocity on the right face, stored with the right neighbour.
    pub right_face: T,
    /// Vertical velocity on the bottom face, stored with the cell.
    pub bottom_face: T,
    /// Vertical velocity on the top face, stored with the neighbour above.
    pub top_face: T,
    /// Pressure of the cell.
    pub pressure: T,
}

impl<T: Copy> Clone for Relaxed<T> {
    fn clone(&self) -> (copy: Self)
        ensures
            copy == *self,
    {
        *self
    }
}

impl<T: Copy> Copy for Relaxed<T> {

}

/// Number of sweeps over the grid that the projection makes in one step.
pub const PROJECTION_ITERATIONS: usize = 50;

/// How far a step has come. A step applies gravity, then sets the pressure
/// to rest and removes the divergence of the velocity in
/// `PROJECTION_ITERATIONS` sweeps over the grid, then transports velocity
/// and smoke.
#[derive(Clone, Copy, Debug, PartialEq, Eq)]
pub enum Phase {
    /// No step is under way.
    Idle,
    /// A step has begun; gravity is due.
    Gravity,
    /// Gravity is done; the projection is due to begin, by setting the
    /// pressure to rest.
    Pressure,
    /// The projection is under way: in sweep number `sweep`, counted from
    /// zero, the cell at position `cell` is the next to be relaxed.
    Projection { sweep: usize, cell: usize },
    /// The projection is done; advection is due.
    Advection,
}

/// What the caller of a simulation has to do next.
#[derive(Clone, Copy, Debug, PartialEq, Eq)]
pub enum Action {
    /// Nothing: no step is under way.
    Done,
    /// Compute the vertical velocity after gravity.
    Gravity,
    /// Have the pressure set to rest: the projection begins.
    ClearPressure,
    /// Compute the relaxation of the cell with this stencil.
    Relax(Stencil),
    /// Compute velocity and smoke after advection.
    Advect,
}

/// What a simulation holds.
pub struct SimState<T> {
    /// Number of columns.
    pub width: int,
    /// Number of rows.
    pub height: int,
    /// Horizontal velocity, sampled on the left face of each cell.
    pub horizontal: Seq<T>,
    /// Vertical velocity, sampled on the bottom face of each cell.
    pub vertical: Seq<T>,
    /// Pressure, sampled at the centre of each cell.
    pub pressure: Seq<T>,
    /// Smoke density, sampled at the centre of each cell.
    pub smoke: Seq<T>,
    /// Obstacle mask.
    pub blocks: Seq<bool>,
    /// Current physical parameters.
    pub config: SimConfig<T>,
    /// The ends of the sample scale.
    pub scale: Scale<T>,
    /// Number of rows of the smoke band.
    pub smoke_rows: int,
    /// How far the current step has come.
    pub phase: Phase,
}

impl<T> SimState<T> {
    /// Number of cells.
    pub open spec fn len(self) -> int {
        self.width * self.height
    }

    /// The grid has at least one cell and no more than the machine can
    /// count, all five fields cover it, the first column is a wall, the
    /// smoke band fits into a column, and a projection under way has a sweep
    /// and a cell that it relaxes before it.
    pub open spec fn wf(self) -> bool {
        &&& 0 < self.width
        &&& 0 < self.height
        &&& self.len() <= usize::MAX
        &&& self.horizontal.len() == self.len()
        &&& self.vertical.len() == self.len()
        &&& self.pressure.len() == self.len()
        &&& self.smoke.len() == self.len()
        &&& self.blocks.len() == self.len()
        &&& forall|row: int| 0 <= row < self.height ==> self.blocks[row]
        &&& 0 <= self.smoke_rows <= self.height
        &&& self.phase matches Phase::Projection { sweep, cell } ==> sweep < PROJECTION_ITERATIONS
            && self.relaxable(cell as int)
    }

    /// Whether the cell at `index` is an obstacle.
    pub open spec fn blocked(self, index: int) -> bool {
        0 <= index < self.blocks.len() && self.blocks[index]
    }

    /// Whether a step updates the cell at `index`: it lies in the grid, off
    /// the border, and is no obstacle.
    pub open spec fn active(self, index: int) -> bool {
        &&& 0 <= index < self.len()
        &&& !on_border(self.width, self.height, index)
        &&& !self.blocks[index]
    }

    /// Whether gravity accelerates the cell at `index`: the cell is updated
    /// and so is the cell below it.
    pub open spec fn gravity_applies(self, index: int) -> bool {
        self.active(index) && self.active(index - 1)
    }

    /// The state of a new simulation: fluid at rest but for the inlet, clear
    /// air but for the smoke band, no obstacle but the inlet wall.
    pub open spec fn fresh(
        width: int,
        height: int,
        config: SimConfig<T>,
        scale: Scale<T>,
        smoke_rows: int,
    ) -> SimState<T> {
        let len = width * height;
        SimState {
            width,
            height,
            horizontal: with_inlet(uniform(len, scale.zero), height, config.wind_speed),
            vertical: uniform(len, scale.zero),
            pressure: uniform(len, scale.zero),
            smoke: with_smoke_source(uniform(len, scale.one), height, smoke_rows, scale),
            blocks: inlet_wall(len, height),
            config,
            scale,
            smoke_rows,
            phase: Phase::Idle,
        }
    }

    /// The state after new parameters were taken: the inlet column and the
    /// smoke source are rewritten, all else is kept.
    pub open spec fn reconfigured(self, config: SimConfig<T>, smoke_rows: int) -> SimState<T> {
        SimState {
            horizontal: with_inlet(self.horizontal, self.height, config.wind_speed),
            smoke: with_smoke_source(self.smoke, self.height, smoke_rows, self.scale),
            config,
            smoke_rows,
            ..self
        }
    }

    /// The state with cell `(x, y)` made an obstacle.
    pub open spec fn with_block(self, x: int, y: int) -> SimState<T> {
        SimState { blocks: self.blocks.update(cell_index(self.height, x, y), true), ..self }
    }

    /// The state with cell `(x, y)` freed of its obstacle. The inlet wall
    /// stays: in the first column nothing changes.
    pub open spec fn without_block(self, x: int, y: int) -> SimState<T> {
        if x == 0 {
            self
        } else {
            SimState { blocks: self.blocks.update(cell_index(self.height, x, y), false), ..self }
        }
    }

    /// Whether the neighbour above the cell at `cell` is open to the fluid.
    pub open spec fn top_open(self, cell: int) -> bool {
        !self.blocks[cell + 1]
    }

    /// Whether the neighbour right of the cell at `cell` is open.
    pub open spec fn right_open(self, cell: int) -> bool {
        !self.blocks[cell + self.height]
    }

    /// Whether the neighbour below the cell at `cell` is open.
    pub open spec fn bottom_open(self, cell: int) -> bool {
        !self.blocks[cell - 1]
    }

    /// Whether the neighbour left of the cell at `cell` is open.
    pub open spec fn left_open(self, cell: int) -> bool {
        !self.blocks[cell - self.height]
    }

    /// The stencil of the cell at `cell`: its four face neighbours and
    /// whether each is open.
    pub open spec fn stencil(self, cell: int) -> Stencil {
        Stencil {
            cell: cell as usize,
            top: (cell + 1) as usize,
            right: (cell + self.height) as usize,
            bottom: (cell - 1) as usize,
            left: (cell - self.height) as usize,
            top_open: self.top_open(cell),
            right_open: self.right_open(cell),
            bottom_open: self.bottom_open(cell),
            left_open: self.left_open(cell),
        }
    }

    /// Whether the projection relaxes the cell at `cell`: the cell is
    /// updated and at least one of its neighbours is open.
    pub open spec fn relaxable(self, cell: int) -> bool {
        self.active(cell) && (self.top_open(cell) || self.right_open(cell) || self.bottom_open(
            cell,
        ) || self.left_open(cell))
    }

    /// The first cell at or after position `from` that the projection
    /// relaxes, if there is one.
    pub open spec fn next_relaxable(self, from: int) -> Option<int>
        decreases self.len() - from,
    {
        if from < 0 || from >= self.len() {
            None
        } else if self.relaxable(from) {
            Some(from)
        } else {
            self.next_relaxable(from + 1)
        }
    }

    /// The phase of a step in which the cells before position `from` of
    /// sweep `sweep` are done: the next cell of the sweep is due; after the
    /// last, the first cell of the next sweep; and after the last sweep, or
    /// on a grid without a cell to relax, advection.
    pub open spec fn projection_phase(self, sweep: int, from: int) -> Phase {
        match self.next_relaxable(from) {
            Some(cell) => Phase::Projection { sweep: sweep as usize, cell: cell as usize },
            None => match self.next_relaxable(0) {
                Some(cell) => if sweep + 1 < PROJECTION_ITERATIONS {
                    Phase::Projection { sweep: (sweep + 1) as usize, cell: cell as usize }
                } else {
                    Phase::Advection
                },
                None => Phase::Advection,
            },
        }
    }

    /// Number of cells at or after position `from` that the projection
    /// relaxes.
    pub open spec fn relaxable_from(self, from: int) -> int
        decreases self.len() - from,
    {
        if from < 0 || from >= self.len() {
            0
        } else {
            openness(self.relaxable(from)) + self.relaxable_from(from + 1)
        }
    }

    /// Number of actions that the step under way still asks for: gravity,
    /// the clearing of the pressure, one relaxation for each cell that the
    /// projection relaxes in each sweep that is left, and advection.
    pub open spec fn actions_left(self) -> int {
        match self.phase {
            Phase::Idle => 0,
            Phase::Gravity => 3 + PROJECTION_ITERATIONS * self.relaxable_from(0),
            Phase::Pressure => 2 + PROJECTION_ITERATIONS * self.relaxable_from(0),
            Phase::Projection { sweep, cell } => 1 + (PROJECTION_ITERATIONS - 1 - sweep)
                * self.relaxable_from(0) + self.relaxable_from(cell as int),
            Phase::Advection => 1,
        }
    }

    /// What the caller has to do next.
    pub open spec fn action(self) -> Action {
        match self.phase {
            Phase::Idle => Action::Done,
            Phase::Gravity => Action::Gravity,
            Phase::Pressure => Action::ClearPressure,
            Phase::Projection { cell, .. } => Action::Relax(self.stencil(cell as int)),
            Phase::Advection => Action::Advect,
        }
    }

    /// The state after a step was begun. A step that is under way goes on.
    pub open spec fn begun(self) -> SimState<T> {
        if self.phase is Idle {
            SimState { phase: Phase::Gravity, ..self }
        } else {
            self
        }
    }

    /// The fields after the relaxation of the cell at `cell` was stored: a
    /// face velocity is taken only where the neighbour across that face is
    /// open, the pressure of the cell always.
    pub open spec fn with_relaxation(self, cell: int, values: Relaxed<T>) -> SimState<T> {
        let h1 = if self.left_open(cell) {
            self.horizontal.update(cell, values.left_face)
        } else {
            self.horizontal
        };
        let h2 = if self.right_open(cell) {
            h1.update(cell + self.height, values.right_face)
        } else {
            h1
        };
        let v1 = if self.bottom_open(cell) {
            self.vertical.update(cell, values.bottom_face)
        } else {
            self.vertical
        };
        let v2 = if self.top_open(cell) {
            v1.update(cell + 1, values.top_face)
        } else {
            v1
        };
        SimState {
            horizontal: h2,
            vertical: v2,
            pressure: self.pressure.update(cell, values.pressure),
            ..self
        }
    }

    /// The state after gravity, when gravity is due and `vertical` covers
    /// the grid: the vertical velocity is taken from `vertical` in the cells
    /// that gravity accelerates and kept elsewhere, every other field is
    /// kept, and the projection is due to begin. Otherwise the state as it
    /// is.
    pub open spec fn accelerated(self, vertical: Seq<T>) -> SimState<T> {
        if self.phase is Gravity && vertical.len() == self.len() {
            SimState {
                vertical: merged(self.vertical, vertical, |i: int| self.gravity_applies(i)),
                phase: Phase::Pressure,
                ..self
            }
        } else {
            self
        }
    }

    /// The state after the projection began, when it is due to begin: every
    /// pressure sample is at rest, every other field is kept, and the first
    /// cell of the first sweep is due. Otherwise the state as it is.
    pub open spec fn pressure_cleared(self) -> SimState<T> {
        if self.phase is Pressure {
            SimState {
                pressure: uniform(self.len(), self.scale.zero),
                phase: self.projection_phase(0, 0),
                ..self
            }
        } else {
            self
        }
    }

    /// The state after a relaxation, when the projection is under way: the
    /// values are stored for the cell that is due, and the projection moves
    /// on. Otherwise the state as it is.
    pub open spec fn relaxed(self, values: Relaxed<T>) -> SimState<T> {
        match self.phase {
            Phase::Projection { sweep, cell } => SimState {
                phase: self.projection_phase(sweep as int, cell + 1),
                ..self.with_relaxation(cell as int, values)
            },
            _ => self,
        }
    }

    /// The state after advection, when advection is due and the new fields
    /// cover the grid: velocity and smoke are taken from them in the cells
    /// that a step updates and kept elsewhere, and the step is over.
    /// Otherwise the state as it is.
    pub open spec fn advected(self, horizontal: Seq<T>, vertical: Seq<T>, smoke: Seq<T>) -> SimState<
        T,
    > {
        if self.phase is Advection && horizontal.len() == self.len() && vertical.len()
            == self.len() && smoke.len() == self.len() {
            SimState {
                horizontal: merged(self.horizontal, horizontal, |i: int| self.active(i)),
                vertical: merged(self.vertical, vertical, |i: int| self.active(i)),
                smoke: merged(self.smoke, smoke, |i: int| self.active(i)),
                phase: Phase::Idle,
                ..self
            }
        } else {
            self
        }
    }
}

} // verus!

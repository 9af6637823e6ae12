//! The simulation: five fields over one grid, and the operations that keep
//! them consistent.

use crate::laws::lemma_next_relaxable;
use crate::grid::{
    cell_index, cell_x, cell_y, in_grid, lemma_index_in_range, lemma_index_of_position,
    lemma_first_column_in_range, lemma_interior_neighbours, on_border,
};
use crate::state::{
    band_rows, band_start, in_band, inlet_wall, uniform, with_inlet, with_smoke_source, Action, Phase,
    Relaxed, Scale, SimConfig, SimState, Stencil, PROJECTION_ITERATIONS,
};
use vstd::arithmetic::div_mod::lemma_fundamental_div_mod;
use vstd::arithmetic::mul::lemma_mul_is_commutative;
use vstd::prelude::*;

verus! {

/// A fluid simulation on a grid of `width` by `height` cells.
///
/// All fields are stored column by column: the cell in column `x` and row
/// `y` lies at position `x * height + y`.
pub struct FluidSim<T> {
    horizontal_speeds: Vec<T>,
    vertical_values: Vec<T>,
    pressure_grid: Vec<T>,
    smoke_grid: Vec<T>,
    block_grid: Vec<bool>,
    width: usize,
    height: usize,
    config: SimConfig<T>,
    scale: Scale<T>,
    smoke_rows: usize,
    phase: Phase,
}

impl<T> View for FluidSim<T> {
    type V = SimState<T>;

    closed spec fn view(&self) -> SimState<T> {
        SimState {
            width: self.width as int,
            height: self.height as int,
            horizontal: self.horizontal_speeds@,
            vertical: self.vertical_values@,
            pressure: self.pressure_grid@,
            smoke: self.smoke_grid@,
            blocks: self.block_grid@,
            config: self.config,
            scale: self.scale,
            smoke_rows: self.smoke_rows as int,
            phase: self.phase,
        }
    }
}

/// A field of `len` cells that all hold `value`.
fn filled<T: Copy>(len: usize, value: T) -> (field: Vec<T>)
    ensures
        field@ == uniform(len as int, value),
{
    let mut field: Vec<T> = Vec::with_capacity(len);
    let mut i: usize = 0;
    while i < len
        invariant
            i <= len,
            field@.len() == i,
            forall|k: int| 0 <= k < i ==> field@[k] == value,
        decreases len - i,
    {
        field.push(value);
        i = i + 1;
    }
    field
}

/// Writes the inlet into a horizontal velocity field: the column right of
/// the inlet wall is set to `wind_speed`.
fn set_horizontal_speed<T: Copy>(horizontal_speeds: &mut Vec<T>, height: usize, wind_speed: T)
    ensures
        final(horizontal_speeds)@ == with_inlet(old(horizontal_speeds)@, height as int, wind_speed),
{
    let len = horizontal_speeds.len();
    let mut i: usize = height;
    while i < len && i - height < height
        invariant
            height <= i,
            i - height <= height,
            len == old(horizontal_speeds)@.len(),
            horizontal_speeds@.len() == len,
            forall|k: int|
                0 <= k < len ==> horizontal_speeds@[k] == if height <= k < i {
                    wind_speed
                } else {
                    old(horizontal_speeds)@[k]
                },
        decreases len - i,
    {
        horizontal_speeds.set(i, wind_speed);
        i = i + 1;
    }
}

/// A horizontal velocity field at rest but for the inlet.
fn create_horizontal_speed<T: Copy>(len: usize, height: usize, wind_speed: T, zero: T) -> (field:
    Vec<T>)
    ensures
        field@ == with_inlet(uniform(len as int, zero), height as int, wind_speed),
{
    let mut values = filled(len, zero);
    set_horizontal_speed(&mut values, height, wind_speed);
    values
}

/// Writes the smoke source into a smoke field: the first column is cleared,
/// then its centred band of `rows` rows is filled with smoke.
fn set_smoke_pipe<T: Copy>(smoke_grid: &mut Vec<T>, height: usize, rows: usize, scale: Scale<T>)
    requires
        rows <= height,
    ensures
        final(smoke_grid)@ == with_smoke_source(
            old(smoke_grid)@,
            height as int,
            rows as int,
            scale,
        ),
{
    let len = smoke_grid.len();
    let min_index = (height - rows) / 2;
    let max_index = min_index + rows;
    let mut i: usize = 0;
    while i < len && i < height
        invariant
            i <= height,
            rows <= height,
            min_index == band_start(height as int, rows as int),
            max_index == min_index + rows,
            len == old(smoke_grid)@.len(),
            smoke_grid@.len() == len,
            forall|k: int|
                0 <= k < len ==> smoke_grid@[k] == if k < i {
                    if in_band(height as int, rows as int, k) {
                        scale.zero
                    } else {
                        scale.one
                    }
                } else {
                    old(smoke_grid)@[k]
                },
        decreases len - i,
    {
        if min_index <= i && i < max_index {
            smoke_grid.set(i, scale.zero);
        } else {
            smoke_grid.set(i, scale.one);
        }
        i = i + 1;
    }
}

/// A smoke field of clear air but for the smoke source.
fn create_smoke_pipe<T: Copy>(len: usize, height: usize, rows: usize, scale: Scale<T>) -> (field:
    Vec<T>)
    requires
        rows <= height,
    ensures
        field@ == with_smoke_source(
            uniform(len as int, scale.one),
            height as int,
            rows as int,
            scale,
        ),
{
    let mut values = filled(len, scale.one);
    set_smoke_pipe(&mut values, height, rows, scale);
    values
}

/// The obstacle mask of a new grid: only the inlet wall.
fn make_block_grid(len: usize, height: usize) -> (grid: Vec<bool>)
    ensures
        grid@ == inlet_wall(len as int, height as int),
{
    let mut grid: Vec<bool> = Vec::with_capacity(len);
    let mut i: usize = 0;
    while i < len
        invariant
            i <= len,
            grid@.len() == i,
            forall|k: int| 0 <= k < i ==> grid@[k] == (k < height),
        decreases len - i,
    {
        grid.push(i < height);
        i = i + 1;
    }
    grid
}

impl<T: Copy> FluidSim<T> {
    /// The invariant of a simulation: see [`SimState::wf`].
    pub open spec fn wf(&self) -> bool {
        self@.wf()
    }

    /// A new simulation of `width` by `height` cells.
    ///
    /// The fluid is at rest but for the inlet, which blows with
    /// `config.wind_speed` one column right of the wall; the air is clear but
    /// for the smoke band of `smoke_rows` rows (at most `height`) centred in
    /// the first column; the first column is the only obstacle.
    pub fn new(
        width: usize,
        height: usize,
        config: SimConfig<T>,
        scale: Scale<T>,
        smoke_rows: usize,
    ) -> (sim: Self)
        requires
            0 < width,
            0 < height,
            width * height <= usize::MAX,
        ensures
            sim.wf(),
            sim@ == SimState::fresh(
                width as int,
                height as int,
                config,
                scale,
                band_rows(height as int, smoke_rows as int),
            ),
    {
        proof {
            lemma_first_column_in_range(width as int, height as int);
        }
        let len = width * height;
        let rows = if smoke_rows <= height {
            smoke_rows
        } else {
            height
        };
        FluidSim {
            horizontal_speeds: create_horizontal_speed(len, height, config.wind_speed, scale.zero),
            vertical_values: filled(len, scale.zero),
            pressure_grid: filled(len, scale.zero),
            smoke_grid: create_smoke_pipe(len, height, rows, scale),
            block_grid: make_block_grid(len, height),
            width,
            height,
            config,
            scale,
            smoke_rows: rows,
            phase: Phase::Idle,
        }
    }

    /// Gives the simulation a new size and starts it afresh with the
    /// current parameters: the flow and every sculpted obstacle are lost,
    /// and a step that was under way is dropped. `smoke_rows` is the height
    /// of the smoke band on the new grid.
    pub fn resize(&mut self, width: usize, height: usize, smoke_rows: usize)
        requires
            0 < width,
            0 < height,
            width * height <= usize::MAX,
        ensures
            final(self).wf(),
            final(self)@ == SimState::fresh(
                width as int,
                height as int,
                old(self)@.config,
                old(self)@.scale,
                band_rows(height as int, smoke_rows as int),
            ),
    {
        *self = Self::new(width, height, self.config, self.scale, smoke_rows);
    }

    /// Starts the simulation afresh at its current size.
    pub fn restart_sim(&mut self)
        requires
            old(self).wf(),
        ensures
            final(self).wf(),
            final(self)@ == SimState::fresh(
                old(self)@.width,
                old(self)@.height,
                old(self)@.config,
                old(self)@.scale,
                old(self)@.smoke_rows,
            ),
    {
        self.resize(self.width, self.height, self.smoke_rows);
    }

    /// Takes new parameters: the inlet column and the smoke source are
    /// rewritten in place, with a band of `smoke_rows` rows (at most the
    /// grid's height). Size, flow elsewhere, pressure and obstacles stay.
    pub fn set_config(&mut self, config: SimConfig<T>, smoke_rows: usize)
        requires
            old(self).wf(),
        ensures
            final(self).wf(),
            final(self)@ == old(self)@.reconfigured(
                config,
                band_rows(old(self)@.height, smoke_rows as int),
            ),
    {
        let rows = if smoke_rows <= self.height {
            smoke_rows
        } else {
            self.height
        };
        set_horizontal_speed(&mut self.horizontal_speeds, self.height, config.wind_speed);
        set_smoke_pipe(&mut self.smoke_grid, self.height, rows, self.scale);
        self.config = config;
        self.smoke_rows = rows;
    }

    /// Width and height of the grid, in cells.
    pub fn get_size(&self) -> (size: (usize, usize))
        ensures
            size.0 == self@.width,
            size.1 == self@.height,
    {
        (self.width, self.height)
    }

    /// The current parameters.
    pub fn get_config(&self) -> (config: SimConfig<T>)
        ensures
            config == self@.config,
    {
        self.config
    }

    /// The horizontal velocity field.
    pub fn get_horizontal_grid(&self) -> (grid: &Vec<T>)
        ensures
            grid@ == self@.horizontal,
    {
        &self.horizontal_speeds
    }

    /// The vertical velocity field.
    pub fn get_vertical_grid(&self) -> (grid: &Vec<T>)
        ensures
            grid@ == self@.vertical,
    {
        &self.vertical_values
    }

    /// The pressure field.
    pub fn get_pressure_grid(&self) -> (grid: &Vec<T>)
        ensures
            grid@ == self@.pressure,
    {
        &self.pressure_grid
    }

    /// The obstacle mask.
    pub fn get_block_grid(&self) -> (grid: &Vec<bool>)
        ensures
            grid@ == self@.blocks,
    {
        &self.block_grid
    }

    /// The smoke density field.
    pub fn get_smoke_grid(&self) -> (grid: &Vec<T>)
        ensures
            grid@ == self@.smoke,
    {
        &self.smoke_grid
    }

    /// Position of cell `(x_index, y_index)` in every field of this
    /// simulation.
    #[inline]
    pub fn calculate_index(&self, x_index: usize, y_index: usize) -> (index: usize)
        requires
            x_index * self@.height + y_index <= usize::MAX,
        ensures
            index == cell_index(self@.height, x_index as int, y_index as int),
    {
        Self::calculate_index_with_height(self.height, x_index, y_index)
    }

    /// Position of cell `(x_index, y_index)` in a field of `height` rows:
    /// `x_index * height + y_index`.
    #[inline]
    pub fn calculate_index_with_height(height: usize, x_index: usize, y_index: usize) -> (index:
        usize)
        requires
            x_index * height + y_index <= usize::MAX,
        ensures
            index == cell_index(height as int, x_index as int, y_index as int),
    {
        (x_index * height) + y_index
    }

    /// Column and row of the cell at position `index`.
    #[inline]
    pub fn pos_from_index(&self, index: usize) -> (pos: (usize, usize))
        requires
            self.wf(),
        ensures
            pos.0 == cell_x(self@.height, index as int),
            pos.1 == cell_y(self@.height, index as int),
            index < self@.len() ==> in_grid(self@.width, self@.height, pos.0 as int, pos.1 as int),
            cell_index(self@.height, pos.0 as int, pos.1 as int) == index,
    {
        proof {
            lemma_fundamental_div_mod(index as int, self.height as int);
            lemma_mul_is_commutative(self.height as int, index as int / self.height as int);
            if index < self@.len() {
                lemma_index_of_position(self@.width, self@.height, index as int);
            }
        }
        let x = index / self.height;
        let y = index % self.height;
        (x, y)
    }

    /// Whether the cell at position `index` lies on the border of the grid.
    #[inline]
    pub fn index_is_border(&self, index: usize) -> (border: bool)
        requires
            self.wf(),
        ensures
            border == on_border(self@.width, self@.height, index as int),
    {
        Self::index_is_border_with_size(index, self.width, self.height)
    }

    /// Whether the cell at position `index` lies on the border of a grid of
    /// `width` by `height` cells: in its first or last column, or in its
    /// first or last row.
    #[inline]
    pub fn index_is_border_with_size(index: usize, width: usize, height: usize) -> (border: bool)
        requires
            0 < width,
            0 < height,
        ensures
            border == on_border(width as int, height as int, index as int),
    {
        let column = index / height;
        let remainder = index % height;
        let is_left_border = column == 0;
        let is_right_border = column == width - 1;
        let is_top_border = remainder == height - 1;
        let is_bottom_border = remainder == 0;
        is_left_border || is_right_border || is_top_border || is_bottom_border
    }

    /// Positions of the four face neighbours of cell `(x_index, y_index)`,
    /// in the order top, right, bottom, left. The cell must lie off the
    /// border, so that all four are cells of the grid.
    pub fn indexes_around(&self, x_index: usize, y_index: usize) -> (around: [usize; 4])
        requires
            self.wf(),
            0 < x_index < self@.width - 1,
            0 < y_index < self@.height - 1,
        ensures
            around[0] == cell_index(self@.height, x_index as int, y_index + 1),
            around[1] == cell_index(self@.height, x_index + 1, y_index as int),
            around[2] == cell_index(self@.height, x_index as int, y_index - 1),
            around[3] == cell_index(self@.height, x_index - 1, y_index as int),
            forall|k: int| 0 <= k < 4 ==> 0 <= #[trigger] around[k] < self@.len(),
    {
        proof {
            lemma_index_in_range(self@.width, self@.height, x_index as int, y_index + 1);
            lemma_index_in_range(self@.width, self@.height, x_index + 1, y_index as int);
            lemma_index_in_range(self@.width, self@.height, x_index as int, y_index - 1);
            lemma_index_in_range(self@.width, self@.height, x_index - 1, y_index as int);
        }
        [
            self.calculate_index(x_index, y_index + 1),
            self.calculate_index(x_index + 1, y_index),
            self.calculate_index(x_index, y_index - 1),
            self.calculate_index(x_index - 1, y_index),
        ]
    }

    /// Positions of the four face neighbours of the cell at `index` in a
    /// grid of `height` rows, in the order top, right, bottom, left.
    pub fn indexes_around_index(index: usize, height: usize) -> (around: [usize; 4])
        requires
            1 <= index,
            height <= index,
            index + 1 <= usize::MAX,
            index + height <= usize::MAX,
        ensures
            around[0] == index + 1,
            around[1] == index + height,
            around[2] == index - 1,
            around[3] == index - height,
    {
        let up = index + 1;
        let right = index + height;
        let bottom = index - 1;
        let left = index - height;
        [up, right, bottom, left]
    }

    /// Whether a step updates the cell at position `index`: it is a cell
    /// of the grid, off the border, and no obstacle.
    pub fn is_active(&self, index: usize) -> (active: bool)
        requires
            self.wf(),
        ensures
            active == self@.active(index as int),
    {
        index < self.block_grid.len() && !self.block_grid[index] && !self.index_is_border(index)
    }

    /// Whether gravity accelerates the cell at position `index`: a step
    /// updates the cell, and the cell below it as well.
    pub fn has_gravity(&self, index: usize) -> (applies: bool)
        requires
            self.wf(),
        ensures
            applies == self@.gravity_applies(index as int),
    {
        index >= 1 && self.is_active(index) && self.is_active(index - 1)
    }

    /// How far the current step has come.
    pub fn phase(&self) -> (phase: Phase)
        ensures
            phase == self@.phase,
    {
        self.phase
    }

    /// Begins a step: gravity is due next. While a step is under way it
    /// goes on, and the call is refused.
    pub fn begin_step(&mut self) -> (begun: bool)
        requires
            old(self).wf(),
        ensures
            final(self).wf(),
            begun == (old(self)@.phase is Idle),
            final(self)@ == old(self)@.begun(),
    {
        match self.phase {
            Phase::Idle => {
                self.phase = Phase::Gravity;
                true
            },
            _ => false,
        }
    }

    /// What the caller has to do next: compute the vertical velocity after
    /// gravity, have the pressure cleared, compute the relaxation of one
    /// cell, or compute the fields after advection.
    pub fn next_action(&self) -> (action: Action)
        requires
            self.wf(),
        ensures
            action == self@.action(),
    {
        match self.phase {
            Phase::Idle => Action::Done,
            Phase::Gravity => Action::Gravity,
            Phase::Pressure => Action::ClearPressure,
            Phase::Projection { cell, .. } => {
                let stencil = self.projection_stencil(cell);
                Action::Relax(stencil.unwrap())
            },
            Phase::Advection => Action::Advect,
        }
    }

    /// The first cell at or after position `from` that the projection
    /// relaxes.
    fn next_relaxable(&self, from: usize) -> (next: Option<usize>)
        requires
            self.wf(),
        ensures
            match next {
                Some(cell) => self@.next_relaxable(from as int) == Some(cell as int),
                None => self@.next_relaxable(from as int) is None,
            },
    {
        let len = self.block_grid.len();
        let mut cell: usize = from;
        while cell < len
            invariant
                from <= cell,
                len == self@.len(),
                self.wf(),
                self@.next_relaxable(from as int) == self@.next_relaxable(cell as int),
            decreases len - cell,
        {
            if self.projection_stencil(cell).is_some() {
                return Some(cell);
            }
            cell = cell + 1;
        }
        None
    }

    /// The phase in which the cells before position `from` of sweep `sweep`
    /// are done.
    fn projection_phase(&self, sweep: usize, from: usize) -> (phase: Phase)
        requires
            self.wf(),
            sweep < PROJECTION_ITERATIONS,
        ensures
            phase == self@.projection_phase(sweep as int, from as int),
            phase matches Phase::Projection { sweep: next_sweep, cell } ==> next_sweep
                < PROJECTION_ITERATIONS && self@.relaxable(cell as int),
    {
        proof {
            lemma_next_relaxable(self@, from as int);
            lemma_next_relaxable(self@, 0);
        }
        match self.next_relaxable(from) {
            Some(cell) => Phase::Projection { sweep, cell },
            None => {
                if sweep + 1 < PROJECTION_ITERATIONS {
                    match self.next_relaxable(0) {
                        Some(cell) => Phase::Projection { sweep: sweep + 1, cell },
                        None => Phase::Advection,
                    }
                } else {
                    Phase::Advection
                }
            },
        }
    }

    /// Stores the vertical velocity after gravity. `accelerated` holds a
    /// candidate for every cell; it is taken in the cells that gravity
    /// accelerates, and every other cell keeps its velocity. No other field
    /// changes. Unless gravity is due and the field has the length of the
    /// grid, the call is refused and nothing changes.
    pub fn add_gravity(&mut self, accelerated: &Vec<T>) -> (stored: bool)
        requires
            old(self).wf(),
        ensures
            final(self).wf(),
            stored == (old(self)@.phase is Gravity && accelerated@.len() == old(self)@.len()),
            final(self)@ == old(self)@.accelerated(accelerated@),
    {
        let len = self.vertical_values.len();
        match self.phase {
            Phase::Gravity => {},
            _ => {
                return false;
            },
        }
        if accelerated.len() != len {
            return false;
        }
        let mut i: usize = 0;
        while i < len
            invariant
                i <= len,
                accelerated@.len() == len,
                self.wf(),
                old(self).wf(),
                self@.len() == len,
                self@ == (SimState { vertical: self@.vertical, ..old(self)@ }),
                forall|k: int|
                    0 <= k < len ==> #[trigger] self@.vertical[k] == if k < i && old(
                        self,
                    )@.gravity_applies(k) {
                        accelerated@[k]
                    } else {
                        old(self)@.vertical[k]
                    },
            decreases len - i,
        {
            if self.has_gravity(i) {
                let value = accelerated[i];
                self.vertical_values.set(i, value);
            }
            i = i + 1;
        }
        self.phase = Phase::Pressure;
        assert(self@.vertical =~= old(self)@.accelerated(accelerated@).vertical);
        true
    }

    /// Begins the projection: every pressure sample is set to rest, so that
    /// no pressure is carried over from the step before, and the first cell
    /// of the first sweep is due. No other field changes. Unless the
    /// projection is due to begin, the call is refused and nothing changes.
    pub fn clear_pressure(&mut self) -> (cleared: bool)
        requires
            old(self).wf(),
        ensures
            final(self).wf(),
            cleared == (old(self)@.phase is Pressure),
            final(self)@ == old(self)@.pressure_cleared(),
    {
        match self.phase {
            Phase::Pressure => {
                let next = self.projection_phase(0, 0);
                self.pressure_grid = filled(self.pressure_grid.len(), self.scale.zero);
                self.phase = next;
                true
            },
            _ => false,
        }
    }

    /// Stores the relaxation of the cell that is due and moves the
    /// projection on. A face velocity is taken only where the neighbour
    /// across that face is open, so no sample of an obstacle is ever
    /// written; the pressure of the cell is always taken. Unless the
    /// projection is under way, the call is refused and nothing changes.
    pub fn relax(&mut self, values: Relaxed<T>) -> (stored: bool)
        requires
            old(self).wf(),
        ensures
            final(self).wf(),
            stored == (old(self)@.phase is Projection),
            final(self)@ == old(self)@.relaxed(values),
    {
        match self.phase {
            Phase::Projection { sweep, cell } => {
                proof {
                    lemma_interior_neighbours(self@.width, self@.height, cell as int);
                }
                let stencil = self.projection_stencil(cell).unwrap();
                let next = self.projection_phase(sweep, cell + 1);
                if stencil.left_open {
                    self.horizontal_speeds.set(stencil.cell, values.left_face);
                }
                if stencil.right_open {
                    self.horizontal_speeds.set(stencil.right, values.right_face);
                }
                if stencil.bottom_open {
                    self.vertical_values.set(stencil.cell, values.bottom_face);
                }
                if stencil.top_open {
                    self.vertical_values.set(stencil.top, values.top_face);
                }
                self.pressure_grid.set(stencil.cell, values.pressure);
                self.phase = next;
                true
            },
            _ => false,
        }
    }

    /// Stores velocity and smoke after advection and ends the step. Each
    /// field holds a candidate for every cell; it is taken in the cells that
    /// a step updates, and border and obstacle cells keep what they held.
    /// Unless advection is due and the fields have the length of the grid,
    /// the call is refused and nothing changes.
    pub fn move_velocity(&mut self, horizontal: &Vec<T>, vertical: &Vec<T>, smoke: &Vec<T>) -> (stored:
        bool)
        requires
            old(self).wf(),
        ensures
            final(self).wf(),
            stored == (old(self)@.phase is Advection && horizontal@.len() == old(self)@.len()
                && vertical@.len() == old(self)@.len() && smoke@.len() == old(self)@.len()),
            final(self)@ == old(self)@.advected(horizontal@, vertical@, smoke@),
    {
        let len = self.block_grid.len();
        match self.phase {
            Phase::Advection => {},
            _ => {
                return false;
            },
        }
        if horizontal.len() != len || vertical.len() != len || smoke.len() != len {
            return false;
        }
        let mut i: usize = 0;
        while i < len
            invariant
                i <= len,
                horizontal@.len() == len,
                vertical@.len() == len,
                smoke@.len() == len,
                self.wf(),
                old(self).wf(),
                self@.len() == len,
                self@ == (SimState {
                    horizontal: self@.horizontal,
                    vertical: self@.vertical,
                    smoke: self@.smoke,
                    ..old(self)@
                }),
                forall|k: int|
                    0 <= k < len ==> #[trigger] self@.horizontal[k] == if k < i && old(
                        self,
                    )@.active(k) {
                        horizontal@[k]
                    } else {
                        old(self)@.horizontal[k]
                    },
                forall|k: int|
                    0 <= k < len ==> #[trigger] self@.vertical[k] == if k < i && old(self)@.active(
                        k,
                    ) {
                        vertical@[k]
                    } else {
                        old(self)@.vertical[k]
                    },
                forall|k: int|
                    0 <= k < len ==> #[trigger] self@.smoke[k] == if k < i && old(self)@.active(k) {
                        smoke@[k]
                    } else {
                        old(self)@.smoke[k]
                    },
            decreases len - i,
        {
            if self.is_active(i) {
                let new_horizontal = horizontal[i];
                let new_vertical = vertical[i];
                let new_smoke = smoke[i];
                self.horizontal_speeds.set(i, new_horizontal);
                self.vertical_values.set(i, new_vertical);
                self.smoke_grid.set(i, new_smoke);
            }
            i = i + 1;
        }
        self.phase = Phase::Idle;
        proof {
            let expected = old(self)@.advected(horizontal@, vertical@, smoke@);
            assert(self@.horizontal =~= expected.horizontal);
            assert(self@.vertical =~= expected.vertical);
            assert(self@.smoke =~= expected.smoke);
        }
        true
    }

    /// The stencil of the cell at position `cell`, if the projection relaxes
    /// that cell: a border cell, an obstacle, and a cell walled in on all
    /// four sides have none.
    pub fn projection_stencil(&self, cell: usize) -> (stencil: Option<Stencil>)
        requires
            self.wf(),
        ensures
            stencil.is_some() == self@.relaxable(cell as int),
            stencil.is_some() ==> stencil.unwrap() == self@.stencil(cell as int),
    {
        if !self.is_active(cell) {
            return None;
        }
        proof {
            lemma_interior_neighbours(self@.width, self@.height, cell as int);
        }
        let top = cell + 1;
        let right = cell + self.height;
        let bottom = cell - 1;
        let left = cell - self.height;
        let stencil = Stencil {
            cell,
            top,
            right,
            bottom,
            left,
            top_open: !self.block_grid[top],
            right_open: !self.block_grid[right],
            bottom_open: !self.block_grid[bottom],
            left_open: !self.block_grid[left],
        };
        if stencil.top_open || stencil.right_open || stencil.bottom_open || stencil.left_open {
            Some(stencil)
        } else {
            None
        }
    }

    /// Whether cell `(x, y)` is an obstacle.
    pub fn is_block(&self, x: usize, y: usize) -> (blocked: bool)
        requires
            self.wf(),
            in_grid(self@.width, self@.height, x as int, y as int),
        ensures
            blocked == self@.blocked(cell_index(self@.height, x as int, y as int)),
    {
        proof {
            lemma_index_in_range(self@.width, self@.height, x as int, y as int);
        }
        let index = self.calculate_index(x, y);
        self.block_grid[index]
    }

    /// Makes cell `(x, y)` an obstacle. No other cell and no other field
    /// changes. Obstacles are sculpted between steps, not while one is under
    /// way.
    #[inline]
    pub fn set_block(&mut self, x: usize, y: usize)
        requires
            old(self).wf(),
            old(self)@.phase is Idle,
            in_grid(old(self)@.width, old(self)@.height, x as int, y as int),
        ensures
            final(self).wf(),
            final(self)@ == old(self)@.with_block(x as int, y as int),
    {
        proof {
            lemma_index_in_range(self@.width, self@.height, x as int, y as int);
            lemma_first_column_in_range(self@.width, self@.height);
        }
        let index = self.calculate_index(x, y);
        self.block_grid.set(index, true);
    }

    /// Frees cell `(x, y)` of its obstacle. No other cell and no other field
    /// changes. The inlet wall stays: a cell of the first column is not
    /// freed.
    #[inline]
    pub fn unset_block(&mut self, x: usize, y: usize)
        requires
            old(self).wf(),
            old(self)@.phase is Idle,
            in_grid(old(self)@.width, old(self)@.height, x as int, y as int),
        ensures
            final(self).wf(),
            final(self)@ == old(self)@.without_block(x as int, y as int),
    {
        if x == 0 {
            return ;
        }
        proof {
            lemma_index_in_range(self@.width, self@.height, x as int, y as int);
            assert(x * self@.height >= self@.height) by (nonlinear_arith)
                requires
                    x >= 1,
                    self@.height > 0,
            ;
        }
        let index = self.calculate_index(x, y);
        self.block_grid.set(index, false);
    }
}

} // verus!

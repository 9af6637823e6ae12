//! Which cells the semi-Lagrangian transport reads: the neighbourhoods over
//! which a velocity is averaged, and the four samples that a bilinear
//! interpolation blends.

use crate::grid::{
    cell_index, cell_x, cell_y, in_grid, lemma_first_column_in_range, lemma_index_in_range,
    lemma_interior_neighbours, lemma_position_of_index,
};
use vstd::arithmetic::mul::lemma_mul_is_distributive_add_other_way;
use crate::simulator::FluidSim;
use vstd::prelude::*;

verus! {

/// The fields that are transported. Each is sampled at its own place in a
/// cell.
#[derive(Clone, Copy, Debug, PartialEq, Eq)]
pub enum FieldType {
    /// Horizontal velocity, sampled in the middle of the left face.
    Horizontal,
    /// Vertical velocity, sampled in the middle of the bottom face.
    Vertical,
    /// Smoke density, sampled at the centre.
    Smoke,
}

impl FieldType {
    /// Whether the samples of the field lie half a cell right of the cell's
    /// corner, and whether they lie half a cell above it.
    pub open spec fn staggering(self) -> (bool, bool) {
        match self {
            FieldType::Horizontal => (false, true),
            FieldType::Vertical => (true, false),
            FieldType::Smoke => (true, true),
        }
    }

    /// Whether the samples of the field lie half a cell right of the cell's
    /// corner, and whether they lie half a cell above it.
    pub fn offset(self) -> (halves: (bool, bool))
        ensures
            halves == self.staggering(),
    {
        match self {
            FieldType::Horizontal => (false, true),
            FieldType::Vertical => (true, false),
            FieldType::Smoke => (true, true),
        }
    }
}

/// The cells that the transport into one cell reads: the cell, by column
/// and row and by position, and the positions of six of its neighbours.
#[derive(Clone, Copy, Debug, PartialEq, Eq)]
pub struct Transport {
    /// Position of the cell.
    pub cell: usize,
    /// Column of the cell.
    pub x: usize,
    /// Row of the cell.
    pub y: usize,
    /// Position of the neighbour above.
    pub top: usize,
    /// Position of the neighbour to the right.
    pub right: usize,
    /// Position of the neighbour below.
    pub bottom: usize,
    /// Position of the neighbour to the left.
    pub left: usize,
    /// Position of the neighbour above the left one.
    pub top_left: usize,
    /// Position of the neighbour below the right one.
    pub bottom_right: usize,
}

/// The cells that the transport into the cell at position `cell` reads, on
/// a grid of `height` rows.
pub open spec fn transport_of(height: int, cell: int) -> Transport {
    Transport {
        cell: cell as usize,
        x: cell_x(height, cell) as usize,
        y: cell_y(height, cell) as usize,
        top: (cell + 1) as usize,
        right: (cell + height) as usize,
        bottom: (cell - 1) as usize,
        left: (cell - height) as usize,
        top_left: (cell - height + 1) as usize,
        bottom_right: (cell + height - 1) as usize,
    }
}

impl Transport {
    /// Positions of the four vertical velocity samples around the left face
    /// of the cell, over which the vertical velocity there is averaged:
    /// those of the left neighbour, the one above it, the neighbour above,
    /// and the cell.
    pub fn avg_vertical_cells(&self) -> (cells: [usize; 4])
        ensures
            cells[0] == self.left,
            cells[1] == self.top_left,
            cells[2] == self.top,
            cells[3] == self.cell,
    {
        [self.left, self.top_left, self.top, self.cell]
    }

    /// Positions of the four horizontal velocity samples around the bottom
    /// face of the cell, over which the horizontal velocity there is
    /// averaged: those of the neighbour below, the one right of it, the
    /// right neighbour, and the cell.
    pub fn avg_horizontal_cells(&self) -> (cells: [usize; 4])
        ensures
            cells[0] == self.bottom,
            cells[1] == self.bottom_right,
            cells[2] == self.right,
            cells[3] == self.cell,
    {
        [self.bottom, self.bottom_right, self.right, self.cell]
    }
}

/// The neighbours that a transport reads are cells of the grid, and they lie
/// where their names say: for a cell `(x, y)` off the border, `top` is
/// `(x, y + 1)`, `right` is `(x + 1, y)`, `bottom` is `(x, y - 1)`, `left` is
/// `(x - 1, y)`, `top_left` is `(x - 1, y + 1)` and `bottom_right` is
/// `(x + 1, y - 1)`.
pub proof fn lemma_transport_cells(width: int, height: int, x: int, y: int)
    requires
        0 < x < width - 1,
        0 < y < height - 1,
        width * height <= usize::MAX,
    ensures
        ({
            let t = transport_of(height, cell_index(height, x, y));
            &&& t.cell == cell_index(height, x, y)
            &&& t.x == x
            &&& t.y == y
            &&& t.top == cell_index(height, x, y + 1)
            &&& t.right == cell_index(height, x + 1, y)
            &&& t.bottom == cell_index(height, x, y - 1)
            &&& t.left == cell_index(height, x - 1, y)
            &&& t.top_left == cell_index(height, x - 1, y + 1)
            &&& t.bottom_right == cell_index(height, x + 1, y - 1)
            &&& t.top < width * height
            &&& t.right < width * height
            &&& t.top_left < width * height
            &&& t.bottom_right < width * height
        }),
{
    lemma_position_of_index(height, x, y);
    lemma_index_in_range(width, height, x, y);
    lemma_index_in_range(width, height, x, y + 1);
    lemma_index_in_range(width, height, x + 1, y);
    lemma_index_in_range(width, height, x, y - 1);
    lemma_index_in_range(width, height, x - 1, y);
    lemma_index_in_range(width, height, x - 1, y + 1);
    lemma_index_in_range(width, height, x + 1, y - 1);
    lemma_mul_is_distributive_add_other_way(height, x, 1);
    lemma_mul_is_distributive_add_other_way(height, x - 1, 1);
    lemma_first_column_in_range(width, height);
    assert(x < width * height && y < width * height) by (nonlinear_arith)
        requires
            0 < x < width - 1,
            0 < y < height - 1,
    ;
}

/// The four cells around a point between samples, by column and row and by
/// position, with the neighbours clamped to the last column and row.
#[derive(Clone, Copy, Debug, PartialEq, Eq)]
pub struct SampleCells {
    /// Column of the samples left of the point.
    pub x_left: usize,
    /// Column of the samples right of the point.
    pub x_right: usize,
    /// Row of the samples below the point.
    pub y_bottom: usize,
    /// Row of the samples above the point.
    pub y_top: usize,
    /// Position of the sample below and left.
    pub bottom_left: usize,
    /// Position of the sample below and right.
    pub bottom_right: usize,
    /// Position of the sample above and right.
    pub top_right: usize,
    /// Position of the sample above and left.
    pub top_left: usize,
}

/// `value`, or `last` where `value` lies beyond it.
pub open spec fn clamped(value: int, last: int) -> int {
    if value < last {
        value
    } else {
        last
    }
}

/// The cells around a point whose coordinates, counted in samples, round
/// down to `column` and `row`, on a grid of `width` by `height` cells.
pub open spec fn sample_cells_of(width: int, height: int, column: int, row: int) -> SampleCells {
    let x_left = clamped(column, width - 1);
    let x_right = clamped(x_left + 1, width - 1);
    let y_bottom = clamped(row, height - 1);
    let y_top = clamped(y_bottom + 1, height - 1);
    SampleCells {
        x_left: x_left as usize,
        x_right: x_right as usize,
        y_bottom: y_bottom as usize,
        y_top: y_top as usize,
        bottom_left: cell_index(height, x_left, y_bottom) as usize,
        bottom_right: cell_index(height, x_right, y_bottom) as usize,
        top_right: cell_index(height, x_right, y_top) as usize,
        top_left: cell_index(height, x_left, y_top) as usize,
    }
}

/// On a point that is itself a sample, the first of the four cells is that
/// sample: for a cell of the grid, `bottom_left` is the cell's own position.
pub proof fn lemma_sample_at_cell(width: int, height: int, x: int, y: int)
    requires
        in_grid(width, height, x, y),
        width * height <= usize::MAX,
    ensures
        sample_cells_of(width, height, x, y).x_left == x,
        sample_cells_of(width, height, x, y).y_bottom == y,
        sample_cells_of(width, height, x, y).bottom_left == cell_index(height, x, y),
{
    lemma_index_in_range(width, height, x, y);
    assert(width <= width * height && height <= width * height) by (nonlinear_arith)
        requires
            0 < width,
            0 < height,
    ;
}

impl<T: Copy> FluidSim<T> {
    /// The field that `field_type` names.
    pub fn field(&self, field_type: FieldType) -> (grid: &Vec<T>)
        ensures
            grid@ == match field_type {
                FieldType::Horizontal => self@.horizontal,
                FieldType::Vertical => self@.vertical,
                FieldType::Smoke => self@.smoke,
            },
    {
        match field_type {
            FieldType::Horizontal => self.get_horizontal_grid(),
            FieldType::Vertical => self.get_vertical_grid(),
            FieldType::Smoke => self.get_smoke_grid(),
        }
    }

    /// The cells that the transport into the cell at position `cell`
    /// reads, if a step updates that cell: a border cell and an obstacle
    /// have none.
    pub fn advection_stencil(&self, cell: usize) -> (transport: Option<Transport>)
        requires
            self.wf(),
        ensures
            transport.is_some() == self@.active(cell as int),
            transport.is_some() ==> transport.unwrap() == transport_of(self@.height, cell as int),
    {
        if !self.is_active(cell) {
            return None;
        }
        proof {
            lemma_interior_neighbours(self@.width, self@.height, cell as int);
        }
        let (_, height) = self.get_size();
        let (x, y) = self.pos_from_index(cell);
        Some(
            Transport {
                cell,
                x,
                y,
                top: cell + 1,
                right: cell + height,
                bottom: cell - 1,
                left: cell - height,
                top_left: cell - height + 1,
                bottom_right: cell + height - 1,
            },
        )
    }

    /// The four cells whose samples are blended at a point whose
    /// coordinates, counted in samples of the field, round down to `column`
    /// and `row`. A point beyond the last column or row is taken on it, and
    /// neighbours beyond them are clamped to them, so all four are cells of
    /// the grid.
    pub fn sample_cells(&self, column: usize, row: usize) -> (cells: SampleCells)
        requires
            self.wf(),
        ensures
            cells == sample_cells_of(self@.width, self@.height, column as int, row as int),
            cells.bottom_left < self@.len(),
            cells.bottom_right < self@.len(),
            cells.top_right < self@.len(),
            cells.top_left < self@.len(),
    {
        let (width, height) = self.get_size();
        let x_left = if column < width - 1 {
            column
        } else {
            width - 1
        };
        let x_right = if x_left + 1 < width - 1 {
            x_left + 1
        } else {
            width - 1
        };
        let y_bottom = if row < height - 1 {
            row
        } else {
            height - 1
        };
        let y_top = if y_bottom + 1 < height - 1 {
            y_bottom + 1
        } else {
            height - 1
        };
        proof {
            lemma_index_in_range(self@.width, self@.height, x_left as int, y_bottom as int);
            lemma_index_in_range(self@.width, self@.height, x_right as int, y_bottom as int);
            lemma_index_in_range(self@.width, self@.height, x_right as int, y_top as int);
            lemma_index_in_range(self@.width, self@.height, x_left as int, y_top as int);
        }
        SampleCells {
            x_left,
            x_right,
            y_bottom,
            y_top,
            bottom_left: self.calculate_index(x_left, y_bottom),
            bottom_right: self.calculate_index(x_right, y_bottom),
            top_right: self.calculate_index(x_right, y_top),
            top_left: self.calculate_index(x_left, y_top),
        }
    }
}

} // verus!

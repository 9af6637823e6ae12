//! How a grid is shown on a terminal: a terminal cell shows two cells of the
//! grid, one above the other, and the top row of the view shows the two
//! topmost rows of the grid.

use crate::grid::cell_index;
use vstd::prelude::*;

verus! {

/// The rows of the grid that terminal row `row` of a view shows, the upper
/// first, on a grid of `sim_height` rows.
pub open spec fn rows_shown(sim_height: int, row: int) -> (int, int) {
    (sim_height - 1 - 2 * row, sim_height - 2 - 2 * row)
}

/// The positions of the two cells that the terminal cell in column `column`
/// and row `row` of a view shows, the upper first, in a field of `len` cells
/// on a grid of `sim_height` rows; none where the field has no such cells.
pub open spec fn cells_shown(len: int, sim_height: int, column: int, row: int) -> Option<
    (int, int),
> {
    let rows = rows_shown(sim_height, row);
    let upper = cell_index(sim_height, column, rows.0);
    if 0 <= column && 0 <= row && 2 * row + 2 <= sim_height && upper < len {
        Some((upper, upper - 1))
    } else {
        None
    }
}

/// The rows of the grid that terminal row `row` shows, the upper first.
pub fn screen_rows(sim_height: usize, row: usize) -> (rows: (usize, usize))
    requires
        2 * row + 2 <= sim_height,
    ensures
        rows.0 == rows_shown(sim_height as int, row as int).0,
        rows.1 == rows_shown(sim_height as int, row as int).1,
{
    (sim_height - 1 - 2 * row, sim_height - 2 - 2 * row)
}

/// The positions of the two cells that a terminal cell shows, the upper
/// first, if the field has them.
pub fn shown_cells(len: usize, sim_height: usize, column: usize, row: usize) -> (cells: Option<
    (usize, usize),
>)
    ensures
        match cells_shown(len as int, sim_height as int, column as int, row as int) {
            Some(shown) => cells matches Some(found) && found.0 == shown.0 && found.1 == shown.1,
            None => cells is None,
        },
{
    if sim_height < 2 || row > (sim_height - 2) / 2 {
        return None;
    }
    let (upper_row, _) = screen_rows(sim_height, row);
    assert(0 <= column * sim_height) by (nonlinear_arith)
        requires
            0 <= column,
            0 <= sim_height,
    ;
    match column.checked_mul(sim_height) {
        Some(start) => match start.checked_add(upper_row) {
            Some(upper) => {
                if upper < len {
                    Some((upper, upper - 1))
                } else {
                    None
                }
            },
            None => None,
        },
        None => None,
    }
}

} // verus!

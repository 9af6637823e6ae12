//! Column-major addressing of a grid of cells.

use vstd::arithmetic::div_mod::{lemma_fundamental_div_mod, lemma_fundamental_div_mod_converse};
use vstd::arithmetic::mul::{lemma_mul_inequality, lemma_mul_is_commutative, lemma_mul_is_distributive_add_other_way};
use vstd::prelude::*;

verus! {

/// Linear position of the cell in column `x` and row `y` of a grid with
/// `height` rows: columns lie one after another.
pub open spec fn cell_index(height: int, x: int, y: int) -> int {
    x * height + y
}

/// Column of the cell at a linear position.
pub open spec fn cell_x(height: int, index: int) -> int {
    index / height
}

/// Row of the cell at a linear position.
pub open spec fn cell_y(height: int, index: int) -> int {
    index % height
}

/// Whether `(x, y)` names a cell of a `width` by `height` grid.
pub open spec fn in_grid(width: int, height: int, x: int, y: int) -> bool {
    0 <= x < width && 0 <= y < height
}

/// Whether the cell at a linear position lies on the outermost ring of the
/// grid: in the first or last column, or in the first or last row.
pub open spec fn on_border(width: int, height: int, index: int) -> bool {
    let x = cell_x(height, index);
    let y = cell_y(height, index);
    x == 0 || x == width - 1 || y == 0 || y == height - 1
}

/// Splitting a linear position into column and row undoes `cell_index`,
/// for every column and every row below `height`.
pub proof fn lemma_position_of_index(height: int, x: int, y: int)
    requires
        0 <= x,
        0 <= y < height,
    ensures
        cell_x(height, cell_index(height, x, y)) == x,
        cell_y(height, cell_index(height, x, y)) == y,
{
    lemma_fundamental_div_mod_converse(cell_index(height, x, y), height, x, y);
}

/// The cells of a grid occupy exactly the positions below `width * height`.
pub proof fn lemma_index_in_range(width: int, height: int, x: int, y: int)
    requires
        in_grid(width, height, x, y),
    ensures
        0 <= cell_index(height, x, y) < width * height,
{
    lemma_mul_inequality(x, width - 1, height);
    lemma_mul_is_distributive_add_other_way(height, width - 1, 1);
    assert(0 <= x * height) by (nonlinear_arith)
        requires
            0 <= x,
            0 < height,
    ;
}

/// Every position below `width * height` is the index of the cell that its
/// column and row name, and that cell lies in the grid.
pub proof fn lemma_index_of_position(width: int, height: int, index: int)
    requires
        0 < height,
        0 <= index < width * height,
    ensures
        in_grid(width, height, cell_x(height, index), cell_y(height, index)),
        cell_index(height, cell_x(height, index), cell_y(height, index)) == index,
{
    lemma_fundamental_div_mod(index, height);
    lemma_mul_is_commutative(height, index / height);
    let x = index / height;
    assert(0 <= x < width) by (nonlinear_arith)
        requires
            0 < height,
            0 <= index < width * height,
            x == index / height,
    ;
}

/// Positions follow the columns, and within a column the rows: a cell comes
/// before another exactly if it lies in a column further left, or in the
/// same column further down.
pub proof fn lemma_index_order(height: int, x1: int, y1: int, x2: int, y2: int)
    requires
        0 <= y1 < height,
        0 <= y2 < height,
    ensures
        cell_index(height, x1, y1) < cell_index(height, x2, y2) <==> x1 < x2 || (x1 == x2 && y1
            < y2),
{
    assert(x1 < x2 ==> x1 * height + height <= x2 * height) by (nonlinear_arith)
        requires
            0 < height,
    ;
    assert(x2 < x1 ==> x2 * height + height <= x1 * height) by (nonlinear_arith)
        requires
            0 < height,
    ;
}

/// A grid with at least one column holds at least one full column of cells.
pub proof fn lemma_first_column_in_range(width: int, height: int)
    requires
        0 < width,
        0 < height,
    ensures
        height <= width * height,
{
    assert(height <= width * height) by (nonlinear_arith)
        requires
            0 < width,
            0 < height,
    ;
}

/// A cell off the border has all four face neighbours in the grid: the
/// positions one and `height` below and above its own are positions of
/// cells, in the same column or the same row.
pub proof fn lemma_interior_neighbours(width: int, height: int, index: int)
    requires
        0 < height,
        0 <= index < width * height,
        !on_border(width, height, index),
    ensures
        height + 1 <= index,
        index + height + 1 < width * height,
        cell_x(height, index - 1) == cell_x(height, index),
        cell_y(height, index - 1) == cell_y(height, index) - 1,
        cell_x(height, index + 1) == cell_x(height, index),
        cell_y(height, index + 1) == cell_y(height, index) + 1,
        cell_x(height, index - height) == cell_x(height, index) - 1,
        cell_y(height, index - height) == cell_y(height, index),
        cell_x(height, index + height) == cell_x(height, index) + 1,
        cell_y(height, index + height) == cell_y(height, index),
{
    let x = cell_x(height, index);
    let y = cell_y(height, index);
    lemma_index_of_position(width, height, index);
    assert(0 < x < width - 1 && 0 < y < height - 1);
    lemma_index_in_range(width, height, x - 1, y);
    lemma_index_in_range(width, height, x + 1, y + 1);
    lemma_mul_is_distributive_add_other_way(height, x, 1);
    lemma_mul_is_distributive_add_other_way(height, x - 1, 1);
    assert(cell_index(height, x + 1, y) == index + height);
    assert(cell_index(height, x + 1, y + 1) == index + height + 1);
    assert(cell_index(height, x - 1, y) == index - height);
    assert(cell_index(height, x, y + 1) == index + 1);
    assert(cell_index(height, x, y - 1) == index - 1);
    lemma_position_of_index(height, x, y - 1);
    lemma_position_of_index(height, x, y + 1);
    lemma_position_of_index(height, x - 1, y);
    lemma_position_of_index(height, x + 1, y);
}

} // verus!

//! The obstacle editor: which half blocks a terminal cell shows, and what a
//! click does to the obstacle mask.

use crate::grid::{cell_index, in_grid, lemma_index_in_range};
use crate::simulator::FluidSim;
use crate::view::{cells_shown, shown_cells};
use vstd::prelude::*;

verus! {

/// A rectangle of terminal cells: its top left corner and its size.
#[derive(Clone, Copy, Debug, PartialEq, Eq)]
pub struct Area {
    pub x: u16,
    pub y: u16,
    pub width: u16,
    pub height: u16,
}

/// The buttons of a mouse that the editor tells apart.
#[derive(Clone, Copy, Debug, PartialEq, Eq)]
pub enum MouseButton {
    Left,
    Right,
    Other,
}

/// What the editor remembers between events.
#[derive(Clone, Copy, Debug, PartialEq, Eq)]
pub struct EditorInfo {
    /// The terminal cell under the mouse, while the mouse is over the
    /// editor.
    pub last_mouse_pos: Option<(u16, u16)>,
    /// The terminal cells into which the grid was last drawn.
    pub editor_area: Area,
}

/// Whether the terminal cell in column `x` and row `y` lies in `bx`.
pub open spec fn within(x: int, y: int, bx: Area) -> bool {
    bx.x <= x < bx.x + bx.width && bx.y <= y < bx.y + bx.height
}

/// The cell of the simulation that the mouse points to, by column and row:
/// the column counts from the area's left edge, and the row is twice the
/// number of terminal rows from the mouse down to row `area.height`.
pub open spec fn sim_coordinates(mouse: (u16, u16), area: Area) -> (int, int) {
    (mouse.0 - area.x, 2 * (area.height - mouse.1))
}

/// Whether the terminal cell in column `x` and row `y` lies in `bx`.
pub fn is_within_bounding_box(x: u16, y: u16, bx: &Area) -> (inside: bool)
    ensures
        inside == within(x as int, y as int, *bx),
{
    let right: u32 = bx.x as u32 + bx.width as u32;
    let bottom: u32 = bx.y as u32 + bx.height as u32;
    x >= bx.x && (x as u32) < right && y >= bx.y && (y as u32) < bottom
}

/// The cell of the simulation that the mouse points to. The mouse must be
/// at or right of the area's left edge, and its row no greater than the
/// area's height.
pub fn editor_area_to_sim_coordinates(mouse_coordinates: (u16, u16), editor_area: &Area) -> (cell: (
    usize,
    usize,
))
    requires
        editor_area.x <= mouse_coordinates.0,
        mouse_coordinates.1 <= editor_area.height,
    ensures
        cell.0 == sim_coordinates(mouse_coordinates, *editor_area).0,
        cell.1 == sim_coordinates(mouse_coordinates, *editor_area).1,
{
    (
        (mouse_coordinates.0 - editor_area.x) as usize,
        2 * ((editor_area.height - mouse_coordinates.1) as usize),
    )
}

/// The view of the obstacle mask that the editor draws.
pub struct Editor<'a> {
    mouse_pos: Option<(u16, u16)>,
    blocks: &'a Vec<bool>,
}

impl<'a> Editor<'a> {
    /// The obstacle mask that is drawn.
    pub closed spec fn blocks(&self) -> Seq<bool> {
        self.blocks@
    }

    /// The terminal cell under the mouse, if the mouse is over the editor.
    pub closed spec fn mouse_pos(&self) -> Option<(u16, u16)> {
        self.mouse_pos
    }

    /// An editor for an obstacle mask, with the mouse at `mouse_pos`.
    pub fn new(blocks: &'a Vec<bool>, mouse_pos: Option<(u16, u16)>) -> (editor: Self)
        ensures
            editor.blocks() == blocks@,
            editor.mouse_pos() == mouse_pos,
    {
        Editor { mouse_pos, blocks }
    }

    /// Which of the two cells that a terminal cell shows are obstacles, the
    /// upper first, on a grid of `sim_height` rows; none where the mask has
    /// no such cells.
    pub fn halves(&self, sim_height: usize, column: usize, row: usize) -> (halves: Option<
        (bool, bool),
    >)
        ensures
            halves == match cells_shown(
                self.blocks().len() as int,
                sim_height as int,
                column as int,
                row as int,
            ) {
                Some(shown) => Some((self.blocks()[shown.0], self.blocks()[shown.1])),
                None => None,
            },
    {
        match shown_cells(self.blocks.len(), sim_height, column, row) {
            Some((up_index, down_index)) => Some((self.blocks[up_index], self.blocks[down_index])),
            None => None,
        }
    }

    /// Position in the mask of the cell under the mouse, if the mouse is
    /// over `area` and the mask covers that cell. The mask is taken to have
    /// two rows for each row of `area`.
    pub open spec fn hovered_cell(&self, area: Area) -> Option<int> {
        match self.mouse_pos() {
            Some(mouse) => {
                let cell = sim_coordinates(mouse, area);
                let index = cell_index(2 * area.height, cell.0, cell.1);
                if within(mouse.0 as int, mouse.1 as int, area) && mouse.1 <= area.height && index
                    < self.blocks().len() {
                    Some(index)
                } else {
                    None
                }
            },
            None => None,
        }
    }

    /// Whether the cell under the mouse is an obstacle, if there is a cell
    /// under the mouse.
    pub fn hover(&self, area: &Area) -> (under: Option<bool>)
        ensures
            under == match self.hovered_cell(*area) {
                Some(index) => Some(self.blocks()[index]),
                None => None,
            },
    {
        match self.mouse_pos {
            Some(mouse) => {
                if !is_within_bounding_box(mouse.0, mouse.1, area) || mouse.1 > area.height {
                    return None;
                }
                let (x, y) = editor_area_to_sim_coordinates(mouse, area);
                let height: u64 = 2 * (area.height as u64);
                assert(0 <= x * height <= 0xffff * 0x1fffe) by (nonlinear_arith)
                    requires
                        0 <= x <= 0xffff,
                        0 <= height <= 0x1fffe,
                ;
                let index: u64 = x as u64 * height + y as u64;
                if index < self.blocks.len() as u64 {
                    Some(self.blocks[index as usize])
                } else {
                    None
                }
            },
            None => None,
        }
    }
}

/// The state after a click on cell `(x, y)` of the simulation, the lower
/// cell of a terminal cell. The left button builds: it makes the lower cell
/// an obstacle, or the upper one if the lower already is. The right button
/// clears: it frees the upper cell if that is an obstacle, else the lower.
/// A cell outside the grid is neither built nor cleared, and no other
/// button does anything.
pub open spec fn clicked<T>(
    state: crate::state::SimState<T>,
    x: int,
    y: int,
    button: MouseButton,
) -> crate::state::SimState<T> {
    let lower = in_grid(state.width, state.height, x, y);
    let upper = in_grid(state.width, state.height, x, y + 1);
    match button {
        MouseButton::Left => if lower && !state.blocks[cell_index(state.height, x, y)] {
            state.with_block(x, y)
        } else if upper {
            state.with_block(x, y + 1)
        } else {
            state
        },
        MouseButton::Right => if upper && state.blocks[cell_index(state.height, x, y + 1)] {
            state.without_block(x, y + 1)
        } else if lower {
            state.without_block(x, y)
        } else {
            state
        },
        MouseButton::Other => state,
    }
}

/// Applies a click on cell `(x, y)` of the simulation to its obstacle mask.
pub fn click<T: Copy>(sim: &mut FluidSim<T>, x: usize, y: usize, button: MouseButton)
    requires
        old(sim).wf(),
        old(sim)@.phase is Idle,
    ensures
        final(sim).wf(),
        final(sim)@ == clicked(old(sim)@, x as int, y as int, button),
{
    let (width, height) = sim.get_size();
    let lower = x < width && y < height;
    let upper = x < width && y < height - 1;
    proof {
        if lower {
            lemma_index_in_range(sim@.width, sim@.height, x as int, y as int);
        }
        if upper {
            lemma_index_in_range(sim@.width, sim@.height, x as int, y + 1);
        }
    }
    match button {
        MouseButton::Left => {
            if lower && !sim.is_block(x, y) {
                sim.set_block(x, y);
            } else if upper {
                sim.set_block(x, y + 1);
            }
        },
        MouseButton::Right => {
            if upper && sim.is_block(x, y + 1) {
                sim.unset_block(x, y + 1);
            } else if lower {
                sim.unset_block(x, y);
            }
        },
        MouseButton::Other => {},
    }
}

/// The mouse position that the editor remembers after a mouse event in
/// column `column` and row `row`: outside editing mode the one it had, in
/// editing mode the place of the event while that lies in the editor's area,
/// and none once the mouse has left it.
pub open spec fn mouse_pos_after(editing: bool, info: EditorInfo, column: u16, row: u16) -> Option<
    (u16, u16),
> {
    if !editing {
        info.last_mouse_pos
    } else if within(column as int, row as int, info.editor_area) {
        Some((column, row))
    } else {
        None
    }
}

/// The cell of the simulation that a press of a mouse button edits, if it
/// edits any: the editor is in editing mode, the mouse is over its area and
/// in a row that the area's height counts.
pub open spec fn pressed_cell(editing: bool, area: Area, column: u16, row: u16) -> Option<
    (int, int),
> {
    if editing && within(column as int, row as int, area) && row <= area.height {
        Some(sim_coordinates((column, row), area))
    } else {
        None
    }
}

/// Handles a mouse event in the terminal cell in column `column` and row
/// `row`; `pressed` is the button that went down, if one did. Outside
/// editing mode nothing happens. In editing mode the editor remembers where
/// the mouse is, and a button that goes down over the grid builds or clears
/// an obstacle there.
pub fn handle_mouse_event<T: Copy>(
    editing: bool,
    info: &mut EditorInfo,
    sim: &mut FluidSim<T>,
    column: u16,
    row: u16,
    pressed: Option<MouseButton>,
)
    requires
        old(sim).wf(),
        old(sim)@.phase is Idle,
    ensures
        final(sim).wf(),
        final(info).editor_area == old(info).editor_area,
        final(info).last_mouse_pos == mouse_pos_after(editing, *old(info), column, row),
        final(sim)@ == match (pressed, pressed_cell(editing, old(info).editor_area, column, row)) {
            (Some(button), Some(cell)) => clicked(old(sim)@, cell.0, cell.1, button),
            _ => old(sim)@,
        },
{
    if !editing {
        return ;
    }
    let area = info.editor_area;
    if !is_within_bounding_box(column, row, &area) {
        info.last_mouse_pos = None;
        return ;
    }
    info.last_mouse_pos = Some((column, row));
    if let Some(button) = pressed {
        if row <= area.height {
            let (x, y) = editor_area_to_sim_coordinates((column, row), &area);
            click(sim, x, y, button);
        }
    }
}

} // verus!

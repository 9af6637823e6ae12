//! The modes of the application, and what a key, a resize and a change of a
//! setting make of them.

use crate::simulator::FluidSim;
use crate::state::{SimConfig, SimState};
use vstd::prelude::*;

verus! {

/// The modes of the application.
#[derive(Clone, Copy, Debug, PartialEq, Eq)]
pub enum AppState {
    /// The simulation runs.
    Running,
    /// The obstacles are edited and the simulation stands still.
    Editing,
    /// The size of the simulation is being worked out; nothing is drawn.
    Resizing,
    /// The user has asked to leave.
    Quit,
}

/// The keys that the application tells apart.
#[derive(Clone, Copy, Debug, PartialEq, Eq)]
pub enum Key {
    /// `q` or `Q`.
    Quit,
    Tab,
    Up,
    Down,
    Left,
    Right,
    /// Any other key.
    Other,
}

/// What a key asks of the settings table.
#[derive(Clone, Copy, Debug, PartialEq, Eq)]
pub enum Command {
    /// Nothing.
    Nothing,
    /// Select the row above.
    SelectUp,
    /// Select the row below.
    SelectDown,
    /// Reduce the selected setting and hand the settings to the simulation.
    Reduce,
    /// Increase the selected setting and hand the settings to the
    /// simulation.
    Increase,
}

/// What a key press leads to.
#[derive(Clone, Copy, Debug, PartialEq, Eq)]
pub struct KeyOutcome {
    /// The mode after the key.
    pub state: AppState,
    /// What the key asked of the settings table. A move of the selection
    /// has been made; a change of the selected setting is left to the
    /// caller, who then hands the settings to the simulation.
    pub command: Command,
}

/// The settings of the table, from its first row down.
#[derive(Clone, Copy, Debug, PartialEq, Eq)]
pub enum Setting {
    Gravity,
    WindSpeed,
    SmokeSize,
    Density,
}

impl AppState {
    /// Whether the application goes on: it does while it runs or edits.
    pub open spec fn running(self) -> bool {
        self is Running || self is Editing
    }

    /// Whether the application goes on.
    pub fn is_running(&self) -> (running: bool)
        ensures
            running == self.running(),
    {
        match self {
            AppState::Running => true,
            AppState::Editing => true,
            _ => false,
        }
    }
}

/// The mode after a key: the quit key leaves, the tab key switches between
/// running and editing (and to running from any other mode), every other
/// key keeps the mode.
pub open spec fn state_after(state: AppState, key: Key) -> AppState {
    match key {
        Key::Quit => AppState::Quit,
        Key::Tab => match state {
            AppState::Running => AppState::Editing,
            _ => AppState::Running,
        },
        _ => state,
    }
}

/// What a key asks of the settings table: the arrow keys act on it while
/// the simulation runs, and nothing does otherwise.
pub open spec fn command_of(state: AppState, key: Key) -> Command {
    if state is Running {
        match key {
            Key::Up => Command::SelectUp,
            Key::Down => Command::SelectDown,
            Key::Left => Command::Reduce,
            Key::Right => Command::Increase,
            _ => Command::Nothing,
        }
    } else {
        Command::Nothing
    }
}

/// The size that the simulation takes when it is drawn into `render_width`
/// by `render_height` terminal cells, each of which shows two rows.
pub open spec fn sim_size(render_width: u16, render_height: u16) -> (int, int) {
    (render_width as int, 2 * render_height)
}

/// The size to give the simulation when its view has `render_width` by
/// `render_height` terminal cells, or nothing if it has that size already.
pub fn resize_sim(render_width: u16, render_height: u16, size: (usize, usize)) -> (target: Option<
    (usize, usize),
>)
    ensures
        target matches Some(new_size) ==> new_size.0 == sim_size(render_width, render_height).0
            && new_size.1 == sim_size(render_width, render_height).1,
        target is None <==> size.0 == sim_size(render_width, render_height).0 && size.1
            == sim_size(render_width, render_height).1,
{
    let width = render_width as usize;
    let height = 2 * (render_height as usize);
    if width != size.0 || height != size.1 {
        Some((width, height))
    } else {
        None
    }
}

/// The row that is selected after a step down from `selection`: the next
/// row, and the first row after the last or when none was selected.
pub open spec fn row_below(selection: Option<usize>) -> int {
    match selection {
        Some(i) => if i >= 3 {
            0
        } else {
            i + 1
        },
        None => 0,
    }
}

/// The row that is selected after a step up from `selection`: the row
/// before, the last row before the first, and the first row when none was
/// selected.
pub open spec fn row_above(selection: Option<usize>) -> int {
    match selection {
        Some(i) => if i == 0 {
            3
        } else {
            i - 1
        },
        None => 0,
    }
}

/// The setting in row `row` of the table.
pub open spec fn setting_in_row(row: int) -> Option<Setting> {
    if row == 0 {
        Some(Setting::Gravity)
    } else if row == 1 {
        Some(Setting::WindSpeed)
    } else if row == 2 {
        Some(Setting::SmokeSize)
    } else if row == 3 {
        Some(Setting::Density)
    } else {
        None
    }
}

/// The settings of a simulation together with the row of the settings table
/// that is selected.
pub struct AppConfig<T> {
    config: SimConfig<T>,
    current_selection: Option<usize>,
}

impl<T: Copy> AppConfig<T> {
    /// The settings.
    pub closed spec fn config(&self) -> SimConfig<T> {
        self.config
    }

    /// The selected row, if any.
    pub closed spec fn selection(&self) -> Option<usize> {
        self.current_selection
    }

    /// The selected setting, if a row that holds one is selected.
    pub open spec fn selected_setting(&self) -> Option<Setting> {
        match self.selection() {
            Some(row) => setting_in_row(row as int),
            None => None,
        }
    }

    /// The settings `config`, with no row selected.
    pub fn new(config: SimConfig<T>) -> (table: Self)
        ensures
            table.config() == config,
            table.selection() is None,
    {
        AppConfig { config, current_selection: None }
    }

    #[inline]
    pub fn get_gravity(&self) -> (gravity: T)
        ensures
            gravity == self.config().gravity,
    {
        self.config.gravity
    }

    #[inline]
    pub fn get_wind_speed(&self) -> (wind_speed: T)
        ensures
            wind_speed == self.config().wind_speed,
    {
        self.config.wind_speed
    }

    #[inline]
    pub fn get_smoke_size(&self) -> (smoke_size: T)
        ensures
            smoke_size == self.config().smoke_size,
    {
        self.config.smoke_size
    }

    #[inline]
    pub fn get_density(&self) -> (density: T)
        ensures
            density == self.config().density,
    {
        self.config.density
    }

    pub fn get_config(&self) -> (config: SimConfig<T>)
        ensures
            config == self.config(),
    {
        self.config
    }

    /// The selected row, if any.
    pub fn selected(&self) -> (row: Option<usize>)
        ensures
            row == self.selection(),
    {
        self.current_selection
    }

    /// The setting that a change applies to, if any.
    pub fn current_setting(&self) -> (setting: Option<Setting>)
        ensures
            setting == self.selected_setting(),
    {
        match self.current_selection {
            Some(0) => Some(Setting::Gravity),
            Some(1) => Some(Setting::WindSpeed),
            Some(2) => Some(Setting::SmokeSize),
            Some(3) => Some(Setting::Density),
            _ => None,
        }
    }

    /// Gives the selected setting the value `value`. With no setting
    /// selected nothing changes.
    pub fn set_selection(&mut self, value: T)
        ensures
            final(self).selection() == old(self).selection(),
            final(self).config() == match old(self).selected_setting() {
                Some(Setting::Gravity) => (SimConfig { gravity: value, ..old(self).config() }),
                Some(Setting::WindSpeed) => (SimConfig { wind_speed: value, ..old(self).config() }),
                Some(Setting::SmokeSize) => (SimConfig { smoke_size: value, ..old(self).config() }),
                Some(Setting::Density) => (SimConfig { density: value, ..old(self).config() }),
                None => old(self).config(),
            },
    {
        match self.current_setting() {
            Some(Setting::Gravity) => {
                self.config.gravity = value;
            },
            Some(Setting::WindSpeed) => {
                self.config.wind_speed = value;
            },
            Some(Setting::SmokeSize) => {
                self.config.smoke_size = value;
            },
            Some(Setting::Density) => {
                self.config.density = value;
            },
            None => {},
        }
    }

    /// Selects the row below, or the first row after the last.
    pub fn down_select(&mut self)
        ensures
            final(self).config() == old(self).config(),
            final(self).selection() matches Some(row) && row == row_below(old(self).selection()),
    {
        let i = match self.current_selection {
            Some(i) => {
                if i >= 3 {
                    0
                } else {
                    i + 1
                }
            },
            None => 0,
        };
        self.current_selection = Some(i);
    }

    /// Selects the row above, or the last row before the first.
    pub fn up_select(&mut self)
        ensures
            final(self).config() == old(self).config(),
            final(self).selection() matches Some(row) && row == row_above(old(self).selection()),
    {
        let i = match self.current_selection {
            Some(i) => {
                if i == 0 {
                    3
                } else {
                    i - 1
                }
            },
            None => 0,
        };
        self.current_selection = Some(i);
    }
}

/// The selected row after a command.
pub open spec fn selection_after(selection: Option<usize>, command: Command) -> Option<usize> {
    match command {
        Command::SelectUp => Some(row_above(selection) as usize),
        Command::SelectDown => Some(row_below(selection) as usize),
        _ => selection,
    }
}

/// Handles a key press in mode `state`. The quit key leaves. The tab key
/// starts the simulation afresh and switches between running and editing.
/// While the simulation runs, the up and down keys move the selection of
/// the settings table, and the left and right keys ask for a change of the
/// selected setting.
pub fn handle_key<T: Copy>(
    state: AppState,
    key: Key,
    sim: &mut FluidSim<T>,
    config: &mut AppConfig<T>,
) -> (outcome: KeyOutcome)
    requires
        old(sim).wf(),
    ensures
        outcome.state == state_after(state, key),
        outcome.command == command_of(outcome.state, key),
        final(sim).wf(),
        final(sim)@ == if key is Tab {
            SimState::fresh(
                old(sim)@.width,
                old(sim)@.height,
                old(sim)@.config,
                old(sim)@.scale,
                old(sim)@.smoke_rows,
            )
        } else {
            old(sim)@
        },
        final(config).config() == old(config).config(),
        final(config).selection() == selection_after(old(config).selection(), outcome.command),
{
    let next = match key {
        Key::Quit => AppState::Quit,
        Key::Tab => {
            sim.restart_sim();
            match state {
                AppState::Running => AppState::Editing,
                AppState::Editing => AppState::Running,
                _ => AppState::Running,
            }
        },
        _ => state,
    };
    let command = match next {
        AppState::Running => match key {
            Key::Up => Command::SelectUp,
            Key::Down => Command::SelectDown,
            Key::Left => Command::Reduce,
            Key::Right => Command::Increase,
            _ => Command::Nothing,
        },
        _ => Command::Nothing,
    };
    match command {
        Command::SelectUp => config.up_select(),
        Command::SelectDown => config.down_select(),
        _ => {},
    }
    KeyOutcome { state: next, command }
}

} // verus!

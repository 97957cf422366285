use vstd::prelude::*;

use crate::game::Grid;
use crate::patterns::{
    beacon, beacon_offsets, blinker, blinker_offsets, covers, glider, glider_offsets, pulsar,
    pulsar_offsets, toad, toad_offsets,
};

verus! {

/// Where the simulation is drawn.
#[derive(Debug, Clone, Copy, PartialEq, Eq, Structural)]
pub enum RenderMode {
    Terminal,
    Window,
}

/// The starting scene.
#[derive(Debug, Clone, Copy, PartialEq, Eq, Structural)]
pub enum Pattern {
    Random,
    Gliders,
    Oscillators,
    Pulsar,
}

/// What a run is set up with: where it is drawn, the starting scene, the grid's size in
/// cells and the size of a cell in pixels.
#[derive(Debug, Clone, Copy, PartialEq, Eq, Structural)]
pub struct Config {
    pub render_mode: RenderMode,
    pub pattern: Pattern,
    pub width: usize,
    pub height: usize,
    pub cell_size: u32,
}

/// Size used when the terminal's size cannot be read.
pub const DEFAULT_COLUMNS: usize = 80;

pub const DEFAULT_ROWS: usize = 40;

/// Terminal rows kept free of the grid, for the status lines.
pub const STATUS_ROWS: u16 = 3;

pub const DEFAULT_WINDOW_WIDTH: u32 = 1280;

pub const DEFAULT_WINDOW_HEIGHT: u32 = 720;

pub const DEFAULT_CELL_SIZE: u32 = 4;

pub const MIN_CELL_SIZE: u32 = 1;

pub const MAX_CELL_SIZE: u32 = 16;

/// The scene of a menu choice: 1 random, 2 gliders, 3 oscillators, 4 pulsar; any other
/// choice is random.
pub open spec fn pattern_of(choice: u32) -> Pattern {
    if choice == 2 {
        Pattern::Gliders
    } else if choice == 3 {
        Pattern::Oscillators
    } else if choice == 4 {
        Pattern::Pulsar
    } else {
        Pattern::Random
    }
}

/// Picks the starting scene from a menu choice.
pub fn pattern_from_choice(choice: u32) -> (r: Pattern)
    ensures
        r == pattern_of(choice),
{
    match choice {
        2 => Pattern::Gliders,
        3 => Pattern::Oscillators,
        4 => Pattern::Pulsar,
        _ => Pattern::Random,
    }
}

/// The terminal set-up: the grid takes the terminal's columns and its rows less the status
/// rows (none when the terminal is smaller), or a default size when the terminal's size is
/// unknown. `size` is `(columns, rows)`.
pub fn terminal_config(pattern: Pattern, size: Option<(u16, u16)>) -> (r: Config)
    ensures
        r.render_mode == RenderMode::Terminal,
        r.pattern == pattern,
        r.cell_size == 1,
        match size {
            Some((w, h)) => r.width == w && r.height == if h >= STATUS_ROWS { h - STATUS_ROWS } else { 0 },
            None => r.width == DEFAULT_COLUMNS && r.height == DEFAULT_ROWS,
        },
{
    let (width, height) = match size {
        Some((w, h)) => (w as usize, h.saturating_sub(STATUS_ROWS) as usize),
        None => (DEFAULT_COLUMNS, DEFAULT_ROWS),
    };
    Config { render_mode: RenderMode::Terminal, pattern, width, height, cell_size: 1 }
}

/// The cell size a window uses: the default when none was given, else the given one brought
/// into `[MIN_CELL_SIZE, MAX_CELL_SIZE]`.
pub open spec fn cell_size_of(cell_size: Option<u32>) -> u32 {
    match cell_size {
        None => DEFAULT_CELL_SIZE,
        Some(c) => if c < MIN_CELL_SIZE {
            MIN_CELL_SIZE
        } else if c > MAX_CELL_SIZE {
            MAX_CELL_SIZE
        } else {
            c
        },
    }
}

/// The window set-up from the window's size in pixels and the cell size, each `None` where
/// none was given: the grid has as many whole cells as fit in the window.
pub fn window_config(
    pattern: Pattern,
    window_width: Option<u32>,
    window_height: Option<u32>,
    cell_size: Option<u32>,
) -> (r: Config)
    ensures
        r.render_mode == RenderMode::Window,
        r.pattern == pattern,
        r.cell_size == cell_size_of(cell_size),
        r.width == window_width.unwrap_or(DEFAULT_WINDOW_WIDTH) / cell_size_of(cell_size),
        r.height == window_height.unwrap_or(DEFAULT_WINDOW_HEIGHT) / cell_size_of(cell_size),
{
    let w = match window_width {
        Some(w) => w,
        None => DEFAULT_WINDOW_WIDTH,
    };
    let h = match window_height {
        Some(h) => h,
        None => DEFAULT_WINDOW_HEIGHT,
    };
    let cell = match cell_size {
        None => DEFAULT_CELL_SIZE,
        Some(c) => if c < MIN_CELL_SIZE {
            MIN_CELL_SIZE
        } else if c > MAX_CELL_SIZE {
            MAX_CELL_SIZE
        } else {
            c
        },
    };
    Config {
        render_mode: RenderMode::Window,
        pattern,
        width: (w / cell) as usize,
        height: (h / cell) as usize,
        cell_size: cell,
    }
}

/// Whether the cell `(a, b)` is alive in the starting scene of `pattern`: three gliders at
/// (5, 5), (15, 10) and (25, 5); a blinker at (10, 10), a toad at (20, 10) and a beacon at
/// (30, 10); or a pulsar at (30, 10). The random scene has no fixed cells.
pub open spec fn in_scene(pattern: Pattern, a: int, b: int) -> bool {
    match pattern {
        Pattern::Random => false,
        Pattern::Gliders => covers(glider_offsets(), a - 5, b - 5)
            || covers(glider_offsets(), a - 15, b - 10)
            || covers(glider_offsets(), a - 25, b - 5),
        Pattern::Oscillators => covers(blinker_offsets(), a - 10, b - 10)
            || covers(toad_offsets(), a - 20, b - 10)
            || covers(beacon_offsets(), a - 30, b - 10),
        Pattern::Pulsar => covers(pulsar_offsets(), a - 30, b - 10),
    }
}

/// The starting grid of a run: the configured size, filled at random or with the chosen
/// scene, whose cells outside the grid are dropped.
pub fn initialize_grid(config: &Config) -> (r: Grid)
    ensures
        r.wf(),
        r.width == config.width,
        r.height == config.height,
        config.pattern != Pattern::Random ==> forall|a: int, b: int| #[trigger] r.alive(a, b)
            == (r.in_bounds(a, b) && in_scene(config.pattern, a, b)),
{
    let width = config.width;
    let height = config.height;
    match config.pattern {
        Pattern::Random => Grid::random(width, height),
        Pattern::Gliders => {
            let mut g = Grid::new(width, height);
            glider(&mut g, 5, 5);
            glider(&mut g, 15, 10);
            glider(&mut g, 25, 5);
            g
        },
        Pattern::Oscillators => {
            let mut g = Grid::new(width, height);
            blinker(&mut g, 10, 10);
            toad(&mut g, 20, 10);
            beacon(&mut g, 30, 10);
            g
        },
        Pattern::Pulsar => {
            let mut g = Grid::new(width, height);
            pulsar(&mut g, 30, 10);
            g
        },
    }
}

} // verus!

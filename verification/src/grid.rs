//! The playing field: a fixed rectangle of cells, stored row by row, each
//! holding one panel.

use vstd::prelude::*;
use rand::rngs::StdRng;
use crate::panel::{Direction, Panel, PanelType, PANEL_KINDS};
use crate::random::{draw_below, entropy_source};

verus! {

/// Number of columns.
pub const GRID_WIDTH: usize = 8;

/// Number of rows.
pub const GRID_HEIGHT: usize = 12;

/// Number of cells: `GRID_WIDTH` times `GRID_HEIGHT`.
pub const GRID_CELLS: usize = 96;

/// Why a lookup in the grid failed.
#[derive(Copy, Clone, Debug, PartialEq, Eq, Structural)]
pub enum GridError {
    /// The coordinates name no cell of the grid.
    OutOfBounds,
    /// The operating system had no entropy to seed a generator with.
    NoEntropy,
}

/// Whether `(x, y)` names a cell of the grid.
pub open spec fn in_bounds(x: int, y: int) -> bool {
    0 <= x < GRID_WIDTH && 0 <= y < GRID_HEIGHT
}

/// The place of cell `(x, y)` in row-major order.
pub open spec fn spec_cell_index(x: int, y: int) -> int {
    y * GRID_WIDTH + x
}

/// The column of the cell stored at `index`.
pub open spec fn cell_x(index: int) -> int {
    index % (GRID_WIDTH as int)
}

/// The row of the cell stored at `index`.
pub open spec fn cell_y(index: int) -> int {
    index / (GRID_WIDTH as int)
}

/// What holds of the panel stored at `index` in a grid that was just filled:
/// it has a kind, is not flipped, and carries the coordinates of its cell.
pub open spec fn fresh_cell(panel: Panel, index: int) -> bool {
    &&& panel.kind != PanelType::Empty
    &&& panel.flip_direction == Direction::Neutral
    &&& panel.x == cell_x(index)
    &&& panel.y == cell_y(index)
}

/// The place of cell `(x, y)` in row-major order, or `OutOfBounds` when a
/// coordinate is negative or beyond the last column or row.
pub fn cell_index(x: i32, y: i32) -> (result: Result<usize, GridError>)
    ensures
        match result {
            Ok(index) => in_bounds(x as int, y as int) && index == spec_cell_index(
                x as int,
                y as int,
            ) && index < GRID_CELLS,
            Err(error) => !in_bounds(x as int, y as int) && error == GridError::OutOfBounds,
        },
{
    if x < 0 || y < 0 {
        return Err(GridError::OutOfBounds);
    }
    let column: usize = x as usize;
    let row: usize = y as usize;
    if column >= GRID_WIDTH || row >= GRID_HEIGHT {
        return Err(GridError::OutOfBounds);
    }
    Ok(row * GRID_WIDTH + column)
}

/// The grid has as many places as it has cells.
pub proof fn lemma_grid_cells()
    ensures
        GRID_CELLS == GRID_WIDTH * GRID_HEIGHT,
{
}

/// Every cell of the grid has a place among the first `GRID_CELLS`.
pub proof fn lemma_cell_index_in_range(x: int, y: int)
    requires
        in_bounds(x, y),
    ensures
        0 <= spec_cell_index(x, y) < GRID_CELLS,
{
}

/// No two cells of the grid share a place.
pub proof fn lemma_cell_index_injective(x1: int, y1: int, x2: int, y2: int)
    requires
        in_bounds(x1, y1),
        in_bounds(x2, y2),
        spec_cell_index(x1, y1) == spec_cell_index(x2, y2),
    ensures
        x1 == x2,
        y1 == y2,
{
}

/// Every one of the first `GRID_CELLS` places is the place of a cell of the
/// grid, namely of the cell in column `cell_x` and row `cell_y` of that place.
pub proof fn lemma_cell_index_surjective(index: int)
    requires
        0 <= index < GRID_CELLS,
    ensures
        in_bounds(cell_x(index), cell_y(index)),
        spec_cell_index(cell_x(index), cell_y(index)) == index,
{
}

/// A cell's column and row are found again from its place.
pub proof fn lemma_cell_coordinates(x: int, y: int)
    requires
        in_bounds(x, y),
    ensures
        cell_x(spec_cell_index(x, y)) == x,
        cell_y(spec_cell_index(x, y)) == y,
{
}

/// Draws the kind of one cell. It is one of the six kinds, never `Empty`.
pub fn get_random_panel_type(source: &mut StdRng) -> (kind: PanelType)
    ensures
        kind != PanelType::Empty,
{
    let id: usize = draw_below(source, PANEL_KINDS);
    PanelType::from_index(id)
}

/// A panel of a drawn kind for cell `(x, y)`, not flipped.
pub fn init_random_panel(source: &mut StdRng, x: i32, y: i32) -> (panel: Panel)
    ensures
        panel.kind != PanelType::Empty,
        panel.flip_direction == Direction::Neutral,
        panel.x == x,
        panel.y == y,
{
    let kind = get_random_panel_type(source);
    Panel::new(kind, x, y)
}

/// The grid. Cell `(x, y)` is stored at `spec_cell_index(x, y)`.
pub struct Grid {
    cells: Vec<Panel>,
}

impl View for Grid {
    type V = Seq<Panel>;

    /// The panels in row-major order.
    closed spec fn view(&self) -> Seq<Panel> {
        self.cells@
    }
}

impl Grid {
    /// The grid has one panel for each cell, and each panel carries the
    /// coordinates of the cell it is stored at.
    pub open spec fn wf(&self) -> bool {
        &&& self@.len() == GRID_CELLS
        &&& forall|i: int|
            0 <= i < self@.len() ==> (#[trigger] self@[i]).x == cell_x(i) && self@[i].y == cell_y(i)
    }

    /// No cell is empty.
    pub open spec fn populated(&self) -> bool {
        forall|i: int| 0 <= i < self@.len() ==> (#[trigger] self@[i]).kind != PanelType::Empty
    }

    /// Every cell is as `fresh_cell` describes.
    pub open spec fn fresh(&self) -> bool {
        &&& self@.len() == GRID_CELLS
        &&& forall|i: int| 0 <= i < self@.len() ==> fresh_cell(#[trigger] self@[i], i)
    }

    /// The panel in cell `(x, y)`, or `OutOfBounds` when the grid has no such
    /// cell.
    pub fn get(&self, x: i32, y: i32) -> (result: Result<Panel, GridError>)
        requires
            self.wf(),
        ensures
            match result {
                Ok(panel) => in_bounds(x as int, y as int) && panel == self@[spec_cell_index(
                    x as int,
                    y as int,
                )] && panel.x == x && panel.y == y,
                Err(error) => !in_bounds(x as int, y as int) && error == GridError::OutOfBounds,
            },
    {
        match cell_index(x, y) {
            Ok(index) => Ok(self.cells[index]),
            Err(error) => Err(error),
        }
    }

    /// All panels, row by row.
    pub fn cells(&self) -> (cells: &Vec<Panel>)
        ensures
            cells@ == self@,
    {
        &self.cells
    }
}

/// The grid that a sequence of drawn numbers stands for: the cell stored at
/// place `i` gets the kind that the `i`-th number selects, is not flipped, and
/// carries the coordinates of its cell.
pub fn grid_from_draws(draws: &Vec<usize>) -> (grid: Grid)
    requires
        draws@.len() == GRID_CELLS,
        forall|i: int| 0 <= i < GRID_CELLS ==> draws@[i] < PANEL_KINDS,
    ensures
        grid.fresh(),
        grid.wf(),
        grid.populated(),
        forall|i: int|
            0 <= i < GRID_CELLS ==> (#[trigger] grid@[i]).kind == PanelType::spec_from_index(
                draws@[i] as int,
            ),
{
    let mut cells: Vec<Panel> = Vec::new();
    let mut y: usize = 0;
    while y < GRID_HEIGHT
        invariant
            y <= GRID_HEIGHT,
            draws@.len() == GRID_CELLS,
            forall|i: int| 0 <= i < GRID_CELLS ==> draws@[i] < PANEL_KINDS,
            cells@.len() == y * GRID_WIDTH,
            forall|i: int| 0 <= i < cells@.len() ==> fresh_cell(#[trigger] cells@[i], i),
            forall|i: int|
                0 <= i < cells@.len() ==> (#[trigger] cells@[i]).kind
                    == PanelType::spec_from_index(draws@[i] as int),
        decreases GRID_HEIGHT - y,
    {
        let mut x: usize = 0;
        while x < GRID_WIDTH
            invariant
                y < GRID_HEIGHT,
                x <= GRID_WIDTH,
                draws@.len() == GRID_CELLS,
                forall|i: int| 0 <= i < GRID_CELLS ==> draws@[i] < PANEL_KINDS,
                cells@.len() == y * GRID_WIDTH + x,
                forall|i: int| 0 <= i < cells@.len() ==> fresh_cell(#[trigger] cells@[i], i),
                forall|i: int|
                    0 <= i < cells@.len() ==> (#[trigger] cells@[i]).kind
                        == PanelType::spec_from_index(draws@[i] as int),
            decreases GRID_WIDTH - x,
        {
            let kind = PanelType::from_index(draws[y * GRID_WIDTH + x]);
            cells.push(Panel::new(kind, x as i32, y as i32));
            x = x + 1;
        }
        y = y + 1;
    }
    Grid { cells }
}

/// A grid filled from `source`: one number is drawn for each cell, row by row,
/// and the grid is the one that `grid_from_draws` gives for those numbers.
pub fn build_random_grid_with(source: &mut StdRng) -> (grid: Grid)
    ensures
        grid.fresh(),
        grid.wf(),
        grid.populated(),
{
    let mut draws: Vec<usize> = Vec::new();
    while draws.len() < GRID_CELLS
        invariant
            draws@.len() <= GRID_CELLS,
            forall|i: int| 0 <= i < draws@.len() ==> draws@[i] < PANEL_KINDS,
        decreases GRID_CELLS - draws@.len(),
    {
        let id: usize = draw_below(source, PANEL_KINDS);
        draws.push(id);
    }
    grid_from_draws(&draws)
}

/// A grid filled from a generator that the operating system seeds, or
/// `NoEntropy` where the operating system could not seed one.
pub fn build_random_grid() -> (result: Result<Grid, GridError>)
    ensures
        match result {
            Ok(grid) => grid.fresh() && grid.wf() && grid.populated(),
            Err(error) => error == GridError::NoEntropy,
        },
{
    match entropy_source() {
        Some(mut source) => Ok(build_random_grid_with(&mut source)),
        None => Err(GridError::NoEntropy),
    }
}

/// A grid that was just filled is well formed and has no empty cell.
pub proof fn lemma_fresh_grid(grid: Grid)
    requires
        grid.fresh(),
    ensures
        grid.wf(),
        grid.populated(),
{
}

} // verus!

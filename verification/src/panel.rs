//! Panels: their kinds, their flip directions, and where they sit on screen.

use vstd::prelude::*;

verus! {

/// Screen width in pixels.
pub const SCREEN_WIDTH: i32 = 640;

/// Screen height in pixels.
pub const SCREEN_HEIGHT: i32 = 480;

/// Width of one panel in pixels: a sixteenth of the screen width.
pub const PANEL_WIDTH: i32 = 40;

/// Height of one panel in pixels: a sixteenth of the screen height.
pub const PANEL_HEIGHT: i32 = 30;

/// Sprite numbers in the sprite sheet.
pub const HEART_PANEL: usize = 0;

pub const DIAMOND_PANEL: usize = 1;

pub const STAR_PANEL: usize = 2;

pub const SQUARE_PANEL: usize = 3;

pub const TRIANGLE_PANEL: usize = 4;

pub const INVERTED_TRIANGLE_PANEL: usize = 5;

pub const P1_CURSOR: usize = 6;

pub const P1_CURSOR_2: usize = 7;

/// Sprite number reported for a panel that has no skin.
pub const MISSING_TEXTURE: usize = 99999;

/// How many kinds of panel a cell can be filled with.
pub const PANEL_KINDS: usize = 6;

/// A direction, used both as a panel's flip attribute and as a movement
/// command. `Neutral` stands for "no direction".
#[derive(Copy, Clone, Debug, PartialEq, Eq, Structural)]
pub enum Direction {
    Up,
    Down,
    Left,
    Right,
    Neutral,
}

/// The skin of a panel. `Empty` marks a cell that holds no panel; it is never
/// chosen when a cell is filled.
#[derive(Copy, Clone, Debug, PartialEq, Eq, Structural)]
pub enum PanelType {
    Heart,
    Diamond,
    Square,
    Star,
    Triangle,
    InvertedTriangle,
    Empty,
}

impl PanelType {
    /// The kind that a drawn number selects: the six kinds in their fixed
    /// order. Of a number that is no drawn number, nothing is said.
    pub open spec fn spec_from_index(id: int) -> PanelType
        recommends
            0 <= id < PANEL_KINDS,
    {
        if id == 0 {
            PanelType::Heart
        } else if id == 1 {
            PanelType::Diamond
        } else if id == 2 {
            PanelType::Square
        } else if id == 3 {
            PanelType::Star
        } else if id == 4 {
            PanelType::Triangle
        } else if id == 5 {
            PanelType::InvertedTriangle
        } else {
            arbitrary()
        }
    }

    /// The sprite number of each kind.
    pub open spec fn spec_texture_id(self) -> int {
        match self {
            PanelType::Heart => HEART_PANEL as int,
            PanelType::Diamond => DIAMOND_PANEL as int,
            PanelType::Square => SQUARE_PANEL as int,
            PanelType::Star => STAR_PANEL as int,
            PanelType::Triangle => TRIANGLE_PANEL as int,
            PanelType::InvertedTriangle => INVERTED_TRIANGLE_PANEL as int,
            PanelType::Empty => MISSING_TEXTURE as int,
        }
    }

    /// Maps a drawn number to a kind. A number from `PANEL_KINDS` up is no
    /// drawn number and must not be handed in.
    pub fn from_index(id: usize) -> (kind: PanelType)
        requires
            id < PANEL_KINDS,
        ensures
            kind == Self::spec_from_index(id as int),
            kind != PanelType::Empty,
    {
        match id {
            0 => PanelType::Heart,
            1 => PanelType::Diamond,
            2 => PanelType::Square,
            3 => PanelType::Star,
            4 => PanelType::Triangle,
            5 => PanelType::InvertedTriangle,
            _ => unreached(),
        }
    }

    /// The sprite number that shows this kind.
    pub fn texture_id(self) -> (id: usize)
        ensures
            id == self.spec_texture_id(),
    {
        match self {
            PanelType::Heart => HEART_PANEL,
            PanelType::Diamond => DIAMOND_PANEL,
            PanelType::Square => SQUARE_PANEL,
            PanelType::Star => STAR_PANEL,
            PanelType::Triangle => TRIANGLE_PANEL,
            PanelType::InvertedTriangle => INVERTED_TRIANGLE_PANEL,
            PanelType::Empty => MISSING_TEXTURE,
        }
    }
}

/// One panel: its kind, its flip attribute, and the grid cell it sits in.
/// `x` and `y` count cells, not pixels.
#[derive(Copy, Clone, Debug, PartialEq, Eq, Structural)]
pub struct Panel {
    pub kind: PanelType,
    pub flip_direction: Direction,
    pub x: i32,
    pub y: i32,
}

impl Panel {
    /// A panel of the given kind in cell `(x, y)`, not flipped.
    pub fn new(kind: PanelType, x: i32, y: i32) -> (panel: Panel)
        ensures
            panel == (Panel { kind, flip_direction: Direction::Neutral, x, y }),
    {
        Panel { kind, flip_direction: Direction::Neutral, x, y }
    }

    /// The sprite number that shows this panel.
    pub fn get_texture_id(&self) -> (id: usize)
        ensures
            id == self.kind.spec_texture_id(),
    {
        self.kind.texture_id()
    }

    /// The panel's horizontal position in pixels.
    pub fn get_pixel_x(&self) -> (px: i64)
        ensures
            px == self.x * PANEL_WIDTH,
    {
        (self.x as i64) * (PANEL_WIDTH as i64)
    }

    /// The panel's vertical position in pixels.
    pub fn get_pixel_y(&self) -> (py: i64)
        ensures
            py == self.y * PANEL_HEIGHT,
    {
        (self.y as i64) * (PANEL_HEIGHT as i64)
    }

    /// The panel's position in pixels: its cell coordinates scaled by the size
    /// of a panel.
    pub fn pixel_position(&self) -> (position: (i64, i64))
        ensures
            position.0 == self.x * PANEL_WIDTH,
            position.1 == self.y * PANEL_HEIGHT,
    {
        (self.get_pixel_x(), self.get_pixel_y())
    }

    /// The panel that the player controls when the game starts: a heart, not
    /// flipped, at half the screen's width and height.
    pub fn controlled_at_start() -> (panel: Panel)
        ensures
            panel == (Panel {
                kind: PanelType::Heart,
                flip_direction: Direction::Neutral,
                x: 320,
                y: 240,
            }),
            panel.x * 2 == SCREEN_WIDTH,
            panel.y * 2 == SCREEN_HEIGHT,
    {
        Panel {
            kind: PanelType::Heart,
            flip_direction: Direction::Neutral,
            x: SCREEN_WIDTH / 2,
            y: SCREEN_HEIGHT / 2,
        }
    }
}

/// A panel is a sixteenth of the screen in each dimension, with nothing left
/// over.
pub proof fn lemma_panel_size()
    ensures
        PANEL_WIDTH == 40,
        PANEL_HEIGHT == 30,
        PANEL_WIDTH * 16 == SCREEN_WIDTH,
        PANEL_HEIGHT * 16 == SCREEN_HEIGHT,
{
}

} // verus!

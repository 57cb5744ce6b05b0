//! The move resolver: turns the directional keys pressed in a tick into the
//! offset by which the controlled panel moves, and keeps the cooldown timer.
//!
//! Time is counted in whole microseconds.

use vstd::prelude::*;
use crate::panel::{Direction, PanelType, PANEL_HEIGHT, PANEL_WIDTH};

verus! {

/// The value that the cooldown timer takes when a move is accepted, in
/// microseconds.
pub const TIME_BETWEEN_MOVES: i64 = 300_000;

/// Which of the four directional keys went down in this tick.
#[derive(Copy, Clone, Debug, PartialEq, Eq)]
pub struct PressedKeys {
    pub left: bool,
    pub right: bool,
    pub up: bool,
    pub down: bool,
}

/// What one tick asks of the presentation layer: the offset to add to the
/// controlled panel's position, in pixels, and the skin to show it with, if
/// the skin changes.
#[derive(Copy, Clone, Debug, PartialEq, Eq)]
pub struct MoveResult {
    pub offset: (i32, i32),
    pub sprite_variant: Option<PanelType>,
}

/// The horizontal offset that a command moves the panel by.
pub open spec fn offset_x(input: Direction) -> int {
    match input {
        Direction::Left => -PANEL_WIDTH,
        Direction::Right => PANEL_WIDTH as int,
        _ => 0,
    }
}

/// The vertical offset that a command moves the panel by.
pub open spec fn offset_y(input: Direction) -> int {
    match input {
        Direction::Up => PANEL_HEIGHT as int,
        Direction::Down => -PANEL_HEIGHT,
        _ => 0,
    }
}

/// The skin that a command gives the panel; `None` where it keeps its skin.
pub open spec fn variant_for(input: Direction) -> Option<PanelType> {
    match input {
        Direction::Left => Some(PanelType::Heart),
        Direction::Right => Some(PanelType::Triangle),
        Direction::Up => Some(PanelType::Star),
        Direction::Down => Some(PanelType::InvertedTriangle),
        Direction::Neutral => None,
    }
}

/// The timer after a tick of `delta` microseconds in which no move was
/// accepted: it runs down, below zero too, and stops at the least value that
/// it can hold.
pub open spec fn timer_run_down(timer: int, delta: int) -> int {
    if timer - delta < i64::MIN {
        i64::MIN as int
    } else {
        timer - delta
    }
}

/// The timer after a tick of `delta` microseconds with command `input`.
pub open spec fn timer_after(timer: int, delta: int, input: Direction) -> int {
    if input == Direction::Neutral {
        timer_run_down(timer, delta)
    } else {
        TIME_BETWEEN_MOVES as int
    }
}

impl PressedKeys {
    /// The command that a set of pressed keys stands for: the first pressed
    /// one in the order left, right, up, down.
    pub open spec fn spec_direction(self) -> Direction {
        if self.left {
            Direction::Left
        } else if self.right {
            Direction::Right
        } else if self.up {
            Direction::Up
        } else if self.down {
            Direction::Down
        } else {
            Direction::Neutral
        }
    }

    /// Picks the one command of this tick. When several keys went down
    /// together, left wins over right, right over up, and up over down.
    pub fn direction(&self) -> (input: Direction)
        ensures
            input == self.spec_direction(),
            self.left ==> input == Direction::Left,
            (input == Direction::Neutral) <==> !(self.left || self.right || self.up || self.down),
    {
        if self.left {
            Direction::Left
        } else if self.right {
            Direction::Right
        } else if self.up {
            Direction::Up
        } else if self.down {
            Direction::Down
        } else {
            Direction::Neutral
        }
    }
}

/// The move resolver. It owns the cooldown timer and nothing else.
pub struct MovePanelSystem {
    move_timer: i64,
}

impl MovePanelSystem {
    /// The cooldown timer, in microseconds.
    pub closed spec fn timer(&self) -> int {
        self.move_timer as int
    }

    /// The cooldown timer, in microseconds. It is negative once more time has
    /// passed since the last move than `TIME_BETWEEN_MOVES`.
    pub fn move_timer(&self) -> (t: i64)
        ensures
            t == self.timer(),
    {
        self.move_timer
    }

    /// One tick: `delta_time` microseconds have passed and `input` is the
    /// command of this tick.
    ///
    /// A command other than `Neutral` is always accepted, whatever the timer
    /// holds: the panel moves by one panel size in that direction, takes the
    /// skin that goes with the direction, and the timer starts again from
    /// `TIME_BETWEEN_MOVES`. With `Neutral` nothing moves, the skin stays and
    /// the timer runs down by `delta_time`.
    pub fn advance(&mut self, delta_time: u64, input: Direction) -> (result: MoveResult)
        ensures
            result.offset.0 == offset_x(input),
            result.offset.1 == offset_y(input),
            result.sprite_variant == variant_for(input),
            final(self).timer() == timer_after(old(self).timer(), delta_time as int, input),
            input != Direction::Neutral ==> final(self).timer() == TIME_BETWEEN_MOVES,
            input == Direction::Neutral ==> result.offset == (0i32, 0i32)
                && result.sprite_variant.is_none(),
    {
        self.move_timer = match self.move_timer.checked_sub_unsigned(delta_time) {
            Some(left) => left,
            None => i64::MIN,
        };
        let mut dx: i32 = 0;
        let mut dy: i32 = 0;
        let mut sprite_variant: Option<PanelType> = None;
        match input {
            Direction::Left => {
                dx = dx - PANEL_WIDTH;
                self.move_timer = TIME_BETWEEN_MOVES;
                sprite_variant = Some(PanelType::Heart);
            },
            Direction::Right => {
                dx = dx + PANEL_WIDTH;
                self.move_timer = TIME_BETWEEN_MOVES;
                sprite_variant = Some(PanelType::Triangle);
            },
            Direction::Up => {
                dy = dy + PANEL_HEIGHT;
                self.move_timer = TIME_BETWEEN_MOVES;
                sprite_variant = Some(PanelType::Star);
            },
            Direction::Down => {
                dy = dy - PANEL_HEIGHT;
                self.move_timer = TIME_BETWEEN_MOVES;
                sprite_variant = Some(PanelType::InvertedTriangle);
            },
            Direction::Neutral => {},
        }
        MoveResult { offset: (dx, dy), sprite_variant }
    }
}

/// When the left key went down, the tick moves the panel one panel width to
/// the left and nowhere else, whichever other keys went down with it.
pub proof fn lemma_left_wins(keys: PressedKeys)
    requires
        keys.left,
    ensures
        keys.spec_direction() == Direction::Left,
        offset_x(keys.spec_direction()) == -PANEL_WIDTH,
        offset_y(keys.spec_direction()) == 0,
        variant_for(keys.spec_direction()) == Some(PanelType::Heart),
{
}

/// A key decides the command of a tick exactly when no key before it in the
/// order left, right, up, down went down too.
pub proof fn lemma_key_priority(keys: PressedKeys)
    ensures
        keys.spec_direction() == Direction::Left <==> keys.left,
        keys.spec_direction() == Direction::Right <==> !keys.left && keys.right,
        keys.spec_direction() == Direction::Up <==> !keys.left && !keys.right && keys.up,
        keys.spec_direction() == Direction::Down <==> !keys.left && !keys.right && !keys.up
            && keys.down,
        keys.spec_direction() == Direction::Neutral <==> !keys.left && !keys.right && !keys.up
            && !keys.down,
{
}

/// A tick moves the panel along one axis at most, and by one panel size.
pub proof fn lemma_single_offset(input: Direction)
    ensures
        offset_x(input) == 0 || offset_y(input) == 0,
        offset_x(input) == 0 || offset_x(input) == PANEL_WIDTH || offset_x(input) == -PANEL_WIDTH,
        offset_y(input) == 0 || offset_y(input) == PANEL_HEIGHT || offset_y(input)
            == -PANEL_HEIGHT,
        (offset_x(input) == 0 && offset_y(input) == 0) <==> input == Direction::Neutral,
{
}

/// Whatever the timer held and however long the tick was, an accepted move
/// leaves the timer at `TIME_BETWEEN_MOVES`.
pub proof fn lemma_cooldown_reset(timer: int, delta: int, input: Direction)
    requires
        input != Direction::Neutral,
    ensures
        timer_after(timer, delta, input) == TIME_BETWEEN_MOVES,
{
}

impl Default for MovePanelSystem {
    /// A resolver whose timer holds `TIME_BETWEEN_MOVES`.
    fn default() -> (system: MovePanelSystem)
        ensures
            system.timer() == TIME_BETWEEN_MOVES,
    {
        MovePanelSystem { move_timer: TIME_BETWEEN_MOVES }
    }
}

} // verus!

use panel_puzzle::movement::{MovePanelSystem, MoveResult, PressedKeys, TIME_BETWEEN_MOVES};
use panel_puzzle::panel::{Direction, PanelType};

fn keys(left: bool, right: bool, up: bool, down: bool) -> PressedKeys {
    PressedKeys { left, right, up, down }
}

#[test]
fn timer_starts_at_the_time_between_moves() {
    let system = MovePanelSystem::default();
    assert_eq!(TIME_BETWEEN_MOVES, 300_000);
    assert_eq!(system.move_timer(), 300_000);
}

#[test]
fn idle_tick_moves_nothing() {
    let mut system = MovePanelSystem::default();
    let result = system.advance(100_000, Direction::Neutral);
    assert_eq!(result.offset, (0, 0));
    assert_eq!(result.sprite_variant, None);
    assert_eq!(system.move_timer(), 200_000);
}

#[test]
fn left_then_idle() {
    let mut system = MovePanelSystem::default();
    let first = system.advance(50_000, Direction::Left);
    assert_eq!(first.offset, (-40, 0));
    assert_eq!(first.sprite_variant, Some(PanelType::Heart));
    assert_eq!(system.move_timer(), 300_000);
    let second = system.advance(50_000, Direction::Neutral);
    assert_eq!(second.offset, (0, 0));
    assert_eq!(second.sprite_variant, None);
    assert_eq!(system.move_timer(), 250_000);
}

#[test]
fn each_direction_has_its_offset_and_skin() {
    let mut system = MovePanelSystem::default();
    assert_eq!(
        system.advance(1, Direction::Left),
        MoveResult { offset: (-40, 0), sprite_variant: Some(PanelType::Heart) }
    );
    assert_eq!(
        system.advance(1, Direction::Right),
        MoveResult { offset: (40, 0), sprite_variant: Some(PanelType::Triangle) }
    );
    assert_eq!(
        system.advance(1, Direction::Up),
        MoveResult { offset: (0, 30), sprite_variant: Some(PanelType::Star) }
    );
    assert_eq!(
        system.advance(1, Direction::Down),
        MoveResult { offset: (0, -30), sprite_variant: Some(PanelType::InvertedTriangle) }
    );
    assert_eq!(
        system.advance(1, Direction::Neutral),
        MoveResult { offset: (0, 0), sprite_variant: None }
    );
}

#[test]
fn accepted_move_resets_the_timer_whatever_it_held() {
    for input in [Direction::Left, Direction::Right, Direction::Up, Direction::Down] {
        let mut system = MovePanelSystem::default();
        system.advance(123_456, Direction::Neutral);
        assert_eq!(system.move_timer(), 176_544);
        system.advance(7, input);
        assert_eq!(system.move_timer(), 300_000);

        let mut late = MovePanelSystem::default();
        late.advance(5_000_000, Direction::Neutral);
        assert_eq!(late.move_timer(), -4_700_000);
        late.advance(u64::MAX, input);
        assert_eq!(late.move_timer(), 300_000);
    }
}

#[test]
fn moves_are_accepted_while_the_timer_still_runs() {
    let mut system = MovePanelSystem::default();
    let first = system.advance(1_000, Direction::Right);
    let second = system.advance(1_000, Direction::Right);
    assert_eq!(first.offset, (40, 0));
    assert_eq!(second.offset, (40, 0));
    assert_eq!(system.move_timer(), 300_000);
}

#[test]
fn timer_runs_below_zero() {
    let mut system = MovePanelSystem::default();
    system.advance(300_000, Direction::Neutral);
    assert_eq!(system.move_timer(), 0);
    system.advance(1, Direction::Neutral);
    assert_eq!(system.move_timer(), -1);
    system.advance(0, Direction::Neutral);
    assert_eq!(system.move_timer(), -1);
}

#[test]
fn timer_stops_at_the_least_value() {
    let mut system = MovePanelSystem::default();
    system.advance(u64::MAX, Direction::Neutral);
    assert_eq!(system.move_timer(), i64::MIN);
    system.advance(1, Direction::Neutral);
    assert_eq!(system.move_timer(), i64::MIN);

    let mut edge = MovePanelSystem::default();
    edge.advance(9_223_372_036_854_775_808u64 + 300_000, Direction::Neutral);
    assert_eq!(edge.move_timer(), i64::MIN);

    let mut above = MovePanelSystem::default();
    above.advance(9_223_372_036_854_775_808u64 + 299_999, Direction::Neutral);
    assert_eq!(above.move_timer(), i64::MIN + 1);
}

#[test]
fn left_wins_over_right() {
    let pressed = keys(true, true, false, false);
    assert_eq!(pressed.direction(), Direction::Left);
    let mut system = MovePanelSystem::default();
    let result = system.advance(16_667, pressed.direction());
    assert_eq!(result.offset, (-40, 0));
    assert_eq!(result.sprite_variant, Some(PanelType::Heart));
}

#[test]
fn keys_are_taken_in_the_order_left_right_up_down() {
    assert_eq!(keys(false, false, false, false).direction(), Direction::Neutral);
    assert_eq!(keys(true, false, false, false).direction(), Direction::Left);
    assert_eq!(keys(false, true, false, false).direction(), Direction::Right);
    assert_eq!(keys(false, false, true, false).direction(), Direction::Up);
    assert_eq!(keys(false, false, false, true).direction(), Direction::Down);
    assert_eq!(keys(true, true, true, true).direction(), Direction::Left);
    assert_eq!(keys(false, true, true, true).direction(), Direction::Right);
    assert_eq!(keys(false, false, true, true).direction(), Direction::Up);
    assert_eq!(keys(true, false, false, true).direction(), Direction::Left);
    assert_eq!(keys(false, true, false, true).direction(), Direction::Right);
}

#[test]
fn a_tick_moves_along_one_axis_only() {
    for left in [false, true] {
        for right in [false, true] {
            for up in [false, true] {
                for down in [false, true] {
                    let mut system = MovePanelSystem::default();
                    let result = system.advance(10, keys(left, right, up, down).direction());
                    assert!(result.offset.0 == 0 || result.offset.1 == 0);
                    let moved = result.offset != (0, 0);
                    assert_eq!(moved, left || right || up || down);
                    assert_eq!(result.sprite_variant.is_some(), moved);
                }
            }
        }
    }
}

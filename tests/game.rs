use snake_game::control::{next_frame, InputController, Key, FRAMES_PER_TICK};
use snake_game::game_context::{unit_vector, GameContext, GameState, PlayerDirection};
use snake_game::geometry::Point;
use snake_game::layout::{background_rgb, cell_rect, WINDOW_HEIGHT, WINDOW_WIDTH};

fn playing(body: Vec<Point>, direction: PlayerDirection, food: Point) -> GameContext {
    GameContext {
        player_position: body,
        player_direction: direction,
        food,
        state: GameState::Playing,
    }
}

fn contiguous(body: &[Point]) -> bool {
    body.windows(2)
        .all(|w| (w[0].0 - w[1].0).abs() + (w[0].1 - w[1].1).abs() == 1)
}

#[test]
fn new_game_is_paused_heading_right() {
    let c = GameContext::new();
    assert_eq!(c.player_position, vec![Point(3, 1), Point(2, 1), Point(1, 1)]);
    assert_eq!(c.player_direction, PlayerDirection::Right);
    assert_eq!(c.food, Point(3, 3));
    assert_eq!(c.state, GameState::Paused);
}

#[test]
fn point_addition_is_componentwise() {
    assert_eq!(Point(3, -2) + Point(-5, 7), Point(-2, 5));
    assert_eq!(Point(0, 0) + Point(0, 0), Point(0, 0));
}

#[test]
fn unit_vectors_move_one_cell() {
    let p = Point(10, 10);
    assert_eq!(p + unit_vector(PlayerDirection::Up), Point(10, 9));
    assert_eq!(p + unit_vector(PlayerDirection::Down), Point(10, 11));
    assert_eq!(p + unit_vector(PlayerDirection::Right), Point(11, 10));
    assert_eq!(p + unit_vector(PlayerDirection::Left), Point(9, 10));
}

#[test]
fn toggle_pause_twice_restores_lifecycle() {
    let mut c = GameContext::new();
    c.toggle_pause();
    assert_eq!(c.state, GameState::Playing);
    c.toggle_pause();
    assert_eq!(c.state, GameState::Paused);
}

#[test]
fn tick_while_paused_changes_nothing() {
    let mut c = GameContext::new();
    c.next_tick();
    assert_eq!(c.player_position, vec![Point(3, 1), Point(2, 1), Point(1, 1)]);
    assert_eq!(c.player_direction, PlayerDirection::Right);
    assert_eq!(c.food, Point(3, 3));
    assert_eq!(c.state, GameState::Paused);
}

#[test]
fn tick_without_food_shifts_body() {
    let body = vec![Point(5, 5), Point(5, 6), Point(5, 7), Point(6, 7)];
    let mut c = playing(body.clone(), PlayerDirection::Left, Point(0, 0));
    c.next_tick();
    assert_eq!(c.player_position.len(), body.len());
    assert_eq!(c.player_position[0], Point(4, 5));
    assert_eq!(*c.player_position.last().unwrap(), body[body.len() - 2]);
}

#[test]
fn tick_onto_food_grows_one_step_further() {
    let mut c = playing(
        vec![Point(3, 1), Point(2, 1), Point(1, 1)],
        PlayerDirection::Right,
        Point(4, 1),
    );
    c.next_tick();
    assert_eq!(c.player_position, vec![Point(5, 1), Point(4, 1), Point(3, 1), Point(2, 1)]);
    assert_eq!(c.food, Point(4, 1));
}

#[test]
fn tick_missing_food_keeps_length() {
    let mut c = playing(
        vec![Point(3, 1), Point(2, 1), Point(1, 1)],
        PlayerDirection::Right,
        Point(9, 9),
    );
    c.next_tick();
    assert_eq!(c.player_position, vec![Point(4, 1), Point(3, 1), Point(2, 1)]);
}

#[test]
fn tick_upward_decreases_row() {
    let mut c = playing(vec![Point(2, 2), Point(1, 2)], PlayerDirection::Up, Point(9, 9));
    c.next_tick();
    assert_eq!(c.player_position, vec![Point(2, 1), Point(2, 2)]);
}

#[test]
fn single_segment_body_moves() {
    let mut c = playing(vec![Point(0, 0)], PlayerDirection::Down, Point(9, 9));
    c.next_tick();
    assert_eq!(c.player_position, vec![Point(0, 1)]);
}

#[test]
fn moves_set_direction_only() {
    let mut c = GameContext::new();
    c.move_up();
    assert_eq!(c.player_direction, PlayerDirection::Up);
    c.move_left();
    assert_eq!(c.player_direction, PlayerDirection::Left);
    c.move_down();
    assert_eq!(c.player_direction, PlayerDirection::Down);
    c.move_right();
    assert_eq!(c.player_direction, PlayerDirection::Right);
    assert_eq!(c.player_position, vec![Point(3, 1), Point(2, 1), Point(1, 1)]);
    assert_eq!(c.state, GameState::Paused);
}

#[test]
fn reversal_of_last_key_is_refused() {
    let mut c = GameContext::new();
    let mut input = InputController { last_key: Key::Right };
    input.key_down(&mut c, Key::Left);
    assert_eq!(c.player_direction, PlayerDirection::Right);
    assert_eq!(input.last_key, Key::Left);
}

#[test]
fn right_angle_turns_are_accepted() {
    let mut c = GameContext::new();
    let mut input = InputController { last_key: Key::Right };
    input.key_down(&mut c, Key::Down);
    assert_eq!(c.player_direction, PlayerDirection::Down);

    let mut c = GameContext::new();
    let mut input = InputController { last_key: Key::Right };
    input.key_down(&mut c, Key::Up);
    assert_eq!(c.player_direction, PlayerDirection::Up);
}

#[test]
fn first_up_key_is_refused_after_start() {
    let mut c = GameContext::new();
    let mut input = InputController::new();
    assert_eq!(input.last_key, Key::Down);
    input.key_down(&mut c, Key::Up);
    assert_eq!(c.player_direction, PlayerDirection::Right);
    input.key_down(&mut c, Key::Left);
    assert_eq!(c.player_direction, PlayerDirection::Left);
}

#[test]
fn pause_key_toggles_and_is_remembered() {
    let mut c = GameContext::new();
    let mut input = InputController { last_key: Key::Right };
    input.key_down(&mut c, Key::Pause);
    assert_eq!(c.state, GameState::Playing);
    assert_eq!(input.last_key, Key::Pause);
    input.key_down(&mut c, Key::Left);
    assert_eq!(c.player_direction, PlayerDirection::Left);
}

#[test]
fn body_stays_contiguous_over_many_ticks() {
    let mut c = GameContext::new();
    let mut input = InputController::new();
    input.key_down(&mut c, Key::Pause);
    c.food = Point(5, 1);
    let keys = [Key::Down, Key::Left, Key::Up, Key::Right, Key::Down, Key::Right];
    for round in 0..30 {
        if round % 5 == 4 {
            input.key_down(&mut c, keys[(round / 5) % keys.len()]);
        }
        c.next_tick();
        assert!(contiguous(&c.player_position));
    }
    assert!(c.player_position.len() > 3);
}

#[test]
fn every_third_frame_ticks() {
    assert_eq!(FRAMES_PER_TICK, 3);
    assert_eq!(next_frame(0), (1, false));
    assert_eq!(next_frame(1), (2, false));
    assert_eq!(next_frame(2), (0, true));
    assert_eq!(next_frame(5), (0, true));
    assert_eq!(next_frame(6), (7, false));
}

#[test]
fn cells_map_to_twenty_pixel_squares() {
    assert_eq!(cell_rect(Point(3, 1)), (60, 20, 20, 20));
    assert_eq!(cell_rect(Point(-2, 0)), (-40, 0, 20, 20));
    assert_eq!((WINDOW_WIDTH, WINDOW_HEIGHT), (800, 600));
}

#[test]
fn background_marks_pause() {
    assert_eq!(background_rgb(GameState::Playing), (0, 0, 0));
    assert_eq!(background_rgb(GameState::Paused), (30, 30, 30));
}

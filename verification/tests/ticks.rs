use snake::game::{FrameAction, GameState};
use snake::grid::{point_in_grid, Direction};
use snake::input::Key;
use snake::snake::Snake;
use std::collections::VecDeque;

fn game_at(head: (i16, i16), body: Vec<(i16, i16)>, dir: Direction, fruit: (i16, i16)) -> GameState {
    let snake = Snake { head, body: VecDeque::from(body), dir };
    match GameState::from_parts(snake, fruit) {
        Some(game) => game,
        None => panic!("not a state of a game"),
    }
}

fn body_of(game: &GameState) -> Vec<(i16, i16)> {
    game.snake().body.iter().copied().collect()
}

#[test]
fn a_game_starts_in_the_corner_heading_right() {
    let game = GameState::with_fruit((7, 3));
    assert_eq!(game.snake().head, (0, 0));
    assert_eq!(game.snake().dir, Direction::Right);
    assert!(game.snake().body.is_empty());
    assert_eq!(game.fruit(), (7, 3));
    assert_eq!(game.score(), 0);
    assert_eq!(game.speed_level(), 0);
    assert!(!game.is_over());
}

#[test]
fn eating_the_fruit_grows_the_snake_and_speeds_up() {
    let mut game = game_at((5, 5), vec![], Direction::Right, (6, 5));
    assert!(game.reaches_fruit());
    game.tick_with((2, 9));
    assert_eq!(game.snake().head, (6, 5));
    assert_eq!(game.score(), 1);
    assert_eq!(game.speed_level(), 1);
    assert_eq!(body_of(&game), vec![(5, 5)]);
    assert_eq!(game.fruit(), (2, 9));
    assert!(!game.is_over());
}

#[test]
fn eating_the_fruit_draws_the_next_one_on_the_field() {
    let mut game = game_at((5, 5), vec![], Direction::Right, (6, 5));
    game.tick();
    assert_eq!(game.snake().head, (6, 5));
    assert_eq!(game.score(), 1);
    assert_eq!(game.speed_level(), 1);
    assert_eq!(body_of(&game), vec![(5, 5)]);
    assert!(point_in_grid(game.fruit()));
    assert!(!game.is_over());
}

#[test]
fn leaving_the_field_on_the_right_ends_the_game() {
    let mut game = game_at((11, 5), vec![], Direction::Right, (0, 0));
    game.tick_with((1, 1));
    assert_eq!(game.snake().head, (12, 5));
    assert!(game.is_over());
    assert_eq!(game.score(), 0);
    assert_eq!(game.fruit(), (0, 0));
}

#[test]
fn leaving_the_field_on_any_side_ends_the_game() {
    let mut left = game_at((0, 5), vec![], Direction::Left, (3, 3));
    left.tick();
    assert_eq!(left.snake().head, (-1, 5));
    assert!(left.is_over());
    let mut up = game_at((5, 0), vec![], Direction::Up, (3, 3));
    up.tick();
    assert_eq!(up.snake().head, (5, -1));
    assert!(up.is_over());
    let mut down = game_at((5, 11), vec![], Direction::Down, (3, 3));
    down.tick();
    assert_eq!(down.snake().head, (5, 12));
    assert!(down.is_over());
}

#[test]
fn running_into_the_body_ends_the_game() {
    let mut game =
        game_at((5, 5), vec![(5, 6), (6, 6), (6, 5), (7, 5)], Direction::Right, (0, 0));
    assert!(!game.is_over());
    game.tick_with((1, 1));
    assert_eq!(game.snake().head, (6, 5));
    assert_eq!(body_of(&game), vec![(5, 5), (5, 6), (6, 6), (6, 5)]);
    assert!(game.is_over());
    assert_eq!(game.score(), 4);
}

#[test]
fn following_the_tail_is_no_collision() {
    let mut game = game_at((5, 5), vec![(5, 6), (6, 6), (6, 5)], Direction::Right, (0, 0));
    game.tick_with((1, 1));
    assert_eq!(game.snake().head, (6, 5));
    assert_eq!(body_of(&game), vec![(5, 5), (5, 6), (6, 6)]);
    assert!(!game.is_over());
}

#[test]
fn a_fruit_under_the_body_is_eaten_and_ends_the_game() {
    let mut game = game_at((5, 5), vec![(5, 6), (6, 6), (6, 5)], Direction::Right, (6, 5));
    game.tick_with((1, 1));
    assert_eq!(game.snake().head, (6, 5));
    assert_eq!(body_of(&game), vec![(5, 5), (5, 6), (6, 6), (6, 5)]);
    assert_eq!(game.score(), 4);
    assert_eq!(game.speed_level(), 4);
    assert_eq!(game.fruit(), (1, 1));
    assert!(game.is_over());
}

#[test]
fn a_tick_without_fruit_keeps_the_length() {
    let mut game = game_at((5, 5), vec![(4, 5), (3, 5)], Direction::Down, (9, 9));
    assert!(!game.reaches_fruit());
    game.tick_with((1, 1));
    assert_eq!(game.snake().head, (5, 6));
    assert_eq!(body_of(&game), vec![(5, 5), (4, 5)]);
    assert_eq!(game.snake().dir, Direction::Down);
    assert_eq!(game.score(), 2);
    assert_eq!(game.speed_level(), 2);
    assert_eq!(game.fruit(), (9, 9));
    assert!(!game.is_over());
}

#[test]
fn a_tick_without_fruit_draws_nothing() {
    let mut game = game_at((5, 5), vec![], Direction::Down, (9, 9));
    game.tick();
    assert_eq!(game.snake().head, (5, 6));
    assert!(game.snake().body.is_empty());
    assert_eq!(game.fruit(), (9, 9));
    assert_eq!(game.score(), 0);
}

#[test]
fn a_tick_with_fruit_raises_score_speed_and_length_by_one() {
    let mut game = game_at((5, 5), vec![(4, 5), (3, 5)], Direction::Down, (5, 6));
    game.tick_with((0, 11));
    assert_eq!(game.snake().head, (5, 6));
    assert_eq!(body_of(&game), vec![(5, 5), (4, 5), (3, 5)]);
    assert_eq!(game.score(), 3);
    assert_eq!(game.speed_level(), 3);
    assert_eq!(game.fruit(), (0, 11));
    assert!(!game.is_over());
}

#[test]
fn the_next_fruit_may_lie_under_the_snake() {
    let mut game = game_at((5, 5), vec![(4, 5)], Direction::Right, (6, 5));
    game.tick_with((5, 5));
    assert_eq!(game.fruit(), (5, 5));
    assert_eq!(body_of(&game), vec![(5, 5), (4, 5)]);
    assert!(!game.is_over());
}

#[test]
fn a_finished_game_stays_as_it_is() {
    let mut game = game_at((11, 5), vec![(10, 5)], Direction::Right, (0, 0));
    game.tick_with((1, 1));
    assert!(game.is_over());
    let head: (i16, i16) = game.snake().head;
    let body: Vec<(i16, i16)> = body_of(&game);
    game.tick_with((2, 2));
    game.tick();
    assert_eq!(game.frame(Some(Key::Up), true), FrameAction::Exit);
    assert_eq!(game.frame_with(Some(Key::Down), true, (3, 3)), FrameAction::Exit);
    assert!(game.is_over());
    assert_eq!(game.snake().head, head);
    assert_eq!(body_of(&game), body);
    assert_eq!(game.snake().dir, Direction::Right);
    assert_eq!(game.fruit(), (0, 0));
    assert_eq!(game.score(), 1);
}

#[test]
fn a_frame_without_a_due_tick_only_steers() {
    let mut game = game_at((5, 5), vec![(4, 5)], Direction::Right, (6, 5));
    assert_eq!(game.frame(Some(Key::W), false), FrameAction::Render);
    assert_eq!(game.snake().dir, Direction::Up);
    assert_eq!(game.snake().head, (5, 5));
    assert_eq!(body_of(&game), vec![(4, 5)]);
    assert_eq!(game.score(), 1);
    assert_eq!(game.frame(None, false), FrameAction::Render);
    assert_eq!(game.snake().dir, Direction::Up);
    assert_eq!(game.frame(Some(Key::Down), false), FrameAction::Render);
    assert_eq!(game.snake().dir, Direction::Up);
}

#[test]
fn a_frame_with_a_due_tick_steers_then_moves_once() {
    let mut game = game_at((5, 5), vec![(4, 5)], Direction::Right, (5, 4));
    assert_eq!(game.frame_with(Some(Key::Up), true, (8, 8)), FrameAction::Render);
    assert_eq!(game.snake().dir, Direction::Up);
    assert_eq!(game.snake().head, (5, 4));
    assert_eq!(body_of(&game), vec![(5, 5), (4, 5)]);
    assert_eq!(game.score(), 2);
    assert_eq!(game.fruit(), (8, 8));
}

#[test]
fn a_frame_that_ends_the_game_says_to_leave() {
    let mut game = game_at((5, 0), vec![(4, 0)], Direction::Right, (9, 9));
    assert_eq!(game.frame_with(Some(Key::Up), true, (8, 8)), FrameAction::Exit);
    assert!(game.is_over());
    assert_eq!(game.snake().head, (5, -1));
}

#[test]
fn a_short_snake_can_turn_back_over_two_key_presses() {
    let mut game = game_at((5, 5), vec![(4, 5)], Direction::Right, (9, 9));
    assert_eq!(game.frame(Some(Key::Up), false), FrameAction::Render);
    assert_eq!(game.frame(Some(Key::Left), true), FrameAction::Render);
    assert_eq!(game.snake().head, (4, 5));
    assert_eq!(body_of(&game), vec![(5, 5)]);
    assert!(!game.is_over());
}

#[test]
fn a_full_row_played_from_the_start() {
    let mut game = GameState::with_fruit((3, 0));
    for _ in 0..3 {
        game.tick_with((3, 1));
    }
    assert_eq!(game.snake().head, (3, 0));
    assert_eq!(game.score(), 1);
    assert_eq!(body_of(&game), vec![(2, 0)]);
    assert_eq!(game.fruit(), (3, 1));
    assert_eq!(game.frame_with(Some(Key::S), true, (0, 0)), FrameAction::Render);
    assert_eq!(game.snake().head, (3, 1));
    assert_eq!(game.score(), 2);
    assert_eq!(body_of(&game), vec![(3, 0), (2, 0)]);
    for _ in 0..10 {
        assert_eq!(game.frame(None, true), FrameAction::Render);
    }
    assert_eq!(game.snake().head, (3, 11));
    assert_eq!(game.frame(None, true), FrameAction::Exit);
    assert_eq!(game.snake().head, (3, 12));
    assert_eq!(game.score(), 2);
    assert_eq!(game.speed_level(), 2);
}

#[test]
fn states_that_no_game_reaches_are_refused() {
    let snake = |head: (i16, i16), body: Vec<(i16, i16)>| Snake {
        head,
        body: VecDeque::from(body),
        dir: Direction::Right,
    };
    assert!(GameState::from_parts(snake((5, 5), vec![]), (12, 0)).is_none());
    assert!(GameState::from_parts(snake((5, 5), vec![]), (0, -1)).is_none());
    assert!(GameState::from_parts(snake((5, 5), vec![(7, 5)]), (0, 0)).is_none());
    assert!(GameState::from_parts(snake((5, 5), vec![(4, 5), (2, 5)]), (0, 0)).is_none());
    assert!(GameState::from_parts(snake((5, 5), vec![(4, 5), (3, 5), (4, 5)]), (0, 0)).is_none());
    assert!(GameState::from_parts(snake((0, 0), vec![(-1, 0)]), (0, 0)).is_none());
    assert!(GameState::from_parts(snake((5, 5), vec![(4, 5), (3, 5)]), (0, 0)).is_some());
}

#[test]
fn a_crashed_snake_makes_a_finished_game() {
    let off_field = game_at((12, 5), vec![(11, 5)], Direction::Right, (0, 0));
    assert!(off_field.is_over());
    assert_eq!(off_field.score(), 1);
    let bitten = game_at((5, 5), vec![(5, 6), (6, 6), (6, 5), (5, 5)], Direction::Up, (0, 0));
    assert!(bitten.is_over());
    assert_eq!(bitten.score(), 4);
    assert_eq!(bitten.speed_level(), 4);
}

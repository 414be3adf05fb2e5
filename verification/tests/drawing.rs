use snake::game::GameState;
use snake::grid::Direction;
use snake::render::{render, score_text, DrawCommand};
use snake::snake::Snake;
use std::collections::VecDeque;

fn game_at(head: (i16, i16), body: Vec<(i16, i16)>, dir: Direction, fruit: (i16, i16)) -> GameState {
    let snake = Snake { head, body: VecDeque::from(body), dir };
    match GameState::from_parts(snake, fruit) {
        Some(game) => game,
        None => panic!("not a state of a game"),
    }
}

fn frame_of_field() -> Vec<DrawCommand> {
    let mut commands: Vec<DrawCommand> = vec![DrawCommand::Background, DrawCommand::Field];
    for i in 1..12i16 {
        commands.push(DrawCommand::HorizontalLine(i));
    }
    for i in 1..12i16 {
        commands.push(DrawCommand::VerticalLine(i));
    }
    commands
}

#[test]
fn the_picture_of_a_new_game() {
    let game = GameState::with_fruit((7, 3));
    let mut expected: Vec<DrawCommand> = frame_of_field();
    expected.push(DrawCommand::Head((0, 0)));
    expected.push(DrawCommand::Fruit((7, 3)));
    expected.push(DrawCommand::Score(0));
    assert_eq!(render(&game), expected);
}

#[test]
fn the_picture_lists_the_body_from_head_to_tail() {
    let game = game_at((5, 5), vec![(5, 6), (6, 6), (6, 5)], Direction::Right, (1, 2));
    let mut expected: Vec<DrawCommand> = frame_of_field();
    expected.push(DrawCommand::Head((5, 5)));
    expected.push(DrawCommand::Body((5, 6)));
    expected.push(DrawCommand::Body((6, 6)));
    expected.push(DrawCommand::Body((6, 5)));
    expected.push(DrawCommand::Fruit((1, 2)));
    expected.push(DrawCommand::Score(3));
    assert_eq!(render(&game), expected);
}

#[test]
fn the_picture_has_eleven_lines_each_way() {
    let game = GameState::with_fruit((0, 0));
    let commands: Vec<DrawCommand> = render(&game);
    let horizontal: usize =
        commands.iter().filter(|c| matches!(c, DrawCommand::HorizontalLine(_))).count();
    let vertical: usize =
        commands.iter().filter(|c| matches!(c, DrawCommand::VerticalLine(_))).count();
    assert_eq!(horizontal, 11);
    assert_eq!(vertical, 11);
    assert_eq!(commands.len(), 27);
}

#[test]
fn drawing_twice_gives_the_same_picture_and_changes_nothing() {
    let game = game_at((5, 5), vec![(5, 6), (6, 6)], Direction::Left, (1, 2));
    let first: Vec<DrawCommand> = render(&game);
    let second: Vec<DrawCommand> = render(&game);
    assert_eq!(first, second);
    assert_eq!(game, game_at((5, 5), vec![(5, 6), (6, 6)], Direction::Left, (1, 2)));
}

#[test]
fn the_score_text_is_the_word_and_the_number() {
    assert_eq!(score_text(0), "SCORE: 0");
    assert_eq!(score_text(7), "SCORE: 7");
    assert_eq!(score_text(10), "SCORE: 10");
    assert_eq!(score_text(12), "SCORE: 12");
    assert_eq!(score_text(144), "SCORE: 144");
    assert_eq!(score_text(1905), "SCORE: 1905");
    assert_eq!(score_text(u32::MAX), "SCORE: 4294967295");
}

#[test]
fn the_score_text_agrees_with_the_standard_formatting() {
    for n in 0..2000u32 {
        assert_eq!(score_text(n), format!("SCORE: {n}"));
    }
}

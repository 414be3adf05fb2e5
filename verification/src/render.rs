use vstd::prelude::*;
use vstd::string::StringExecFns;
use crate::game::GameState;
use crate::grid::{cell_of, Cell, Point, SQUARES};
use crate::model::GameModel;
use crate::snake::Snake;

verus! {

/// One thing to draw, in cells of the field. How large a cell is on the
/// screen is for the program that draws to decide.
#[derive(Clone, Copy, Debug, PartialEq, Eq)]
pub enum DrawCommand {
    /// Clear the window.
    Background,
    /// The square of the playing field.
    Field,
    /// The line between row `n - 1` and row `n`.
    HorizontalLine(i16),
    /// The line between column `n - 1` and column `n`.
    VerticalLine(i16),
    /// The cell of the snake's head.
    Head(Point),
    /// A cell of the snake's body.
    Body(Point),
    /// The fruit, as large as one cell.
    Fruit(Point),
    /// The score, as text.
    Score(u32),
}

/// One thing to draw, as a mathematical value.
pub enum DrawOp {
    Background,
    Field,
    HorizontalLine(int),
    VerticalLine(int),
    Head(Cell),
    Body(Cell),
    Fruit(Cell),
    Score(nat),
}

impl View for DrawCommand {
    type V = DrawOp;

    open spec fn view(&self) -> DrawOp {
        match *self {
            DrawCommand::Background => DrawOp::Background,
            DrawCommand::Field => DrawOp::Field,
            DrawCommand::HorizontalLine(n) => DrawOp::HorizontalLine(n as int),
            DrawCommand::VerticalLine(n) => DrawOp::VerticalLine(n as int),
            DrawCommand::Head(p) => DrawOp::Head(cell_of(p)),
            DrawCommand::Body(p) => DrawOp::Body(cell_of(p)),
            DrawCommand::Fruit(p) => DrawOp::Fruit(cell_of(p)),
            DrawCommand::Score(n) => DrawOp::Score(n as nat),
        }
    }
}

/// The mathematical values of a list of commands.
pub open spec fn ops_of(commands: Seq<DrawCommand>) -> Seq<DrawOp> {
    commands.map_values(|c: DrawCommand| c@)
}

/// The lines between the rows of the field, from the top down.
pub open spec fn horizontal_lines() -> Seq<DrawOp> {
    Seq::new((SQUARES - 1) as nat, |i: int| DrawOp::HorizontalLine(i + 1))
}

/// The lines between the columns of the field, from left to right.
pub open spec fn vertical_lines() -> Seq<DrawOp> {
    Seq::new((SQUARES - 1) as nat, |i: int| DrawOp::VerticalLine(i + 1))
}

/// The picture of a state: the background, the field, its lines, the head,
/// the body from the head to the tail, the fruit and the score, drawn in
/// this order.
pub open spec fn scene(s: GameModel) -> Seq<DrawOp> {
    seq![DrawOp::Background, DrawOp::Field] + horizontal_lines() + vertical_lines()
        + seq![DrawOp::Head(s.snake.head)] + s.snake.body.map_values(|c: Cell| DrawOp::Body(c))
        + seq![DrawOp::Fruit(s.fruit), DrawOp::Score(s.score)]
}

/// Lists what to draw for a state. The state is only read.
pub fn render(game: &GameState) -> (commands: Vec<DrawCommand>)
    ensures
        ops_of(commands@) == scene(game@),
{
    let mut commands: Vec<DrawCommand> = Vec::new();
    commands.push(DrawCommand::Background);
    commands.push(DrawCommand::Field);
    let mut i: i16 = 1;
    while i < SQUARES
        invariant
            1 <= i <= SQUARES,
            ops_of(commands@) == seq![DrawOp::Background, DrawOp::Field] + Seq::new(
                (i - 1) as nat,
                |k: int| DrawOp::HorizontalLine(k + 1),
            ),
        decreases SQUARES - i,
    {
        let ghost drawn = commands@;
        commands.push(DrawCommand::HorizontalLine(i));
        assert(ops_of(commands@) =~= ops_of(drawn).push(DrawOp::HorizontalLine(i as int)));
        assert(Seq::new(i as nat, |k: int| DrawOp::HorizontalLine(k + 1)) =~= Seq::new(
            (i - 1) as nat,
            |k: int| DrawOp::HorizontalLine(k + 1),
        ).push(DrawOp::HorizontalLine(i as int)));
        i = i + 1;
    }
    let mut i: i16 = 1;
    while i < SQUARES
        invariant
            1 <= i <= SQUARES,
            ops_of(commands@) == seq![DrawOp::Background, DrawOp::Field] + horizontal_lines()
                + Seq::new((i - 1) as nat, |k: int| DrawOp::VerticalLine(k + 1)),
        decreases SQUARES - i,
    {
        let ghost drawn = commands@;
        commands.push(DrawCommand::VerticalLine(i));
        assert(ops_of(commands@) =~= ops_of(drawn).push(DrawOp::VerticalLine(i as int)));
        assert(Seq::new(i as nat, |k: int| DrawOp::VerticalLine(k + 1)) =~= Seq::new(
            (i - 1) as nat,
            |k: int| DrawOp::VerticalLine(k + 1),
        ).push(DrawOp::VerticalLine(i as int)));
        i = i + 1;
    }
    let snake: &Snake = game.snake();
    commands.push(DrawCommand::Head(snake.head));
    let ghost fixed = seq![DrawOp::Background, DrawOp::Field] + horizontal_lines()
        + vertical_lines() + seq![DrawOp::Head(game@.snake.head)];
    let n: usize = snake.body.len();
    let mut j: usize = 0;
    while j < n
        invariant
            n == snake.body@.len(),
            j <= n,
            snake@ == game@.snake,
            ops_of(commands@) == fixed + game@.snake.body.subrange(0, j as int).map_values(
                |c: Cell| DrawOp::Body(c),
            ),
        decreases n - j,
    {
        let ghost drawn = commands@;
        let ghost cell = game@.snake.body[j as int];
        commands.push(DrawCommand::Body(snake.body[j]));
        assert(ops_of(commands@) =~= ops_of(drawn).push(DrawOp::Body(cell)));
        assert(game@.snake.body.subrange(0, j + 1).map_values(|c: Cell| DrawOp::Body(c))
            =~= game@.snake.body.subrange(0, j as int).map_values(|c: Cell| DrawOp::Body(c)).push(
            DrawOp::Body(cell),
        ));
        j = j + 1;
    }
    assert(game@.snake.body.subrange(0, n as int) == game@.snake.body);
    commands.push(DrawCommand::Fruit(game.fruit()));
    commands.push(DrawCommand::Score(game.score()));
    commands
}

/// Drawing is a function of the state: two pictures of one state are the
/// same picture.
pub proof fn lemma_render_is_repeatable(s: GameModel, first: Seq<DrawOp>, second: Seq<DrawOp>)
    requires
        first == scene(s),
        second == scene(s),
    ensures
        first == second,
{
}

/// The decimal digit for a number below ten.
pub open spec fn digit_char(d: nat) -> char {
    if d == 0 {
        '0'
    } else if d == 1 {
        '1'
    } else if d == 2 {
        '2'
    } else if d == 3 {
        '3'
    } else if d == 4 {
        '4'
    } else if d == 5 {
        '5'
    } else if d == 6 {
        '6'
    } else if d == 7 {
        '7'
    } else if d == 8 {
        '8'
    } else {
        '9'
    }
}

/// A number written in decimal, without leading zeros.
pub open spec fn decimal(n: nat) -> Seq<char>
    decreases n,
{
    if n < 10 {
        seq![digit_char(n)]
    } else {
        decimal(n / 10).push(digit_char(n % 10))
    }
}

/// The text that shows the score.
pub open spec fn score_label(score: nat) -> Seq<char> {
    seq!['S', 'C', 'O', 'R', 'E', ':', ' '] + decimal(score)
}

/// Appends the decimal digit of a number below ten to a text.
fn append_digit(text: &mut String, d: u32)
    requires
        d < 10,
    ensures
        final(text)@ == old(text)@.push(digit_char(d as nat)),
{
    proof {
        reveal_strlit("0");
        reveal_strlit("1");
        reveal_strlit("2");
        reveal_strlit("3");
        reveal_strlit("4");
        reveal_strlit("5");
        reveal_strlit("6");
        reveal_strlit("7");
        reveal_strlit("8");
        reveal_strlit("9");
    }
    let ghost before = text@;
    if d == 0 {
        text.append("0");
    } else if d == 1 {
        text.append("1");
    } else if d == 2 {
        text.append("2");
    } else if d == 3 {
        text.append("3");
    } else if d == 4 {
        text.append("4");
    } else if d == 5 {
        text.append("5");
    } else if d == 6 {
        text.append("6");
    } else if d == 7 {
        text.append("7");
    } else if d == 8 {
        text.append("8");
    } else {
        text.append("9");
    }
    assert(text@ =~= before.push(digit_char(d as nat)));
}

/// Appends a number in decimal to a text.
fn append_decimal(text: &mut String, n: u32)
    ensures
        final(text)@ == old(text)@ + decimal(n as nat),
    decreases n,
{
    let ghost before = text@;
    if n >= 10 {
        append_decimal(text, n / 10);
    }
    append_digit(text, n % 10);
    assert(text@ =~= before + decimal(n as nat));
}

/// Writes the text that shows the score: `SCORE: ` and the number.
pub fn score_text(score: u32) -> (text: String)
    ensures
        text@ == score_label(score as nat),
{
    proof {
        reveal_strlit("SCORE: ");
    }
    let mut text: String = String::new();
    text.append("SCORE: ");
    append_decimal(&mut text, score);
    assert(text@ =~= score_label(score as nat));
    text
}

} // verus!

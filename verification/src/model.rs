use vstd::prelude::*;
use crate::grid::{adjacent, in_grid, step_from, Cell, Direction};
use crate::input::{steered, Key};

verus! {

/// Whether `cells` can be the body of a snake: they lie on the field, no
/// cell occurs twice, and each touches the one before it.
pub open spec fn is_trail(cells: Seq<Cell>) -> bool {
    &&& forall|i: int| 0 <= i < cells.len() ==> in_grid(#[trigger] cells[i])
    &&& cells.no_duplicates()
    &&& forall|i: int|
        0 <= i && i + 1 < cells.len() ==> adjacent(#[trigger] cells[i], cells[i + 1])
}

/// The snake as a mathematical value: where its head is, the cells of its
/// body from the one next to the head to the tail, and where it is heading.
pub struct SnakeModel {
    pub head: Cell,
    pub body: Seq<Cell>,
    pub dir: Direction,
}

impl SnakeModel {
    /// The snake after one frame's keyboard input.
    pub open spec fn steer(self, key: Option<Key>) -> SnakeModel {
        SnakeModel { dir: steered(self.dir, key), ..self }
    }

    /// The cell the head moves to next.
    pub open spec fn next_head(self) -> Cell {
        step_from(self.head, self.dir)
    }

    /// The snake after the head's cell became the first cell of the body.
    pub open spec fn extend(self) -> SnakeModel {
        SnakeModel { body: seq![self.head] + self.body, ..self }
    }

    /// The snake after the head took one step.
    pub open spec fn advance(self) -> SnakeModel {
        SnakeModel { head: self.next_head(), ..self }
    }

    /// The snake after it gave up the last cell of its body.
    pub open spec fn shrink(self) -> SnakeModel {
        SnakeModel { body: self.body.drop_last(), ..self }
    }

    /// Whether the head has left the playing field.
    pub open spec fn off_grid(self) -> bool {
        !in_grid(self.head)
    }

    /// Whether the head sits on a cell of the body.
    pub open spec fn bites_itself(self) -> bool {
        self.body.contains(self.head)
    }

    /// Whether the snake has run into the border or into itself.
    pub open spec fn crashed(self) -> bool {
        self.off_grid() || self.bites_itself()
    }

    /// What holds of the snake in every state of a game: its body is a
    /// trail, and the first cell of the body touches the head.
    pub open spec fn wf(self) -> bool {
        &&& is_trail(self.body)
        &&& self.body.len() > 0 ==> adjacent(self.head, self.body[0])
    }
}

/// A whole game as a mathematical value.
pub struct GameModel {
    pub snake: SnakeModel,
    pub fruit: Cell,
    pub score: nat,
    /// How many times the time between two ticks has been shortened.
    pub speed_level: nat,
    pub game_over: bool,
}

impl GameModel {
    /// The state a game starts in, with the first fruit at `fruit`.
    pub open spec fn initial(fruit: Cell) -> GameModel {
        GameModel {
            snake: SnakeModel { head: (0, 0), body: Seq::empty(), dir: Direction::Right },
            fruit,
            score: 0,
            speed_level: 0,
            game_over: false,
        }
    }

    /// The state that a snake and a fruit determine: the score and the
    /// speed level are the length of the body, and the game is over if the
    /// snake has crashed.
    pub open spec fn assemble(snake: SnakeModel, fruit: Cell) -> GameModel {
        GameModel {
            snake,
            fruit,
            score: snake.body.len(),
            speed_level: snake.body.len(),
            game_over: snake.crashed(),
        }
    }

    /// What holds in every state of a game.
    pub open spec fn wf(self) -> bool {
        &&& self.snake.wf()
        &&& in_grid(self.fruit)
        &&& self.score == self.snake.body.len()
        &&& self.speed_level == self.score
        &&& self.game_over == self.snake.crashed()
    }

    /// Whether the next step of the head reaches the fruit.
    pub open spec fn eats(self) -> bool {
        self.snake.next_head() == self.fruit
    }

    /// The state after one frame's keyboard input. A finished game takes
    /// no input.
    pub open spec fn steer(self, key: Option<Key>) -> GameModel {
        if self.game_over {
            self
        } else {
            GameModel { snake: self.snake.steer(key), ..self }
        }
    }

    /// The state after one tick. The head's cell joins the body and the
    /// head takes one step. If it reaches the fruit, the snake keeps its
    /// new length, the score and the speed level go up by one and the next
    /// fruit lies at `next_fruit`; if not, the body gives up its last cell.
    /// Then the game is over if the snake has crashed. A finished game
    /// stays as it is.
    pub open spec fn tick(self, next_fruit: Cell) -> GameModel {
        if self.game_over {
            self
        } else if self.eats() {
            let snake = self.snake.extend().advance();
            GameModel {
                snake,
                fruit: next_fruit,
                score: self.score + 1,
                speed_level: self.speed_level + 1,
                game_over: snake.crashed(),
            }
        } else {
            let snake = self.snake.extend().advance().shrink();
            GameModel { snake, game_over: snake.crashed(), ..self }
        }
    }

    /// The state after one frame: the keyboard input is applied, then, if a
    /// tick is due, one tick is made.
    pub open spec fn frame(self, key: Option<Key>, tick_due: bool, next_fruit: Cell) -> GameModel {
        if tick_due {
            self.steer(key).tick(next_fruit)
        } else {
            self.steer(key)
        }
    }
}

/// What one frame brings from outside: the key that was pressed, if any,
/// whether a tick is due, and where the next fruit goes if one is needed.
pub struct FrameInput {
    pub key: Option<Key>,
    pub tick_due: bool,
    pub next_fruit: Cell,
}

/// The state after a run of frames, the first input first.
pub open spec fn play(start: GameModel, inputs: Seq<FrameInput>) -> GameModel
    decreases inputs.len(),
{
    if inputs.len() == 0 {
        start
    } else {
        let input = inputs.last();
        play(start, inputs.drop_last()).frame(input.key, input.tick_due, input.next_fruit)
    }
}

} // verus!

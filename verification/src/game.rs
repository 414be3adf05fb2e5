use vstd::prelude::*;
use std::collections::VecDeque;
use crate::grid::{
    cell_of, in_grid, lemma_distinct_cells_fit_grid, point_in_grid, Direction, Point,
};
use crate::input::Key;
use crate::laws::{lemma_score_bounded, lemma_tick_preserves_wf};
use crate::model::GameModel;
use crate::random::random_point;
use crate::snake::{add_direction, check_for_collisions, check_snake, perform_key, Snake};

verus! {

/// A game of snake: the snake, the fruit, the score, how often the game
/// has sped up, and whether it is over.
#[derive(Debug, PartialEq, Eq)]
pub struct GameState {
    snake: Snake,
    fruit: Point,
    score: u32,
    speed_level: u32,
    game_over: bool,
}

/// What the program does at the end of a frame.
#[derive(Clone, Copy, Debug, PartialEq, Eq, Structural)]
pub enum FrameAction {
    /// The game goes on: draw the state.
    Render,
    /// The game is over: leave.
    Exit,
}

impl View for GameState {
    type V = GameModel;

    closed spec fn view(&self) -> GameModel {
        GameModel {
            snake: self.snake@,
            fruit: cell_of(self.fruit),
            score: self.score as nat,
            speed_level: self.speed_level as nat,
            game_over: self.game_over,
        }
    }
}

impl GameState {
    /// Whether this is a state that a game can be in.
    pub open spec fn wf(&self) -> bool {
        self@.wf()
    }

    /// Starts a game whose first fruit lies at `fruit`.
    pub fn with_fruit(fruit: Point) -> (game: GameState)
        requires
            in_grid(cell_of(fruit)),
        ensures
            game.wf(),
            game@ == GameModel::initial(cell_of(fruit)),
    {
        let game = GameState {
            snake: Snake { head: (0, 0), body: VecDeque::new(), dir: Direction::Right },
            fruit,
            score: 0,
            speed_level: 0,
            game_over: false,
        };
        assert(game@.snake.body =~= Seq::empty());
        game
    }

    /// Starts a game whose first fruit is drawn at random from the cells
    /// of the field.
    pub fn new() -> (game: GameState)
        ensures
            game.wf(),
            game@ == GameModel::initial(game@.fruit),
    {
        let fruit: Point = random_point();
        GameState::with_fruit(fruit)
    }

    /// Puts a game together from a snake and a fruit, if they can occur in
    /// a game. The score and the speed level are the length of the body,
    /// and the game is over if the snake has crashed.
    pub fn from_parts(snake: Snake, fruit: Point) -> (game: Option<GameState>)
        ensures
            game is Some <==> GameModel::assemble(snake@, cell_of(fruit)).wf(),
            game is Some ==> game->Some_0.wf() && game->Some_0@ == GameModel::assemble(
                snake@,
                cell_of(fruit),
            ),
    {
        if !point_in_grid(fruit) || !check_snake(&snake) {
            return None;
        }
        proof {
            lemma_distinct_cells_fit_grid(snake@.body);
        }
        let length: u32 = snake.body.len() as u32;
        let game_over: bool = check_for_collisions(&snake);
        Some(GameState { snake, fruit, score: length, speed_level: length, game_over })
    }

    /// The snake.
    pub fn snake(&self) -> (snake: &Snake)
        ensures
            snake@ == self@.snake,
    {
        &self.snake
    }

    /// The position of the fruit.
    pub fn fruit(&self) -> (fruit: Point)
        ensures
            cell_of(fruit) == self@.fruit,
    {
        self.fruit
    }

    /// The number of fruits eaten.
    pub fn score(&self) -> (score: u32)
        ensures
            score == self@.score,
    {
        self.score
    }

    /// How many times the time between two ticks has been shortened.
    pub fn speed_level(&self) -> (level: u32)
        ensures
            level == self@.speed_level,
    {
        self.speed_level
    }

    /// Whether the game is over.
    pub fn is_over(&self) -> (over: bool)
        ensures
            over == self@.game_over,
    {
        self.game_over
    }

    /// Makes one tick and puts the next fruit at `next_fruit` if the snake
    /// reaches the present one.
    pub fn tick_with(&mut self, next_fruit: Point)
        requires
            old(self).wf(),
            in_grid(cell_of(next_fruit)),
        ensures
            final(self).wf(),
            final(self)@ == old(self)@.tick(cell_of(next_fruit)),
    {
        if self.game_over {
            return ;
        }
        proof {
            lemma_tick_preserves_wf(self@, cell_of(next_fruit));
            lemma_score_bounded(self@);
        }
        let ghost before = self@;
        self.snake.body.push_front(self.snake.head);
        assert(self.snake@ == before.snake.extend()) by {
            assert(self.snake@.body =~= before.snake.extend().body);
        }
        add_direction(&mut self.snake);
        if self.snake.head.0 == self.fruit.0 && self.snake.head.1 == self.fruit.1 {
            self.fruit = next_fruit;
            self.score = self.score + 1;
            self.speed_level = self.speed_level + 1;
        } else {
            let ghost grown = self.snake@;
            self.snake.body.pop_back();
            assert(self.snake@ == grown.shrink()) by {
                assert(self.snake@.body =~= grown.shrink().body);
            }
        }
        self.game_over = check_for_collisions(&self.snake);
    }

    /// Tells whether the next tick takes the head to the fruit.
    pub fn reaches_fruit(&self) -> (eats: bool)
        requires
            self.wf(),
        ensures
            eats == (!self@.game_over && self@.eats()),
    {
        if self.game_over {
            return false;
        }
        let step: Point = self.snake.dir.vector();
        self.snake.head.0 + step.0 == self.fruit.0 && self.snake.head.1 + step.1 == self.fruit.1
    }

    /// Makes one tick. If the snake reaches the fruit, the next fruit is
    /// drawn at random from the cells of the field; if not, nothing is
    /// drawn. Whatever is drawn, the state is that of `tick_with` for the
    /// fruit that lies on the field afterwards.
    pub fn tick(&mut self)
        requires
            old(self).wf(),
        ensures
            final(self).wf(),
            final(self)@ == old(self)@.tick(final(self)@.fruit),
    {
        if self.reaches_fruit() {
            let next_fruit: Point = random_point();
            self.tick_with(next_fruit);
        } else {
            let fruit: Point = self.fruit;
            self.tick_with(fruit);
        }
    }

    /// Runs the game's part of one frame with a given next fruit: applies
    /// the keyboard input, makes a tick if one is due, and says whether to
    /// draw or to leave. A finished game is left as it is.
    pub fn frame_with(&mut self, key: Option<Key>, tick_due: bool, next_fruit: Point) -> (action:
        FrameAction)
        requires
            old(self).wf(),
            in_grid(cell_of(next_fruit)),
        ensures
            final(self).wf(),
            final(self)@ == old(self)@.frame(key, tick_due, cell_of(next_fruit)),
            action == frame_action(final(self)@),
    {
        if !self.game_over {
            perform_key(&mut self.snake, key);
            if tick_due {
                self.tick_with(next_fruit);
            }
        }
        if !self.game_over {
            FrameAction::Render
        } else {
            FrameAction::Exit
        }
    }

    /// Runs the game's part of one frame: applies the keyboard input,
    /// makes a tick if one is due, drawing the next fruit at random where
    /// one is needed, and says whether to draw or to leave.
    pub fn frame(&mut self, key: Option<Key>, tick_due: bool) -> (action: FrameAction)
        requires
            old(self).wf(),
        ensures
            final(self).wf(),
            final(self)@ == old(self)@.frame(key, tick_due, final(self)@.fruit),
            action == frame_action(final(self)@),
    {
        if !self.game_over {
            perform_key(&mut self.snake, key);
            if tick_due {
                self.tick();
            }
        }
        if !self.game_over {
            FrameAction::Render
        } else {
            FrameAction::Exit
        }
    }
}

/// What a frame ends with: a running game is drawn, a finished one ends
/// the program.
pub open spec fn frame_action(s: GameModel) -> FrameAction {
    if s.game_over {
        FrameAction::Exit
    } else {
        FrameAction::Render
    }
}

} // verus!

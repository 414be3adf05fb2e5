use vstd::prelude::*;
use crate::grid::{
    adjacent, in_grid, lemma_distinct_cells_fit_grid, lemma_step_is_adjacent, step_from, Cell,
    SQUARES,
};
use crate::input::Key;
use crate::model::{is_trail, play, FrameInput, GameModel, SnakeModel};

verus! {

/// A game starts in a valid state wherever on the field its first fruit
/// lies, and it starts running.
pub proof fn lemma_initial_wf(fruit: Cell)
    requires
        in_grid(fruit),
    ensures
        GameModel::initial(fruit).wf(),
        !GameModel::initial(fruit).game_over,
{
}

/// Keyboard input changes nothing but the direction, so it keeps a valid
/// state valid.
pub proof fn lemma_steer_preserves_wf(s: GameModel, key: Option<Key>)
    requires
        s.wf(),
    ensures
        s.steer(key).wf(),
        s.steer(key).snake.head == s.snake.head,
        s.steer(key).snake.body == s.snake.body,
        s.steer(key).fruit == s.fruit,
        s.steer(key).score == s.score,
        s.steer(key).speed_level == s.speed_level,
        s.steer(key).game_over == s.game_over,
{
}

/// While a game runs, the head and the body together occupy pairwise
/// different cells of the field: the body with the head's cell in front is
/// again a trail, and no longer than the field has cells.
pub proof fn lemma_extend_is_trail(s: SnakeModel)
    requires
        s.wf(),
        !s.crashed(),
    ensures
        is_trail(s.extend().body),
        s.extend().body.len() == s.body.len() + 1,
        s.extend().body.len() <= SQUARES * SQUARES,
{
    let grown = s.extend().body;
    assert(grown[0] == s.head);
    assert forall|i: int| 0 <= i < grown.len() implies in_grid(#[trigger] grown[i]) by {
        if i > 0 {
            assert(grown[i] == s.body[i - 1]);
        }
    }
    assert forall|i: int, j: int|
        0 <= i < grown.len() && 0 <= j < grown.len() && i != j implies grown[i] != grown[j] by {
        if i > 0 {
            assert(grown[i] == s.body[i - 1]);
        }
        if j > 0 {
            assert(grown[j] == s.body[j - 1]);
        }
    }
    assert forall|i: int| 0 <= i && i + 1 < grown.len() implies adjacent(
        #[trigger] grown[i],
        grown[i + 1],
    ) by {
        assert(grown[i + 1] == s.body[i]);
        if i > 0 {
            assert(grown[i] == s.body[i - 1]);
        }
    }
    lemma_distinct_cells_fit_grid(grown);
}

/// A tick keeps a valid state valid, wherever on the field the next fruit
/// lies.
pub proof fn lemma_tick_preserves_wf(s: GameModel, next_fruit: Cell)
    requires
        s.wf(),
        in_grid(next_fruit),
    ensures
        s.tick(next_fruit).wf(),
{
    if !s.game_over {
        lemma_extend_is_trail(s.snake);
        lemma_step_is_adjacent(s.snake.head, s.snake.dir);
        let grown = s.snake.extend();
        let moved = grown.advance();
        if !s.eats() {
            let cut = moved.shrink();
            assert forall|i: int| 0 <= i < cut.body.len() implies cut.body[i] == grown.body[i] by {}
        }
    }
}

/// A frame keeps a valid state valid.
pub proof fn lemma_frame_preserves_wf(
    s: GameModel,
    key: Option<Key>,
    tick_due: bool,
    next_fruit: Cell,
)
    requires
        s.wf(),
        in_grid(next_fruit),
    ensures
        s.frame(key, tick_due, next_fruit).wf(),
{
    lemma_steer_preserves_wf(s, key);
    lemma_tick_preserves_wf(s.steer(key), next_fruit);
}

/// A tick in which the head does not reach the fruit moves the head by
/// exactly the direction's step and leaves the length of the body, the
/// score, the speed level and the fruit as they were.
pub proof fn lemma_tick_without_fruit(s: GameModel, next_fruit: Cell)
    requires
        !s.game_over,
        !s.eats(),
    ensures
        s.tick(next_fruit).snake.head == step_from(s.snake.head, s.snake.dir),
        s.tick(next_fruit).snake.body.len() == s.snake.body.len(),
        s.tick(next_fruit).snake.body == (seq![s.snake.head] + s.snake.body).drop_last(),
        s.tick(next_fruit).snake.dir == s.snake.dir,
        s.tick(next_fruit).score == s.score,
        s.tick(next_fruit).speed_level == s.speed_level,
        s.tick(next_fruit).fruit == s.fruit,
{
}

/// A tick in which the head reaches the fruit raises the score, the speed
/// level and the length of the body by exactly one each, and puts the next
/// fruit where it was drawn.
pub proof fn lemma_tick_with_fruit(s: GameModel, next_fruit: Cell)
    requires
        !s.game_over,
        s.eats(),
    ensures
        s.tick(next_fruit).snake.head == s.fruit,
        s.tick(next_fruit).snake.head == step_from(s.snake.head, s.snake.dir),
        s.tick(next_fruit).score == s.score + 1,
        s.tick(next_fruit).speed_level == s.speed_level + 1,
        s.tick(next_fruit).snake.body.len() == s.snake.body.len() + 1,
        s.tick(next_fruit).snake.body == seq![s.snake.head] + s.snake.body,
        s.tick(next_fruit).fruit == next_fruit,
        in_grid(next_fruit) ==> in_grid(s.tick(next_fruit).fruit),
{
}

/// A tick ends the game if and only if the head, after its step, is off
/// the field or on a cell that the body holds after the tick.
pub proof fn lemma_game_over_iff_crash(s: GameModel, next_fruit: Cell)
    requires
        !s.game_over,
    ensures
        s.tick(next_fruit).game_over <==> {
            let head = step_from(s.snake.head, s.snake.dir);
            ||| head.0 < 0
            ||| head.0 >= SQUARES
            ||| head.1 < 0
            ||| head.1 >= SQUARES
            ||| s.tick(next_fruit).snake.body.contains(head)
        },
{
}

/// Nothing leaves a finished game: neither input nor a tick changes it.
pub proof fn lemma_game_over_is_final(
    s: GameModel,
    key: Option<Key>,
    tick_due: bool,
    next_fruit: Cell,
)
    requires
        s.game_over,
    ensures
        s.steer(key) == s,
        s.tick(next_fruit) == s,
        s.frame(key, tick_due, next_fruit) == s,
{
}

/// The score never exceeds the number of cells of the field, and stays
/// below it while the game runs.
pub proof fn lemma_score_bounded(s: GameModel)
    requires
        s.wf(),
    ensures
        s.score <= SQUARES * SQUARES,
        !s.game_over ==> s.score < SQUARES * SQUARES,
{
    lemma_distinct_cells_fit_grid(s.snake.body);
    if !s.game_over {
        lemma_extend_is_trail(s.snake);
    }
}

/// While a game runs, the head is on the field and on no cell of the body.
pub proof fn lemma_running_snake_is_clear(s: GameModel)
    requires
        s.wf(),
        !s.game_over,
    ensures
        in_grid(s.snake.head),
        !s.snake.body.contains(s.snake.head),
{
}

/// A frame never lowers the score or the speed level, and by at most one
/// it raises them.
pub proof fn lemma_frame_score_steps(
    s: GameModel,
    key: Option<Key>,
    tick_due: bool,
    next_fruit: Cell,
)
    ensures
        s.score <= s.frame(key, tick_due, next_fruit).score <= s.score + 1,
        s.speed_level <= s.frame(key, tick_due, next_fruit).speed_level <= s.speed_level + 1,
{
}

/// Every state that a game reaches from a valid state is valid, whatever
/// is played and wherever on the field the fruits fall.
pub proof fn lemma_play_preserves_wf(start: GameModel, inputs: Seq<FrameInput>)
    requires
        start.wf(),
        forall|i: int| 0 <= i < inputs.len() ==> in_grid(#[trigger] inputs[i].next_fruit),
    ensures
        play(start, inputs).wf(),
    decreases inputs.len(),
{
    if inputs.len() > 0 {
        let input = inputs.last();
        lemma_play_preserves_wf(start, inputs.drop_last());
        lemma_frame_preserves_wf(
            play(start, inputs.drop_last()),
            input.key,
            input.tick_due,
            input.next_fruit,
        );
    }
}

/// A game that is over stays over and unchanged, however long it is
/// played on.
pub proof fn lemma_play_after_game_over(start: GameModel, inputs: Seq<FrameInput>)
    requires
        start.game_over,
    ensures
        play(start, inputs) == start,
    decreases inputs.len(),
{
    if inputs.len() > 0 {
        lemma_play_after_game_over(start, inputs.drop_last());
    }
}

/// However a game is played, the score at the end is at least the score
/// at the start and at most that plus the number of frames.
pub proof fn lemma_play_score_grows_slowly(start: GameModel, inputs: Seq<FrameInput>)
    ensures
        start.score <= play(start, inputs).score <= start.score + inputs.len(),
    decreases inputs.len(),
{
    if inputs.len() > 0 {
        let input = inputs.last();
        lemma_play_score_grows_slowly(start, inputs.drop_last());
        lemma_frame_score_steps(
            play(start, inputs.drop_last()),
            input.key,
            input.tick_due,
            input.next_fruit,
        );
    }
}

} // verus!

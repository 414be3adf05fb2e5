use vstd::prelude::*;
use std::collections::VecDeque;
use crate::grid::{
    adjacent, cell_of, get_opposite, in_grid, point_in_grid, points_adjacent, Cell, Direction,
    Point,
};
use crate::input::{get_direction, Key};
use crate::model::{is_trail, SnakeModel};

verus! {

/// The snake: the position of its head, the cells of its body from the one
/// next to the head to the tail, and the direction it travels in.
#[derive(Debug, PartialEq, Eq)]
pub struct Snake {
    pub head: Point,
    pub body: VecDeque<Point>,
    pub dir: Direction,
}

/// The model cells that a sequence of stored positions stands for.
pub open spec fn cells_of(points: Seq<Point>) -> Seq<Cell> {
    points.map_values(|p: Point| cell_of(p))
}

impl View for Snake {
    type V = SnakeModel;

    open spec fn view(&self) -> SnakeModel {
        SnakeModel { head: cell_of(self.head), body: cells_of(self.body@), dir: self.dir }
    }
}

/// Applies one frame's keyboard input to the snake: a key that asks for a
/// direction sets it, unless it asks for the opposite of the current one.
/// Head and body stay where they are.
pub fn perform_key(snake: &mut Snake, key_code: Option<Key>)
    ensures
        final(snake)@ == old(snake)@.steer(key_code),
        final(snake).head == old(snake).head,
        final(snake).body == old(snake).body,
{
    match key_code {
        None => {},
        Some(key) => {
            match get_direction(key) {
                None => {},
                Some(direction) => {
                    if snake.dir != get_opposite(direction) {
                        snake.dir = direction;
                    }
                },
            }
        },
    }
}

/// Moves the head one step in the snake's direction. Body and direction
/// stay as they are.
pub fn add_direction(snake: &mut Snake)
    requires
        i16::MIN <= old(snake)@.next_head().0 <= i16::MAX,
        i16::MIN <= old(snake)@.next_head().1 <= i16::MAX,
    ensures
        final(snake)@ == old(snake)@.advance(),
        final(snake).body == old(snake).body,
        final(snake).dir == old(snake).dir,
{
    let snake_head: Point = snake.head;
    let direction: Point = snake.dir.vector();
    snake.head.0 = snake_head.0 + direction.0;
    snake.head.1 = snake_head.1 + direction.1;
}

/// Tells whether the head has left the playing field.
pub fn check_for_border_collisions(snake: &Snake) -> (outside: bool)
    ensures
        outside == snake@.off_grid(),
{
    !point_in_grid(snake.head)
}

/// Tells whether the head sits on a cell of the body.
pub fn check_for_body_collisions(snake: &Snake) -> (bitten: bool)
    ensures
        bitten == snake@.bites_itself(),
{
    let n: usize = snake.body.len();
    let mut i: usize = 0;
    while i < n
        invariant
            n == snake.body@.len(),
            i <= n,
            forall|j: int| 0 <= j < i ==> snake.body@[j] != snake.head,
        decreases n - i,
    {
        let cell: Point = snake.body[i];
        if cell.0 == snake.head.0 && cell.1 == snake.head.1 {
            assert(cells_of(snake.body@)[i as int] == cell_of(snake.head));
            return true;
        }
        i = i + 1;
    }
    assert forall|j: int| 0 <= j < cells_of(snake.body@).len() implies cells_of(snake.body@)[j]
        != cell_of(snake.head) by {
        assert(snake.body@[j] != snake.head);
    }
    false
}

/// Tells whether the cells of a body lie on the playing field.
pub fn body_in_grid(body: &VecDeque<Point>) -> (inside: bool)
    ensures
        inside == (forall|i: int|
            0 <= i < cells_of(body@).len() ==> in_grid(#[trigger] cells_of(body@)[i])),
{
    let n: usize = body.len();
    let mut i: usize = 0;
    while i < n
        invariant
            n == body@.len(),
            i <= n,
            forall|j: int| 0 <= j < i ==> in_grid(#[trigger] cells_of(body@)[j]),
        decreases n - i,
    {
        if !point_in_grid(body[i]) {
            assert(!in_grid(cells_of(body@)[i as int]));
            return false;
        }
        i = i + 1;
    }
    true
}

/// Tells whether no cell occurs twice in a body.
pub fn body_without_repeats(body: &VecDeque<Point>) -> (distinct: bool)
    ensures
        distinct == cells_of(body@).no_duplicates(),
{
    let n: usize = body.len();
    let mut i: usize = 0;
    while i < n
        invariant
            n == body@.len(),
            i <= n,
            forall|a: int, b: int|
                0 <= a < i && a < b < n ==> cells_of(body@)[a] != cells_of(body@)[b],
        decreases n - i,
    {
        let first: Point = body[i];
        let mut j: usize = i + 1;
        while j < n
            invariant
                n == body@.len(),
                i < j <= n,
                first == body@[i as int],
                forall|b: int| i < b < j ==> cells_of(body@)[i as int] != cells_of(body@)[b],
            decreases n - j,
        {
            let second: Point = body[j];
            if first.0 == second.0 && first.1 == second.1 {
                assert(cells_of(body@)[i as int] == cells_of(body@)[j as int]);
                return false;
            }
            j = j + 1;
        }
        i = i + 1;
    }
    assert forall|a: int, b: int|
        0 <= a < cells_of(body@).len() && 0 <= b < cells_of(body@).len() && a != b implies cells_of(
        body@,
    )[a] != cells_of(body@)[b] by {
        if a < b {
            assert(cells_of(body@)[a] != cells_of(body@)[b]);
        } else {
            assert(cells_of(body@)[b] != cells_of(body@)[a]);
        }
    }
    true
}

/// Tells whether each cell of a body touches the one before it.
pub fn body_connected(body: &VecDeque<Point>) -> (connected: bool)
    ensures
        connected == (forall|i: int|
            0 <= i && i + 1 < cells_of(body@).len() ==> adjacent(
                #[trigger] cells_of(body@)[i],
                cells_of(body@)[i + 1],
            )),
{
    let n: usize = body.len();
    let mut i: usize = 1;
    while i < n
        invariant
            n == body@.len(),
            1 <= i,
            forall|j: int|
                0 <= j && j + 1 < i ==> adjacent(
                    #[trigger] cells_of(body@)[j],
                    cells_of(body@)[j + 1],
                ),
        decreases n - i,
    {
        if !points_adjacent(body[i - 1], body[i]) {
            assert(!adjacent(cells_of(body@)[i - 1], cells_of(body@)[i - 1 + 1]));
            return false;
        }
        i = i + 1;
    }
    true
}

/// Tells whether a snake is one that can occur in a game: its body lies on
/// the field, holds no cell twice, hangs together and starts next to the
/// head.
pub fn check_snake(snake: &Snake) -> (valid: bool)
    ensures
        valid == snake@.wf(),
{
    if !body_in_grid(&snake.body) || !body_without_repeats(&snake.body) || !body_connected(
        &snake.body,
    ) {
        return false;
    }
    assert(is_trail(snake@.body));
    if snake.body.len() > 0 {
        assert(snake@.body[0] == cell_of(snake.body@[0]));
        points_adjacent(snake.head, snake.body[0])
    } else {
        true
    }
}

/// Tells whether the snake has run into the border or into itself.
pub fn check_for_collisions(snake: &Snake) -> (crashed: bool)
    ensures
        crashed == snake@.crashed(),
{
    check_for_border_collisions(snake) || check_for_body_collisions(snake)
}

} // verus!

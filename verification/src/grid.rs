use vstd::prelude::*;
use vstd::set_lib::{lemma_int_range, lemma_len_subset, set_int_range};

verus! {

/// Side length of the square playing field, in cells.
pub const SQUARES: i16 = 12;

/// A cell position as the program stores it: column, then row.
pub type Point = (i16, i16);

/// A cell position in the mathematical model.
pub type Cell = (int, int);

/// The stored vector of a step towards the top of the field.
pub const UP: Point = (0, -1);

/// The stored vector of a step towards the bottom of the field.
pub const DOWN: Point = (0, 1);

/// The stored vector of a step to the right.
pub const RIGHT: Point = (1, 0);

/// The stored vector of a step to the left.
pub const LEFT: Point = (-1, 0);

/// The model cell that a stored position stands for.
pub open spec fn cell_of(p: Point) -> Cell {
    (p.0 as int, p.1 as int)
}

/// Whether a cell lies on the playing field.
pub open spec fn in_grid(c: Cell) -> bool {
    0 <= c.0 < SQUARES && 0 <= c.1 < SQUARES
}

/// Whether two cells share an edge.
pub open spec fn adjacent(a: Cell, b: Cell) -> bool {
    ||| a.0 == b.0 && (a.1 == b.1 + 1 || a.1 + 1 == b.1)
    ||| a.1 == b.1 && (a.0 == b.0 + 1 || a.0 + 1 == b.0)
}

/// Decides whether a stored position lies on the playing field.
pub fn point_in_grid(p: Point) -> (inside: bool)
    ensures
        inside == in_grid(cell_of(p)),
{
    0 <= p.0 && p.0 < SQUARES && 0 <= p.1 && p.1 < SQUARES
}

/// Decides whether two stored positions share an edge.
pub fn points_adjacent(a: Point, b: Point) -> (touching: bool)
    ensures
        touching == adjacent(cell_of(a), cell_of(b)),
{
    let ax: i32 = a.0 as i32;
    let ay: i32 = a.1 as i32;
    let bx: i32 = b.0 as i32;
    let by: i32 = b.1 as i32;
    (ax == bx && (ay == by + 1 || ay + 1 == by)) || (ay == by && (ax == bx + 1 || ax + 1 == bx))
}

/// One of the four ways the snake can travel.
#[derive(Clone, Copy, Debug, PartialEq, Eq, Structural)]
pub enum Direction {
    Up,
    Down,
    Left,
    Right,
}

impl Direction {
    /// The step that one move in this direction adds to a cell.
    pub open spec fn delta(self) -> Cell {
        match self {
            Direction::Up => (0, -1),
            Direction::Down => (0, 1),
            Direction::Left => (-1, 0),
            Direction::Right => (1, 0),
        }
    }

    /// The direction that points the other way.
    pub open spec fn opposite(self) -> Direction {
        match self {
            Direction::Up => Direction::Down,
            Direction::Down => Direction::Up,
            Direction::Left => Direction::Right,
            Direction::Right => Direction::Left,
        }
    }

    /// The stored vector of this direction.
    pub fn vector(self) -> (v: Point)
        ensures
            cell_of(v) == self.delta(),
    {
        match self {
            Direction::Up => UP,
            Direction::Down => DOWN,
            Direction::Left => LEFT,
            Direction::Right => RIGHT,
        }
    }
}

/// Where a step in direction `d` leads from cell `c`.
pub open spec fn step_from(c: Cell, d: Direction) -> Cell {
    (c.0 + d.delta().0, c.1 + d.delta().1)
}

/// Returns the direction that points the other way: its vector is the
/// negated vector of `d`.
pub fn get_opposite(d: Direction) -> (o: Direction)
    ensures
        o == d.opposite(),
        o.delta() == (-d.delta().0, -d.delta().1),
{
    match d {
        Direction::Up => Direction::Down,
        Direction::Down => Direction::Up,
        Direction::Left => Direction::Right,
        Direction::Right => Direction::Left,
    }
}

/// Turning round twice gives the direction one started with, and no
/// direction is its own opposite.
pub proof fn lemma_opposite_involution(d: Direction)
    ensures
        d.opposite().opposite() == d,
        d.opposite() != d,
{
}

/// A step always leads to an adjacent cell, never to the same one.
pub proof fn lemma_step_is_adjacent(c: Cell, d: Direction)
    ensures
        adjacent(step_from(c, d), c),
        step_from(c, d) != c,
{
}

/// The number of a field cell when the cells are counted column by column.
pub open spec fn cell_index(c: Cell) -> int {
    c.0 * SQUARES + c.1
}

/// Pairwise different cells of the field are at most as many as the field
/// has cells.
pub proof fn lemma_distinct_cells_fit_grid(cells: Seq<Cell>)
    requires
        cells.no_duplicates(),
        forall|i: int| 0 <= i < cells.len() ==> in_grid(#[trigger] cells[i]),
    ensures
        cells.len() <= SQUARES * SQUARES,
{
    let numbers = cells.map_values(|c: Cell| cell_index(c));
    assert forall|i: int, j: int|
        0 <= i < numbers.len() && 0 <= j < numbers.len() && i != j implies numbers[i]
        != numbers[j] by {
        assert(in_grid(cells[i]) && in_grid(cells[j]));
        assert(cells[i] != cells[j]);
    }
    numbers.unique_seq_to_set();
    let all = set_int_range(0, SQUARES * SQUARES);
    lemma_int_range(0, SQUARES * SQUARES);
    assert forall|n: int| numbers.to_set().contains(n) implies all.contains(n) by {
        let i = choose|i: int| 0 <= i < numbers.len() && numbers[i] == n;
        assert(in_grid(cells[i]));
    }
    lemma_len_subset(numbers.to_set(), all);
}

} // verus!

use crate::rng::rand_below;
use oorandom::Rand32;
use vstd::prelude::*;

verus! {

/// Number of columns of the playing field.
pub const GRID_WIDTH: i16 = 30;

/// Number of rows of the playing field.
pub const GRID_HEIGHT: i16 = 20;

/// Side of one cell, in pixels.
pub const CELL_SIZE: i32 = 32;

/// A cell of the playing field.
#[derive(Clone, Copy, Debug, PartialEq, Eq, Structural)]
pub struct GridPosition {
    pub x: i16,
    pub y: i16,
}

/// One of the four ways the snake can travel.
#[derive(Clone, Copy, Debug, PartialEq, Eq, Structural)]
pub enum Direction {
    Up,
    Down,
    Left,
    Right,
}

/// The keys the game reacts to; every other key is `Other`.
#[derive(Clone, Copy, Debug, PartialEq, Eq, Structural)]
pub enum Key {
    Up,
    Down,
    Left,
    Right,
    Return,
    Escape,
    Other,
}

impl GridPosition {
    /// The cell lies on the playing field.
    pub open spec fn in_grid(self) -> bool {
        0 <= self.x < GRID_WIDTH && 0 <= self.y < GRID_HEIGHT
    }

    pub fn new(x: i16, y: i16) -> (r: Self)
        ensures
            r.x == x,
            r.y == y,
    {
        GridPosition { x, y }
    }

    /// A cell drawn from `rng` in `[0, max_x) x [0, max_y)`.
    pub fn random(rng: &mut Rand32, max_x: i16, max_y: i16) -> (r: Self)
        requires
            0 < max_x,
            0 < max_y,
        ensures
            0 <= r.x < max_x,
            0 <= r.y < max_y,
    {
        (rand_below(rng, max_x as u32) as i16, rand_below(rng, max_y as u32) as i16).into()
    }

    /// The cell one step from `pos` in direction `dir`, wrapping around
    /// each edge of the field.
    pub fn new_from_move(pos: GridPosition, dir: Direction) -> (r: Self)
        ensures
            r == advance(pos, dir),
            pos.in_grid() ==> r.in_grid(),
    {
        match dir {
            Direction::Up => GridPosition::new(pos.x, wrap(pos.y as i32 - 1, GRID_HEIGHT as i32)),
            Direction::Down => GridPosition::new(pos.x, wrap(pos.y as i32 + 1, GRID_HEIGHT as i32)),
            Direction::Left => GridPosition::new(wrap(pos.x as i32 - 1, GRID_WIDTH as i32), pos.y),
            Direction::Right => GridPosition::new(wrap(pos.x as i32 + 1, GRID_WIDTH as i32), pos.y),
        }
    }

    /// The pixel rectangle `(x, y, width, height)` that the cell covers on screen.
    pub fn pixel_rect(self) -> (r: (i32, i32, i32, i32))
        ensures
            r.0 == self.x * CELL_SIZE,
            r.1 == self.y * CELL_SIZE,
            r.2 == CELL_SIZE,
            r.3 == CELL_SIZE,
    {
        (self.x as i32 * CELL_SIZE, self.y as i32 * CELL_SIZE, CELL_SIZE, CELL_SIZE)
    }
}

/// The non-negative remainder of `v` divided by `n`.
fn wrap(v: i32, n: i32) -> (r: i16)
    requires
        0 < n <= i16::MAX,
    ensures
        r == v % n,
        0 <= r < n,
{
    match v.checked_rem_euclid(n) {
        Some(m) => m as i16,
        None => 0,
    }
}

impl From<(i16, i16)> for GridPosition {
    fn from(pos: (i16, i16)) -> (r: Self) {
        GridPosition { x: pos.0, y: pos.1 }
    }
}

impl vstd::std_specs::convert::FromSpecImpl<(i16, i16)> for GridPosition {
    open spec fn obeys_from_spec() -> bool {
        true
    }

    open spec fn from_spec(pos: (i16, i16)) -> GridPosition {
        GridPosition { x: pos.0, y: pos.1 }
    }
}

/// Where one step in direction `d` leads from `p`: Up and Down change the
/// row, Left and Right the column, each modulo the size of the field.
pub open spec fn advance(p: GridPosition, d: Direction) -> GridPosition {
    match d {
        Direction::Up => GridPosition { x: p.x, y: ((p.y - 1) % (GRID_HEIGHT as int)) as i16 },
        Direction::Down => GridPosition { x: p.x, y: ((p.y + 1) % (GRID_HEIGHT as int)) as i16 },
        Direction::Left => GridPosition { x: ((p.x - 1) % (GRID_WIDTH as int)) as i16, y: p.y },
        Direction::Right => GridPosition { x: ((p.x + 1) % (GRID_WIDTH as int)) as i16, y: p.y },
    }
}

/// The opposite direction.
pub open spec fn opposite(d: Direction) -> Direction {
    match d {
        Direction::Up => Direction::Down,
        Direction::Down => Direction::Up,
        Direction::Left => Direction::Right,
        Direction::Right => Direction::Left,
    }
}

/// The direction a key stands for, if any.
pub open spec fn key_direction(key: Key) -> Option<Direction> {
    match key {
        Key::Up => Some(Direction::Up),
        Key::Down => Some(Direction::Down),
        Key::Left => Some(Direction::Left),
        Key::Right => Some(Direction::Right),
        _ => None,
    }
}

/// The direction that the numbers 0, 1, 2 and anything else stand for.
pub open spec fn direction_of(n: u32) -> Direction {
    if n == 0 {
        Direction::Up
    } else if n == 1 {
        Direction::Down
    } else if n == 2 {
        Direction::Left
    } else {
        Direction::Right
    }
}

impl Direction {
    pub fn inverse(self) -> (r: Self)
        ensures
            r == opposite(self),
    {
        match self {
            Direction::Up => Direction::Down,
            Direction::Down => Direction::Up,
            Direction::Left => Direction::Right,
            Direction::Right => Direction::Left,
        }
    }

    /// The direction an arrow key stands for; `None` for any other key.
    pub fn from_keycode(key: Key) -> (r: Option<Direction>)
        ensures
            r == key_direction(key),
    {
        match key {
            Key::Up => Some(Direction::Up),
            Key::Down => Some(Direction::Down),
            Key::Left => Some(Direction::Left),
            Key::Right => Some(Direction::Right),
            _ => None,
        }
    }

    /// A direction drawn from `rng`.
    pub fn random_direction(rng: &mut Rand32) -> (r: Self) {
        Direction::from_index(rand_below(rng, 4))
    }

    /// Maps a number drawn from `0..4` to a direction.
    pub fn from_index(n: u32) -> (r: Direction)
        ensures
            r == direction_of(n),
    {
        match n {
            0 => Direction::Up,
            1 => Direction::Down,
            2 => Direction::Left,
            _ => Direction::Right,
        }
    }
}

/// Stepping one way and then back returns to the starting cell, for every
/// cell of the field, the border cells included.
pub proof fn lemma_advance_inverse(p: GridPosition, d: Direction)
    requires
        p.in_grid(),
    ensures
        advance(advance(p, d), opposite(d)) == p,
        advance(p, d).in_grid(),
{
}

/// Two different directions lead from any cell to two different cells.
pub proof fn lemma_advance_injective(p: GridPosition, a: Direction, b: Direction)
    requires
        a != b,
    ensures
        advance(p, a) != advance(p, b),
{
}

} // verus!

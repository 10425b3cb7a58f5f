//! Shared value types: points, directions, game and UI modes.

use vstd::prelude::*;

use crate::client::models::InputContent;
use crate::rng::rand_below;

verus! {

/// Layout chosen by the renderer; mutated only by explicit user
/// commands, never by the simulation itself.
#[derive(Clone, Copy, PartialEq, Eq, Structural, Debug)]
pub enum UIMode {
    Game,
    GameWithDebug,
    SelectingMode,
}

/// Which command source drives the snake: the player's keyboard or an
/// external command-suggestion provider.
#[derive(Clone, Copy, PartialEq, Eq, Structural, Debug)]
pub enum GameMod {
    Player,
    Api(Provider),
}

/// The configured command-suggestion providers.
#[derive(Clone, Copy, PartialEq, Eq, Structural, Hash, Debug)]
pub enum Provider {
    Groq,
    Ollama,
}

/// The simulation's lifecycle state.
#[derive(Clone, Copy, PartialEq, Eq, Structural, Debug)]
pub enum GameState {
    Running,
    NotStarted,
    GameOver,
}

/// One request travelling from the game loop to the autopilot worker:
/// which provider to ask, and the coordinates it needs.
pub struct RequestInfo {
    pub provider: Provider,
    pub input: InputContent,
}

/// A movement direction on the board.
#[derive(Clone, Copy, PartialEq, Eq, Structural, Debug)]
pub enum Direction {
    Up,
    Down,
    Left,
    Right,
}

impl Direction {
    /// The direction pointing the opposite way.
    pub open spec fn opposite_spec(self) -> Direction {
        match self {
            Direction::Up => Direction::Down,
            Direction::Down => Direction::Up,
            Direction::Left => Direction::Right,
            Direction::Right => Direction::Left,
        }
    }

    pub fn opposite(&self) -> (r: Direction)
        ensures
            r == self.opposite_spec(),
    {
        match self {
            Direction::Up => Direction::Down,
            Direction::Down => Direction::Up,
            Direction::Left => Direction::Right,
            Direction::Right => Direction::Left,
        }
    }

    /// The lowercase name used on the wire by the provider protocol.
    pub fn _as_string(&self) -> (r: String)
        ensures
            r@ == self.name_spec(),
    {
        match self {
            Direction::Up => "up".to_owned(),
            Direction::Down => "down".to_owned(),
            Direction::Left => "left".to_owned(),
            Direction::Right => "right".to_owned(),
        }
    }

    pub open spec fn name_spec(self) -> Seq<char> {
        match self {
            Direction::Up => "up"@,
            Direction::Down => "down"@,
            Direction::Left => "left"@,
            Direction::Right => "right"@,
        }
    }
}

/// Taking the opposite twice returns to the starting direction.
pub proof fn lemma_opposite_involutive(d: Direction)
    ensures
        d.opposite_spec().opposite_spec() == d,
{
}

/// A cell on the board. Bounds are enforced by the board, not here.
#[derive(Clone, Copy, PartialEq, Eq, Structural, Debug)]
pub struct Point {
    pub x: i32,
    pub y: i32,
}

/// Whether a point lies strictly inside a `width` by `height` board.
pub open spec fn in_bounds(p: Point, width: int, height: int) -> bool {
    0 <= p.x < width && 0 <= p.y < height
}

impl Point {
    pub fn new(x: i32, y: i32) -> (r: Self)
        ensures
            r == (Point { x, y }),
    {
        Self { x, y }
    }

    /// A uniformly random in-bounds point.
    pub fn new_random(width: i32, height: i32) -> (r: Self)
        requires
            width > 0,
            height > 0,
        ensures
            in_bounds(r, width as int, height as int),
    {
        Self::new(rand_below(width), rand_below(height))
    }

    /// The centre cell of a `width` by `height` board.
    pub fn new_center(width: i32, height: i32) -> (r: Self)
        requires
            width >= 0,
            height >= 0,
        ensures
            r.x == width / 2,
            r.y == height / 2,
    {
        Self::new(width / 2, height / 2)
    }
}

} // verus!

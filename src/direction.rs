//! Compass directions on the grid, and turning between them.
use vstd::prelude::*;

verus! {

/// A cell of the grid: `x` grows eastward, `y` grows northward from the ground row.
#[derive(Clone, Copy, Debug, PartialEq, Eq, Structural)]
pub struct Position {
    pub x: usize,
    pub y: usize,
}

/// One of the eight compass directions a branch can grow in.
#[derive(Clone, Copy, Debug, PartialEq, Eq, Structural)]
pub enum Direction {
    North,
    NorthEast,
    East,
    SouthEast,
    South,
    SouthWest,
    West,
    NorthWest,
}

/// Which way a branch turns: left is counter-clockwise, right is clockwise.
#[derive(Clone, Copy, Debug, PartialEq, Eq, Structural)]
pub enum TurnDirection {
    Left,
    Right,
}

/// The place of a direction on the compass, counted clockwise from north.
pub open spec fn compass_index(d: Direction) -> int {
    match d {
        Direction::North => 0,
        Direction::NorthEast => 1,
        Direction::East => 2,
        Direction::SouthEast => 3,
        Direction::South => 4,
        Direction::SouthWest => 5,
        Direction::West => 6,
        Direction::NorthWest => 7,
    }
}

/// The direction at a place of the compass; places are taken modulo eight.
pub open spec fn from_compass(i: int) -> Direction {
    let k = i % 8;
    if k == 0 {
        Direction::North
    } else if k == 1 {
        Direction::NorthEast
    } else if k == 2 {
        Direction::East
    } else if k == 3 {
        Direction::SouthEast
    } else if k == 4 {
        Direction::South
    } else if k == 5 {
        Direction::SouthWest
    } else if k == 6 {
        Direction::West
    } else {
        Direction::NorthWest
    }
}

/// `d` rotated by 45 degrees: one place clockwise for a right turn, one place
/// counter-clockwise for a left turn.
pub open spec fn rotated(d: Direction, t: TurnDirection) -> Direction {
    match t {
        TurnDirection::Right => from_compass(compass_index(d) + 1),
        TurnDirection::Left => from_compass(compass_index(d) + 7),
    }
}

/// North, north-east and north-west.
pub open spec fn heads_north(d: Direction) -> bool {
    d == Direction::North || d == Direction::NorthEast || d == Direction::NorthWest
}

/// West and north-west.
pub open spec fn heads_west(d: Direction) -> bool {
    d == Direction::West || d == Direction::NorthWest
}

/// East and north-east.
pub open spec fn heads_east(d: Direction) -> bool {
    d == Direction::East || d == Direction::NorthEast
}

/// East and west only.
pub open spec fn heads_horizontally(d: Direction) -> bool {
    d == Direction::East || d == Direction::West
}

impl Direction {
    pub fn is_moving_north(&self) -> (r: bool)
        ensures
            r == heads_north(*self),
    {
        match self {
            Direction::North => true,
            Direction::NorthEast => true,
            Direction::East => false,
            Direction::SouthEast => false,
            Direction::South => false,
            Direction::SouthWest => false,
            Direction::West => false,
            Direction::NorthWest => true,
        }
    }

    pub fn is_moving_west(&self) -> (r: bool)
        ensures
            r == heads_west(*self),
    {
        match self {
            Direction::North => false,
            Direction::NorthEast => false,
            Direction::East => false,
            Direction::SouthEast => false,
            Direction::South => false,
            Direction::SouthWest => false,
            Direction::West => true,
            Direction::NorthWest => true,
        }
    }

    pub fn is_moving_east(&self) -> (r: bool)
        ensures
            r == heads_east(*self),
    {
        match self {
            Direction::North => false,
            Direction::NorthEast => true,
            Direction::East => true,
            Direction::SouthEast => false,
            Direction::South => false,
            Direction::SouthWest => false,
            Direction::West => false,
            Direction::NorthWest => false,
        }
    }

    pub fn is_moving_horizontally(&self) -> (r: bool)
        ensures
            r == heads_horizontally(*self),
    {
        match self {
            Direction::North => false,
            Direction::NorthEast => false,
            Direction::East => true,
            Direction::SouthEast => false,
            Direction::South => false,
            Direction::SouthWest => false,
            Direction::West => true,
            Direction::NorthWest => false,
        }
    }

    /// The neighbouring direction 45 degrees to the left or to the right.
    pub fn turn(&self, turning: TurnDirection) -> (r: Direction)
        ensures
            r == rotated(*self, turning),
    {
        let left = match turning {
            TurnDirection::Left => true,
            TurnDirection::Right => false,
        };
        match self {
            Direction::North => if left { Direction::NorthWest } else { Direction::NorthEast },
            Direction::NorthEast => if left { Direction::North } else { Direction::East },
            Direction::East => if left { Direction::NorthEast } else { Direction::SouthEast },
            Direction::SouthEast => if left { Direction::East } else { Direction::South },
            Direction::South => if left { Direction::SouthEast } else { Direction::SouthWest },
            Direction::SouthWest => if left { Direction::South } else { Direction::West },
            Direction::West => if left { Direction::SouthWest } else { Direction::NorthWest },
            Direction::NorthWest => if left { Direction::West } else { Direction::North },
        }
    }
}

/// Turning right and then left, or left and then right, comes back to the
/// starting direction.
pub proof fn lemma_turn_round_trip(d: Direction)
    ensures
        rotated(rotated(d, TurnDirection::Right), TurnDirection::Left) == d,
        rotated(rotated(d, TurnDirection::Left), TurnDirection::Right) == d,
{
}

/// `d` turned the same way `n` times.
pub open spec fn turned_times(d: Direction, t: TurnDirection, n: nat) -> Direction
    decreases n,
{
    if n == 0 {
        d
    } else {
        rotated(turned_times(d, t, (n - 1) as nat), t)
    }
}

/// How many places clockwise one turn moves on the compass.
pub open spec fn turn_places(t: TurnDirection) -> int {
    match t {
        TurnDirection::Right => 1,
        TurnDirection::Left => 7,
    }
}

proof fn lemma_turned_index(d: Direction, t: TurnDirection, n: nat)
    ensures
        compass_index(turned_times(d, t, n)) == (compass_index(d) + n * turn_places(t)) % 8,
    decreases n,
{
    if n > 0 {
        lemma_turned_index(d, t, (n - 1) as nat);
        let prev = turned_times(d, t, (n - 1) as nat);
        assert(compass_index(rotated(prev, t)) == (compass_index(prev) + turn_places(t)) % 8);
        assert((compass_index(d) + (n - 1) * turn_places(t)) % 8 + turn_places(t)
            == (compass_index(d) + n * turn_places(t)) % 8 + 8 * (
        (compass_index(d) + n * turn_places(t)) / 8 - (compass_index(d) + (n - 1) * turn_places(t)) / 8))
            by (nonlinear_arith);
    }
}

/// Eight turns the same way make a full circle.
pub proof fn lemma_full_circle(d: Direction, t: TurnDirection)
    ensures
        turned_times(d, t, 8) == d,
{
    lemma_turned_index(d, t, 8);
    assert((compass_index(d) + 8 * turn_places(t)) % 8 == compass_index(d));
}

/// Of the eight directions, three head north, two head west, two head east and
/// two are horizontal.
pub proof fn lemma_heading_counts()
    ensures
        Set::new(|d: Direction| heads_north(d)).len() == 3,
        Set::new(|d: Direction| heads_west(d)).len() == 2,
        Set::new(|d: Direction| heads_east(d)).len() == 2,
        Set::new(|d: Direction| heads_horizontally(d)).len() == 2,
{
    let n = set![Direction::North, Direction::NorthEast, Direction::NorthWest];
    let w = set![Direction::West, Direction::NorthWest];
    let e = set![Direction::East, Direction::NorthEast];
    let h = set![Direction::East, Direction::West];
    assert(Set::new(|d: Direction| heads_north(d)) =~= n);
    assert(Set::new(|d: Direction| heads_west(d)) =~= w);
    assert(Set::new(|d: Direction| heads_east(d)) =~= e);
    assert(Set::new(|d: Direction| heads_horizontally(d)) =~= h);
}

} // verus!

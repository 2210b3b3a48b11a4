//! The four cardinal directions and the reversal rule.

use vstd::prelude::*;

verus! {

/// A cardinal direction on the grid. `Up` decreases `y`, `Down` increases it.
#[derive(Clone, Copy, Debug, PartialEq, Eq, Hash, Structural)]
pub enum Direction {
    Up,
    Down,
    Left,
    Right,
}

impl Direction {
    /// The direction that points the other way: Up and Down are a pair, Left
    /// and Right are a pair.
    pub open spec fn opposite(self) -> Direction {
        match self {
            Direction::Up => Direction::Down,
            Direction::Down => Direction::Up,
            Direction::Left => Direction::Right,
            Direction::Right => Direction::Left,
        }
    }

    /// Horizontal displacement of one step in this direction.
    pub open spec fn dx(self) -> int {
        match self {
            Direction::Left => -1,
            Direction::Right => 1,
            _ => 0,
        }
    }

    /// Vertical displacement of one step in this direction.
    pub open spec fn dy(self) -> int {
        match self {
            Direction::Up => -1,
            Direction::Down => 1,
            _ => 0,
        }
    }

    /// The direction a snake heading `self` takes when asked to head
    /// `requested`: a reversal is ignored, anything else is taken.
    pub open spec fn turned(self, requested: Direction) -> Direction {
        if requested == self.opposite() {
            self
        } else {
            requested
        }
    }

    /// Tells whether `other` is the exact reverse of `self`.
    pub fn is_opposite(self, other: Direction) -> (r: bool)
        ensures
            r == (other == self.opposite()),
    {
        match (self, other) {
            (Direction::Up, Direction::Down) => true,
            (Direction::Down, Direction::Up) => true,
            (Direction::Left, Direction::Right) => true,
            (Direction::Right, Direction::Left) => true,
            _ => false,
        }
    }

    /// Applies the reversal rule: returns `self` when `requested` is its
    /// reverse and `requested` otherwise.
    pub fn turn(self, requested: Direction) -> (r: Direction)
        ensures
            r == self.turned(requested),
    {
        if self.is_opposite(requested) {
            self
        } else {
            requested
        }
    }
}

/// Taking the opposite twice gives the direction back, and no direction is
/// its own opposite.
pub proof fn lemma_opposite_involution(d: Direction)
    ensures
        d.opposite().opposite() == d,
        d.opposite() != d,
{
}

/// A reversal never changes the heading; every other request becomes the
/// heading.
pub proof fn lemma_reversal_rejected(current: Direction, requested: Direction)
    ensures
        current.turned(current.opposite()) == current,
        requested != current.opposite() ==> current.turned(requested) == requested,
        current.turned(requested) != current.opposite(),
{
}

} // verus!

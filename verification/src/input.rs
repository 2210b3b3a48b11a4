//! The keys sampled for one frame.

use vstd::prelude::*;
use crate::direction::Direction;

verus! {

/// What the player pressed during one frame. Each flag says that a key with
/// that meaning went down in this frame, not that it is held.
#[derive(Clone, Copy, Debug, PartialEq, Eq, Structural)]
pub struct FrameInput {
    /// A key for heading up.
    pub up: bool,
    /// A key for heading down.
    pub down: bool,
    /// A key for heading left.
    pub left: bool,
    /// A key for heading right.
    pub right: bool,
    /// The key that starts a round from the menu and restarts after a game
    /// over.
    pub confirm: bool,
    /// The key that pauses and resumes, and that leaves a finished round for
    /// the menu.
    pub cancel: bool,
}

impl FrameInput {
    /// The direction asked for in this frame. When several direction keys
    /// went down at once, up wins over down, down over left and left over
    /// right.
    pub open spec fn requested(self) -> Option<Direction> {
        if self.up {
            Some(Direction::Up)
        } else if self.down {
            Some(Direction::Down)
        } else if self.left {
            Some(Direction::Left)
        } else if self.right {
            Some(Direction::Right)
        } else {
            None
        }
    }

    /// Picks the direction asked for in this frame.
    pub fn direction(&self) -> (d: Option<Direction>)
        ensures
            d == self.requested(),
    {
        if self.up {
            Some(Direction::Up)
        } else if self.down {
            Some(Direction::Down)
        } else if self.left {
            Some(Direction::Left)
        } else if self.right {
            Some(Direction::Right)
        } else {
            None
        }
    }
}

impl Default for FrameInput {
    /// A frame in which nothing was pressed.
    fn default() -> (input: FrameInput)
        ensures
            input == (FrameInput {
                up: false,
                down: false,
                left: false,
                right: false,
                confirm: false,
                cancel: false,
            }),
    {
        FrameInput {
            up: false,
            down: false,
            left: false,
            right: false,
            confirm: false,
            cancel: false,
        }
    }
}

} // verus!

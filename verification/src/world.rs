//! The four headings of the play field.

use vstd::prelude::*;

verus! {

/// A cardinal heading. The screen's y axis grows downward, so north is the
/// negative y direction.
#[derive(Debug, Clone, Copy, PartialEq, Eq, Structural)]
pub enum Direction {
    North,
    South,
    East,
    West,
}

impl Direction {
    /// Whether the heading runs along the x axis.
    pub open spec fn horizontal(self) -> bool {
        self is East || self is West
    }

    /// `1` where the heading points toward growing coordinates, `-1` otherwise.
    pub open spec fn sign(self) -> int {
        match self {
            Direction::South | Direction::East => 1,
            Direction::North | Direction::West => -1,
        }
    }

    /// `amount` counted along the heading, as a change of the coordinate on
    /// the heading's axis: `sign()` times `amount`.
    pub open spec fn oriented(self, amount: int) -> int {
        if self.sign() == 1 {
            amount
        } else {
            -amount
        }
    }

    /// Whether the heading runs along the x axis.
    pub fn is_horizontal(&self) -> (along_x: bool)
        ensures
            along_x == self.horizontal(),
    {
        match self {
            Direction::East | Direction::West => true,
            Direction::North | Direction::South => false,
        }
    }

    /// Whether the heading points toward growing coordinates.
    pub fn is_positive(&self) -> (growing: bool)
        ensures
            growing == (self.sign() == 1),
            !growing == (self.sign() == -1),
    {
        match self {
            Direction::South | Direction::East => true,
            Direction::North | Direction::West => false,
        }
    }
}

} // verus!

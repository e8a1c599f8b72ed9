use vstd::prelude::*;

verus! {

/// A compass orientation; `Neutral` stands for "no particular side" and is
/// used to ask for a portal endpoint regardless of its facing.
#[derive(Clone, Copy, PartialEq, Eq, Structural, Debug)]
pub enum Direction {
    North,
    South,
    East,
    West,
    Neutral,
}

impl Direction {
    /// Which movement axis a thin wall with this orientation restricts:
    /// an orientation "under light" (north or south, facing along Y)
    /// restricts motion along Y and leaves X free; the others leave Y free.
    pub open spec fn is_under_light_spec(self) -> bool {
        match self {
            Direction::North => true,
            Direction::South => true,
            _ => false,
        }
    }

    pub fn is_under_light(&self) -> (r: bool)
        ensures
            r == self.is_under_light_spec(),
    {
        match self {
            Direction::North => true,
            Direction::South => true,
            _ => false,
        }
    }

    /// Counterclockwise quarter turns from East that this orientation makes;
    /// `Neutral` counts as no turn.
    pub open spec fn quarters_spec(self) -> int {
        match self {
            Direction::East => 0,
            Direction::North => 1,
            Direction::West => 2,
            Direction::South => 3,
            Direction::Neutral => 0,
        }
    }

    pub fn quarters(&self) -> (q: i64)
        ensures
            q == self.quarters_spec(),
    {
        match self {
            Direction::East => 0,
            Direction::North => 1,
            Direction::West => 2,
            Direction::South => 3,
            Direction::Neutral => 0,
        }
    }
}

} // verus!

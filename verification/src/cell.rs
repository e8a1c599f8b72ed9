use vstd::prelude::*;
use crate::direction::Direction;
use crate::fixed::FX_SCALE;

verus! {

/// A sub-cell-depth obstacle (a door, a grate) offset `depth` into its cell
/// from one face and oriented along `dir`. `slide` is the least fractional
/// offset on the free axis at which an actor may slip past it; `shut` is the
/// door state that `Cell::trigger` toggles.
#[derive(Clone, Copy, PartialEq, Eq, Structural, Debug)]
pub struct ThinWall {
    pub value: u32,
    pub dir: Direction,
    pub slide: i64,
    pub depth: i64,
    pub shut: bool,
}

/// Content of one unit of the integer grid.
#[derive(Clone, Copy, PartialEq, Eq, Structural, Debug)]
pub enum Cell {
    /// No obstruction.
    Empty,
    /// An opaque wall occupying `height` of the cell's vertical extent from
    /// its floor; `value` is an opaque texture id.
    Wall { value: u32, height: i64 },
    /// A thin offset wall.
    Thin(ThinWall),
}

impl Cell {
    /// Heights and thin-wall parameters stay within their meaningful range.
    pub open spec fn wf(self) -> bool {
        match self {
            Cell::Empty => true,
            Cell::Wall { value, height } => 0 <= height <= 100 * FX_SCALE,
            Cell::Thin(t) => 0 <= t.slide <= FX_SCALE && 0 <= t.depth <= FX_SCALE,
        }
    }

    /// Height of the standing surface this cell offers above its floor:
    /// walls act as platforms up to their height, everything else is flat.
    pub open spec fn height_spec(self) -> int {
        match self {
            Cell::Wall { value, height } => height as int,
            _ => 0,
        }
    }

    pub fn height(&self) -> (h: i64)
        ensures
            h == self.height_spec(),
    {
        match self {
            Cell::Wall { value, height } => *height,
            _ => 0,
        }
    }

    /// The opaque id a ray reports when it stops in this cell.
    pub open spec fn value_spec(self) -> Option<u32> {
        match self {
            Cell::Empty => Option::None,
            Cell::Wall { value, height } => Option::Some(value),
            Cell::Thin(t) => Option::Some(t.value),
        }
    }

    pub fn value_of(&self) -> (v: Option<u32>)
        ensures
            v == self.value_spec(),
    {
        match self {
            Cell::Empty => Option::None,
            Cell::Wall { value, height } => Option::Some(*value),
            Cell::Thin(t) => Option::Some(t.value),
        }
    }

    /// The cell after one interaction: a thin wall (a door) flips between
    /// shut and open; other cells do not react.
    pub open spec fn trigger_spec(self) -> Cell {
        match self {
            Cell::Thin(t) => Cell::Thin(
                ThinWall {
                    value: t.value,
                    dir: t.dir,
                    slide: t.slide,
                    depth: t.depth,
                    shut: !t.shut,
                },
            ),
            c => c,
        }
    }

    /// Toggle the cell's interactable state.
    pub fn trigger(&mut self)
        ensures
            *final(self) == old(self).trigger_spec(),
    {
        match self {
            Cell::Thin(t) => {
                t.shut = !t.shut;
            },
            _ => {},
        }
    }
}

} // verus!

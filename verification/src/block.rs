use vstd::prelude::*;
use crate::footprint::Footprint;

verus! {

/// The width of the widest block that is ever offered.
pub const WIDEST_BLOCK: u32 = 3;

/// Width, in columns, of the block that is offered at `level`: three columns
/// on the first three levels, two on the next five, one from then on.
pub open spec fn width_at(level: nat) -> nat {
    if level <= 2 {
        3
    } else if level <= 7 {
        2
    } else {
        1
    }
}

/// Computes the width of the block that is offered at `level`.
pub fn width_for_level(level: u32) -> (width: u32)
    ensures
        width == width_at(level as nat),
        1 <= width <= WIDEST_BLOCK,
{
    if level <= 2 {
        3
    } else if level <= 7 {
        2
    } else {
        1
    }
}

/// The way a block is heading.
#[derive(Clone, Copy, Debug, PartialEq, Eq, Structural)]
pub enum Direction {
    Left,
    Stopped,
    Right,
}

impl Direction {
    /// The change of column that one step in this direction makes: -1, 0 or +1.
    pub open spec fn delta(self) -> int {
        match self {
            Direction::Left => -1,
            Direction::Stopped => 0,
            Direction::Right => 1,
        }
    }

    /// The change of column that one step in this direction makes.
    pub fn offset(&self) -> (step: i32)
        ensures
            step == self.delta(),
    {
        match self {
            Direction::Left => -1,
            Direction::Stopped => 0,
            Direction::Right => 1,
        }
    }
}

/// The one segment that is sliding across the lane, or has just been frozen.
#[derive(Clone, Copy, Debug, PartialEq, Eq, Structural)]
pub struct Block {
    pub width: u32,
    pub left_column: u32,
    pub direction: Direction,
    pub active: bool,
}

impl Block {
    /// The columns that the block occupies.
    pub open spec fn cells(self) -> Footprint {
        Footprint { left_column: self.left_column, width: self.width }
    }

    /// The block lies inside a lane of `columns` columns, it is at least one
    /// column wide, and it is heading somewhere exactly while it is active.
    pub open spec fn valid_in(self, columns: u32) -> bool {
        &&& self.width >= 1
        &&& self.left_column + self.width <= columns
        &&& self.active <==> self.direction != Direction::Stopped
    }

    /// The block is valid in the lane and narrower than it, so that a step
    /// has somewhere to go.
    pub open spec fn movable_in(self, columns: u32) -> bool {
        self.valid_in(columns) && self.width < columns
    }

    /// The block that is offered at `level`: at the left edge, heading right.
    pub open spec fn fresh(level: nat) -> Block {
        Block {
            width: width_at(level) as u32,
            left_column: 0,
            direction: Direction::Right,
            active: true,
        }
    }

    /// The direction in which an active block takes its next step: away from
    /// the lane's edge where it stands at one, as before elsewhere. The right
    /// edge is looked at first.
    pub open spec fn heading(self, columns: u32) -> Direction {
        if self.left_column == columns - self.width {
            Direction::Left
        } else if self.left_column == 0 {
            Direction::Right
        } else {
            self.direction
        }
    }

    /// The block after one elapsed tick: an active block turns where it stands
    /// at an edge and then moves one column; an inactive one stays as it is.
    pub open spec fn moved(self, columns: u32) -> Block {
        if self.active {
            let direction = self.heading(columns);
            Block {
                direction,
                left_column: (self.left_column + direction.delta()) as u32,
                ..self
            }
        } else {
            self
        }
    }

    /// The block once frozen: where it was, inactive and stopped.
    pub open spec fn frozen(self) -> Block {
        Block { direction: Direction::Stopped, active: false, ..self }
    }

    /// Creates the block that is offered at `level`.
    pub fn spawn(level: u32) -> (block: Block)
        ensures
            block == Block::fresh(level as nat),
            forall|columns: u32| columns >= WIDEST_BLOCK ==> block.valid_in(columns),
    {
        Block {
            width: width_for_level(level),
            left_column: 0,
            direction: Direction::Right,
            active: true,
        }
    }

    /// Tests whether the block is valid in a lane of `columns` columns.
    pub fn fits(&self, columns: u32) -> (ok: bool)
        ensures
            ok == self.valid_in(columns),
    {
        let heading_somewhere: bool = match self.direction {
            Direction::Stopped => false,
            _ => true,
        };
        self.width >= 1 && self.left_column as u64 + self.width as u64 <= columns as u64
            && self.active == heading_somewhere
    }

    /// Tests whether the block is valid in the lane and has room to step.
    pub fn can_move(&self, columns: u32) -> (ok: bool)
        ensures
            ok == self.movable_in(columns),
    {
        self.fits(columns) && self.width < columns
    }

    /// The columns that the block occupies.
    pub fn footprint(&self) -> (footprint: Footprint)
        ensures
            footprint == self.cells(),
    {
        Footprint { left_column: self.left_column, width: self.width }
    }

    /// Moves the block by one elapsed tick. An active block first turns away
    /// from the edge of the lane where it stands at one, then moves one column
    /// in its direction, and so stays inside the lane. An inactive block is
    /// left as it is.
    pub fn advance(&mut self, columns: u32)
        requires
            old(self).active ==> old(self).movable_in(columns),
        ensures
            *final(self) == old(self).moved(columns),
            old(self).active ==> final(self).movable_in(columns),
    {
        if self.active {
            let right_bound: u32 = columns - self.width;
            if self.left_column == right_bound {
                self.direction = Direction::Left;
            } else if self.left_column == 0 {
                self.direction = Direction::Right;
            }
            match self.direction {
                Direction::Left => {
                    self.left_column = self.left_column - 1;
                },
                Direction::Right => {
                    self.left_column = self.left_column + 1;
                },
                Direction::Stopped => {},
            }
        }
    }

    /// Freezes the block where it is: it becomes inactive and stops.
    pub fn freeze(&mut self)
        ensures
            *final(self) == old(self).frozen(),
    {
        self.active = false;
        self.direction = Direction::Stopped;
    }
}

} // verus!

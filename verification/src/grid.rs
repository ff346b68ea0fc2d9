use vstd::prelude::*;
use crate::footprint::Footprint;

verus! {

/// The number of columns of the standard lane.
pub const STANDARD_COLUMNS: u32 = 7;

/// The number of rows of the standard lane, which is also the height of a
/// finished tower.
pub const STANDARD_ROWS: u32 = 15;

/// The lane in which the tower is built: so many columns wide, and complete
/// once so many rows have been placed. Plain data.
#[derive(Clone, Copy, Debug, PartialEq, Eq, Structural)]
pub struct Grid {
    pub columns: u32,
    pub rows: u32,
}

impl Grid {
    /// A lane has at least one column and at least one row.
    pub open spec fn valid(self) -> bool {
        self.columns >= 1 && self.rows >= 1
    }

    /// The whole width of the lane, `[0, columns)`.
    pub open spec fn lane_footprint(self) -> Footprint {
        Footprint { left_column: 0, width: self.columns }
    }

    /// A lane of the given size.
    pub fn new(columns: u32, rows: u32) -> (grid: Grid)
        ensures
            grid.columns == columns,
            grid.rows == rows,
    {
        Grid { columns, rows }
    }

    /// The standard lane, seven columns by fifteen rows.
    pub fn standard() -> (grid: Grid)
        ensures
            grid.columns == STANDARD_COLUMNS,
            grid.rows == STANDARD_ROWS,
            grid.valid(),
    {
        Grid { columns: STANDARD_COLUMNS, rows: STANDARD_ROWS }
    }

    /// Tests whether the lane has at least one column and one row.
    pub fn is_valid(&self) -> (ok: bool)
        ensures
            ok == self.valid(),
    {
        self.columns >= 1 && self.rows >= 1
    }

    /// The footprint of the whole lane, against which the first row is measured.
    pub fn lane(&self) -> (footprint: Footprint)
        ensures
            footprint == self.lane_footprint(),
    {
        Footprint { left_column: 0, width: self.columns }
    }
}

} // verus!

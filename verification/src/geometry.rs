//! Cursor positions and segments of cells on the character grid.

use vstd::prelude::*;
use vstd::std_specs::convert::FromSpecImpl;

use crate::{SCREEN_HEIGHT, SCREEN_WIDTH};

verus! {

/// A cell of the unbounded grid: the coordinates are mathematical integers,
/// so that stepping along a run of cells never overflows.
pub struct GridCell {
    pub row: int,
    pub column: int,
}

impl GridCell {
    /// The cursor position that names the cell.
    pub open spec fn cursor(self) -> CursorPosition {
        CursorPosition { row: self.row as u8, column: self.column as u8 }
    }
}

/// Zero-based coordinates of a cell of the screen.
#[derive(Clone, Copy, Debug, PartialEq, Eq, Structural)]
pub struct CursorPosition {
    pub row: u8,
    pub column: u8,
}

impl View for CursorPosition {
    type V = GridCell;

    open spec fn view(&self) -> GridCell {
        GridCell { row: self.row as int, column: self.column as int }
    }
}

impl CursorPosition {
    /// The cell `n` places after this one, reading the grid row by row.
    pub open spec fn cell_at(self, n: int) -> GridCell {
        GridCell {
            row: self.row + (self.column + n) / (SCREEN_WIDTH as int),
            column: (self.column + n) % (SCREEN_WIDTH as int),
        }
    }

    /// Whether stepping `offset` cells forward stays within what a `u8` row
    /// and column can hold.
    pub open spec fn can_offset(self, offset: u8) -> bool {
        &&& self.column + offset <= u8::MAX
        &&& self.row + (self.column + offset) / (SCREEN_WIDTH as int) <= u8::MAX
    }

    /// Steps `offset` cells forward, carrying into the following rows as
    /// often as the column reaches the width of the grid.
    ///
    /// From the start of a row this lands `offset / SCREEN_WIDTH` rows
    /// further down, in column `offset % SCREEN_WIDTH`.
    pub fn offset(self, offset: u8) -> (r: Self)
        requires
            self.can_offset(offset),
        ensures
            r@ == self.cell_at(offset as int),
            r == self.cell_at(offset as int).cursor(),
            r.column < SCREEN_WIDTH,
            self.column == 0 ==> r.row == self.row + offset / SCREEN_WIDTH && r.column == offset
                % SCREEN_WIDTH,
    {
        let mut row: u8 = self.row;
        let mut column: u8 = self.column + offset;
        while column >= SCREEN_WIDTH
            invariant
                row + column / SCREEN_WIDTH == self.row + (self.column + offset) / (
                SCREEN_WIDTH as int),
                column % SCREEN_WIDTH == (self.column + offset) % (SCREEN_WIDTH as int),
                self.can_offset(offset),
            decreases column,
        {
            row += 1;
            column -= SCREEN_WIDTH;
        }
        CursorPosition { row, column }
    }
}

/// A run of `length` cells that starts at `position` and continues across
/// row boundaries.
#[derive(Clone, Copy, Debug, PartialEq, Eq, Structural)]
pub struct Segment {
    pub position: CursorPosition,
    pub length: u8,
}

impl Segment {
    /// The cells of the segment, in the order in which they are written.
    pub open spec fn cells(self) -> Seq<GridCell> {
        Seq::new(self.length as nat, |k: int| self.position.cell_at(k))
    }

    /// The first `offset` cells of the segment.
    pub open spec fn head(self, offset: u8) -> Segment {
        Segment { position: self.position, length: offset }
    }

    /// The cells of the segment after the first `offset`.
    pub open spec fn tail(self, offset: u8) -> Segment {
        Segment {
            position: self.position.cell_at(offset as int).cursor(),
            length: (self.length - offset) as u8,
        }
    }

    /// Cuts the segment in two: a head of `offset` cells and a tail of the
    /// cells that are left. Head and tail together are the segment.
    pub fn split(self, offset: u8) -> (r: (Self, Self))
        requires
            offset <= self.length,
            self.position.can_offset(offset),
        ensures
            r.0 == self.head(offset),
            r.1 == self.tail(offset),
            r.1.position@ == self.position.cell_at(offset as int),
            r.0.length + r.1.length == self.length,
            r.0.cells() + r.1.cells() == self.cells(),
    {
        let head = Segment { position: self.position, length: offset };
        let tail = Segment { position: self.position.offset(offset), length: self.length - offset };
        proof {
            assert forall|k: int| 0 <= k implies #[trigger] tail.position.cell_at(k)
                == self.position.cell_at(offset + k) by {}
        }
        (head, tail)
    }
}

/// One whole row of the screen; the top row is `Line(0)`.
#[derive(Clone, Copy)]
pub struct Line(pub u8);

impl Line {
    /// The segment that covers the row.
    pub open spec fn segment(self) -> Segment {
        Segment {
            position: CursorPosition { row: self.0, column: 0 },
            length: SCREEN_WIDTH,
        }
    }

    /// Cuts the row after its first `offset` cells.
    pub fn split(self, offset: u8) -> (r: (Segment, Segment))
        requires
            offset <= SCREEN_WIDTH,
            self.segment().position.can_offset(offset),
        ensures
            r.0 == self.segment().head(offset),
            r.1 == self.segment().tail(offset),
            r.0.cells() + r.1.cells() == self.segment().cells(),
    {
        Segment::from(self).split(offset)
    }
}

impl From<Line> for Segment {
    fn from(line: Line) -> (r: Self) {
        Segment { position: CursorPosition { row: line.0, column: 0 }, length: SCREEN_WIDTH }
    }
}

impl FromSpecImpl<Line> for Segment {
    open spec fn obeys_from_spec() -> bool {
        true
    }

    open spec fn from_spec(line: Line) -> Segment {
        line.segment()
    }
}

/// The rows from the first to the second, both included.
#[derive(Clone, Copy)]
pub struct Lines(pub u8, pub u8);

impl Lines {
    /// Whether the range names at least one row and its cells can be counted
    /// in a `u8`.
    pub open spec fn valid(self) -> bool {
        &&& self.0 <= self.1
        &&& (1 + self.1 - self.0) * SCREEN_WIDTH <= u8::MAX
    }

    /// The segment that covers the rows.
    pub fn segment(self) -> (r: Segment)
        requires
            self.valid(),
        ensures
            r.position == (CursorPosition { row: self.0, column: 0 }),
            r.length == (1 + self.1 - self.0) * SCREEN_WIDTH,
    {
        Segment {
            position: CursorPosition { row: self.0, column: 0 },
            length: (1 + (self.1 - self.0)) * SCREEN_WIDTH,
        }
    }
}

/// Every cell of the screen, from the top left corner.
#[derive(Clone, Copy)]
pub struct EntireScreen;

impl EntireScreen {
    /// The segment that covers the screen.
    pub open spec fn segment(self) -> Segment {
        Segment {
            position: CursorPosition { row: 0, column: 0 },
            length: (SCREEN_WIDTH * SCREEN_HEIGHT) as u8,
        }
    }
}

impl From<EntireScreen> for Segment {
    fn from(screen: EntireScreen) -> (r: Self) {
        Segment { position: CursorPosition { row: 0, column: 0 }, length: SCREEN_WIDTH * SCREEN_HEIGHT }
    }
}

impl FromSpecImpl<EntireScreen> for Segment {
    open spec fn obeys_from_spec() -> bool {
        true
    }

    open spec fn from_spec(screen: EntireScreen) -> Segment {
        screen.segment()
    }
}

} // verus!

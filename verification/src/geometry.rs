//! Where things are on screen, and what a click lands on.

use vstd::prelude::*;

verus! {

/// A rectangle of cells.
#[derive(Clone, Copy, Debug, PartialEq, Eq, Structural)]
pub struct Rect {
    pub x: u16,
    pub y: u16,
    pub width: u16,
    pub height: u16,
}

impl Rect {
    /// Whether a cell lies in the rectangle.
    pub open spec fn holds(self, col: u16, row: u16) -> bool {
        self.x <= col < self.x + self.width && self.y <= row < self.y + self.height
    }
}

/// Whether a click at `col`/`row` landed inside `rect`.
pub fn rect_contains(rect: Rect, col: u16, row: u16) -> (r: bool)
    ensures
        r == rect.holds(col, row),
{
    col >= rect.x && col - rect.x < rect.width && row >= rect.y && row - rect.y < rect.height
}

/// Where a clickable list was drawn, so that a click can be mapped to a row.
#[derive(Clone, Copy, Debug, PartialEq, Eq, Structural)]
pub struct RowList {
    /// Where the rows are drawn.
    pub inner: Rect,
    /// Rows of `inner` above the first data row.
    pub header: u16,
    /// Index of the first row on screen.
    pub offset: usize,
    /// Total number of rows.
    pub len: usize,
}

impl RowList {
    /// The row at a cell; none outside the data rows.
    pub open spec fn row_at(self, col: u16, row: u16) -> Option<int> {
        let top = self.inner.y + self.header;
        let idx = self.offset + (row - top);
        if self.inner.holds(col, row) && row >= top && idx < self.len {
            Some(idx)
        } else {
            None
        }
    }

    /// Whether a cell lies anywhere in the list, its header included.
    pub fn contains(&self, col: u16, row: u16) -> (r: bool)
        ensures
            r == self.inner.holds(col, row),
    {
        rect_contains(self.inner, col, row)
    }

    /// Row index at a cell, or `None` when the cell is outside the data rows.
    pub fn hit(&self, col: u16, row: u16) -> (r: Option<usize>)
        ensures
            match r {
                Some(i) => self.row_at(col, row) == Some(i as int),
                None => self.row_at(col, row) is None,
            },
    {
        if !rect_contains(self.inner, col, row) {
            return None;
        }
        let down: u16 = row - self.inner.y;
        if down < self.header {
            return None;
        }
        let below: usize = (down - self.header) as usize;
        if self.offset < self.len && below < self.len - self.offset {
            Some(self.offset + below)
        } else {
            None
        }
    }
}

/// A click never selects a row that is not there, nor one above the first row on
/// screen.
pub proof fn hit_is_a_row(rl: RowList, col: u16, row: u16, i: int)
    requires
        rl.row_at(col, row) == Some(i),
    ensures
        rl.offset <= i < rl.len,
        rl.inner.holds(col, row),
{
}

/// Two cells of one column that lie a row apart select rows one apart.
pub proof fn hits_follow_rows(rl: RowList, col: u16, row: u16, i: int, j: int)
    requires
        row < u16::MAX,
        rl.row_at(col, row) == Some(i),
        rl.row_at(col, (row + 1) as u16) == Some(j),
    ensures
        j == i + 1,
{
}

/// What a mouse did.
#[derive(Clone, Copy, Debug, PartialEq, Eq, Structural)]
pub enum MouseKind {
    LeftDown,
    ScrollDown,
    ScrollUp,
    Other,
}

/// One mouse event.
#[derive(Clone, Copy, Debug, PartialEq, Eq, Structural)]
pub struct MouseEvent {
    pub kind: MouseKind,
    pub column: u16,
    pub row: u16,
}

} // verus!

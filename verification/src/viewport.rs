//! The visible part of the displayed rows: which columns are on screen and
//! which row is selected, whatever the rows come from.

use vstd::prelude::*;

verus! {

/// The number of columns that fit on screen side by side.
pub const VISIBLE_COLS: usize = 10;

/// The largest column offset for `total_columns` columns: the one that puts
/// the last column at the right edge, or zero where all columns fit.
pub open spec fn max_offset(total_columns: nat) -> nat {
    if total_columns > VISIBLE_COLS {
        (total_columns - VISIBLE_COLS) as nat
    } else {
        0
    }
}

/// Horizontal scroll position and selected row.
#[derive(Clone, Copy, Debug, PartialEq, Eq, Structural)]
pub struct ViewportState {
    /// The index of the leftmost visible column.
    pub column_offset: usize,
    /// The index of the selected row among the displayed rows.
    pub selected_row: usize,
}

impl ViewportState {
    /// The invariant of a viewport over `total_columns` columns and
    /// `row_count` rows: the offset leaves the window inside the columns,
    /// and the selection is on a displayed row (on the first where there is
    /// none).
    pub open spec fn wf(self, total_columns: nat, row_count: nat) -> bool {
        &&& self.column_offset <= max_offset(total_columns)
        &&& (self.selected_row < row_count || self.selected_row == 0)
    }

    /// The viewport that every new row set starts with.
    pub open spec fn initial() -> ViewportState {
        ViewportState { column_offset: 0, selected_row: 0 }
    }

    /// The viewport after a scroll by one column to the left.
    pub open spec fn scrolled_left(self) -> ViewportState {
        if self.column_offset > 0 {
            ViewportState { column_offset: (self.column_offset - 1) as usize, ..self }
        } else {
            self
        }
    }

    /// The viewport after a scroll by one column to the right.
    pub open spec fn scrolled_right(self, total_columns: nat) -> ViewportState {
        if self.column_offset < max_offset(total_columns) {
            ViewportState { column_offset: (self.column_offset + 1) as usize, ..self }
        } else {
            self
        }
    }

    /// The viewport after the selection has moved up by one row.
    pub open spec fn moved_up(self) -> ViewportState {
        if self.selected_row > 0 {
            ViewportState { selected_row: (self.selected_row - 1) as usize, ..self }
        } else {
            self
        }
    }

    /// The viewport after the selection has moved down by one row.
    pub open spec fn moved_down(self, row_count: nat) -> ViewportState {
        if self.selected_row + 1 < row_count {
            ViewportState { selected_row: (self.selected_row + 1) as usize, ..self }
        } else {
            self
        }
    }

    /// The first visible column.
    pub open spec fn first_visible(self) -> nat {
        self.column_offset as nat
    }

    /// One past the last visible column.
    pub open spec fn end_visible(self, total_columns: nat) -> nat {
        if self.column_offset + VISIBLE_COLS <= total_columns {
            (self.column_offset + VISIBLE_COLS) as nat
        } else {
            total_columns
        }
    }

    /// Returns the viewport of a new row set: first column, first row.
    pub fn new() -> (viewport: ViewportState)
        ensures
            viewport == ViewportState::initial(),
            forall|total_columns: nat, row_count: nat| viewport.wf(total_columns, row_count),
    {
        ViewportState { column_offset: 0, selected_row: 0 }
    }

    /// Scrolls one column to the left; at the first column nothing changes.
    pub fn scroll_left(&mut self)
        ensures
            *final(self) == old(self).scrolled_left(),
            old(self).column_offset == 0 ==> *final(self) == *old(self),
            forall|total_columns: nat, row_count: nat|
                old(self).wf(total_columns, row_count) ==> final(self).wf(
                    total_columns,
                    row_count,
                ),
    {
        if self.column_offset > 0 {
            self.column_offset = self.column_offset - 1;
        }
    }

    /// Scrolls one column to the right; once the last column is visible
    /// nothing changes.
    pub fn scroll_right(&mut self, total_columns: usize)
        ensures
            *final(self) == old(self).scrolled_right(total_columns as nat),
            old(self).column_offset >= max_offset(total_columns as nat) ==> *final(self) == *old(
                self,
            ),
            forall|row_count: nat|
                old(self).wf(total_columns as nat, row_count) ==> final(self).wf(
                    total_columns as nat,
                    row_count,
                ),
    {
        if total_columns > VISIBLE_COLS && self.column_offset < total_columns - VISIBLE_COLS {
            self.column_offset = self.column_offset + 1;
        }
    }

    /// Moves the selection up by one row; on the first row nothing changes.
    pub fn select_previous(&mut self)
        ensures
            *final(self) == old(self).moved_up(),
            forall|total_columns: nat, row_count: nat|
                old(self).wf(total_columns, row_count) ==> final(self).wf(
                    total_columns,
                    row_count,
                ),
    {
        if self.selected_row > 0 {
            self.selected_row = self.selected_row - 1;
        }
    }

    /// Moves the selection down by one row; on the last of `row_count` rows
    /// nothing changes.
    pub fn select_next(&mut self, row_count: usize)
        ensures
            *final(self) == old(self).moved_down(row_count as nat),
            forall|total_columns: nat|
                old(self).wf(total_columns, row_count as nat) ==> final(self).wf(
                    total_columns,
                    row_count as nat,
                ),
    {
        if self.selected_row < row_count && self.selected_row + 1 < row_count {
            self.selected_row = self.selected_row + 1;
        }
    }

    /// Returns the range of visible columns, as the first index and one past
    /// the last.
    pub fn visible_columns(&self, total_columns: usize) -> (range: (usize, usize))
        requires
            self.column_offset <= max_offset(total_columns as nat),
        ensures
            range.0 == self.first_visible(),
            range.1 == self.end_visible(total_columns as nat),
            range.0 <= range.1 <= total_columns,
            range.1 - range.0 <= VISIBLE_COLS,
            total_columns > 0 ==> range.0 < range.1,
    {
        let start: usize = self.column_offset;
        let end: usize = if total_columns - start >= VISIBLE_COLS {
            start + VISIBLE_COLS
        } else {
            total_columns
        };
        (start, end)
    }
}

/// At the right edge a scroll to the right changes nothing, however often it
/// is repeated; at the first column the same holds of a scroll to the left.
pub proof fn lemma_scroll_stops_at_the_edges(viewport: ViewportState, total_columns: nat)
    requires
        viewport.column_offset <= max_offset(total_columns),
    ensures
        viewport.column_offset == max_offset(total_columns) ==> viewport.scrolled_right(
            total_columns,
        ) == viewport,
        viewport.column_offset == 0 ==> viewport.scrolled_left() == viewport,
        viewport.scrolled_right(total_columns).column_offset <= max_offset(total_columns),
        viewport.scrolled_left().column_offset <= max_offset(total_columns),
{
}

/// The selection never leaves the displayed rows: a step down from the last
/// row and a step up from the first change nothing, and neither wraps round.
pub proof fn lemma_selection_stays_in_range(viewport: ViewportState, row_count: nat)
    requires
        viewport.selected_row < row_count <= usize::MAX,
    ensures
        viewport.moved_down(row_count).selected_row < row_count,
        viewport.moved_up().selected_row < row_count,
        viewport.selected_row + 1 == row_count ==> viewport.moved_down(row_count) == viewport,
        viewport.selected_row == 0 ==> viewport.moved_up() == viewport,
        viewport.moved_down(row_count).selected_row >= viewport.selected_row,
        viewport.moved_up().selected_row <= viewport.selected_row,
{
}

} // verus!

//! The windowed cursor: the schema of a columnar source, the batch of rows
//! that is on display, and the window that says which batch that is.
//!
//! The cursor reads nothing itself. Whoever owns the file reads a batch
//! and hands its rows over; the cursor takes them only if they fit the
//! schema and the window.

use crate::errors::SourceError;
use crate::window::batch_len;
use crate::window::lemma_batches_tile;
use crate::window::WindowState;
use vstd::prelude::*;

verus! {

/// Whether every row has `width` cells.
pub open spec fn rectangular(rows: Seq<Seq<Seq<char>>>, width: nat) -> bool {
    forall|i: int| 0 <= i < rows.len() ==> (#[trigger] rows[i]).len() == width
}

/// Tells whether every row has `width` cells.
pub fn rows_have_width(rows: &Vec<Vec<String>>, width: usize) -> (ok: bool)
    ensures
        ok == rectangular(rows.deep_view(), width as nat),
{
    let mut i: usize = 0;
    while i < rows.len()
        invariant
            i <= rows.len(),
            forall|k: int| 0 <= k < i ==> (#[trigger] rows.deep_view()[k]).len() == width,
        decreases rows.len() - i,
    {
        if rows[i].len() != width {
            assert(rows.deep_view()[i as int].len() != width);
            return false;
        }
        i = i + 1;
    }
    true
}

/// What opening a source yields: its row count, its column names and its
/// first batch, if it has one.
#[derive(Clone, Debug, PartialEq, Eq)]
pub struct SourceHead {
    pub total_rows: usize,
    pub header: Vec<String>,
    pub first_batch: Option<Vec<Vec<String>>>,
}

/// A `SourceHead` with its texts as sequences of characters.
pub struct SourceHeadView {
    pub total_rows: usize,
    pub header: Seq<Seq<char>>,
    pub first_batch: Option<Seq<Seq<Seq<char>>>>,
}

impl View for SourceHead {
    type V = SourceHeadView;

    open spec fn view(&self) -> SourceHeadView {
        SourceHeadView {
            total_rows: self.total_rows,
            header: self.header.deep_view(),
            first_batch: match self.first_batch {
                Some(rows) => Some(rows.deep_view()),
                None => None,
            },
        }
    }
}

impl SourceHeadView {
    /// Why a cursor cannot be opened on this head with batches of
    /// `batch_size` rows, if it cannot: the source is empty, or its first
    /// batch does not have the rows or the columns that the head announces.
    pub open spec fn fault(self, batch_size: usize) -> Option<SourceError> {
        match self.first_batch {
            None => Some(SourceError::NoData),
            Some(rows) => if self.total_rows == 0 || rows.len() == 0 {
                Some(SourceError::NoData)
            } else if rows.len() != batch_len(self.total_rows as nat, batch_size as nat, 0)
                || !rectangular(rows, self.header.len()) {
                Some(SourceError::Malformed)
            } else {
                None
            },
        }
    }

    /// The cursor on the first batch of this head.
    pub open spec fn opened(self, batch_size: usize) -> CursorView {
        CursorView {
            header: self.header,
            rows: self.first_batch->0,
            window: WindowState {
                batch_index: 0,
                batch_size,
                total_batches: crate::window::ceil_div(
                    self.total_rows as nat,
                    batch_size as nat,
                ) as usize,
                total_rows: self.total_rows,
            },
        }
    }
}

/// The state of a cursor, as mathematical values.
pub struct CursorView {
    /// The column names of the source.
    pub header: Seq<Seq<char>>,
    /// The rows of the batch on display.
    pub rows: Seq<Seq<Seq<char>>>,
    /// Which batch that is, of how many.
    pub window: WindowState,
}

impl CursorView {
    /// The invariant of a cursor: a valid window, as many rows as the window
    /// gives the current batch, and in every row one cell per column.
    pub open spec fn wf(self) -> bool {
        &&& self.window.wf()
        &&& self.rows.len() == self.window.spec_batch_len(self.window.batch_index as nat)
        &&& rectangular(self.rows, self.header.len())
    }

    /// Whether `rows` can be batch `n` of this source: the batch exists, and
    /// the rows have its length and the width of the schema.
    pub open spec fn accepts(self, n: usize, rows: Seq<Seq<Seq<char>>>) -> bool {
        &&& n < self.window.total_batches
        &&& rows.len() == self.window.spec_batch_len(n as nat)
        &&& rectangular(rows, self.header.len())
    }

    /// The cursor on batch `n` with `rows` on display.
    pub open spec fn moved_to(self, n: usize, rows: Seq<Seq<Seq<char>>>) -> CursorView {
        CursorView { rows, window: self.window.at(n), ..self }
    }

    /// The index in the source of the first row on display.
    pub open spec fn first_row(self) -> nat {
        self.window.spec_batch_start(self.window.batch_index as nat)
    }

    /// The index in the source of the last row on display.
    pub open spec fn last_row(self) -> nat {
        (self.first_row() + self.rows.len() - 1) as nat
    }
}

/// A cursor always shows rows: at least one, and no more than a batch holds.
pub proof fn lemma_cursor_shows_rows(cursor: CursorView)
    requires
        cursor.wf(),
    ensures
        1 <= cursor.rows.len() <= cursor.window.batch_size,
        cursor.first_row() + cursor.rows.len() <= cursor.window.total_rows,
{
    lemma_batches_tile(
        cursor.window.total_rows as nat,
        cursor.window.batch_size as nat,
        cursor.window.batch_index as nat,
    );
}

/// A head without a fault opens into a valid cursor.
pub proof fn lemma_opened_cursor_is_valid(batch_size: usize, head: SourceHeadView)
    requires
        batch_size >= 1,
        head.fault(batch_size) is None,
    ensures
        head.opened(batch_size).wf(),
        head.opened(batch_size).rows.len() >= 1,
{
    crate::window::lemma_ceil_div_is_ceiling(head.total_rows as nat, batch_size as nat);
    let count = crate::window::ceil_div(head.total_rows as nat, batch_size as nat);
    assert(count <= head.total_rows) by {
        vstd::arithmetic::mul::lemma_mul_inequality(1, batch_size as int, count - 1);
        vstd::arithmetic::mul::lemma_mul_is_commutative(batch_size as int, count - 1);
    }
}

/// The schema of a source and the batch of its rows that is on display.
#[derive(Clone, Debug, PartialEq, Eq)]
pub struct Cursor {
    header: Vec<String>,
    rows: Vec<Vec<String>>,
    window: WindowState,
}

impl View for Cursor {
    type V = CursorView;

    closed spec fn view(&self) -> CursorView {
        CursorView {
            header: self.header.deep_view(),
            rows: self.rows.deep_view(),
            window: self.window,
        }
    }
}

impl Cursor {
    /// Opens a cursor on the first batch of a source that is read in batches
    /// of `batch_size` rows. Fails with `NoData` where the source has no
    /// rows, and with `Malformed` where the first batch is not what the
    /// head announces.
    pub fn open(batch_size: usize, head: SourceHead) -> (opened: Result<Cursor, SourceError>)
        requires
            batch_size >= 1,
        ensures
            match opened {
                Ok(cursor) => head@.fault(batch_size) is None && cursor@ == head@.opened(batch_size)
                    && cursor@.wf(),
                Err(error) => head@.fault(batch_size) == Some(error),
            },
    {
        let SourceHead { total_rows, header, first_batch } = head;
        let rows = match first_batch {
            Some(rows) => rows,
            None => {
                return Err(SourceError::NoData);
            },
        };
        let window = match WindowState::open(total_rows, batch_size) {
            Some(window) => window,
            None => {
                return Err(SourceError::NoData);
            },
        };
        if rows.len() == 0 {
            return Err(SourceError::NoData);
        }
        if rows.len() != window.batch_len(0) || !rows_have_width(&rows, header.len()) {
            return Err(SourceError::Malformed);
        }
        Ok(Cursor { header, rows, window })
    }

    /// Puts batch `n` on display, given its rows. Rows that cannot be batch
    /// `n` of this source are refused with `Malformed`, and the cursor stays
    /// as it was.
    pub fn goto_batch(&mut self, n: usize, rows: Vec<Vec<String>>) -> (moved: Result<
        (),
        SourceError,
    >)
        requires
            old(self)@.wf(),
        ensures
            final(self)@.wf(),
            old(self)@.accepts(n, rows.deep_view()) ==> moved is Ok && final(self)@ == old(
                self,
            )@.moved_to(n, rows.deep_view()),
            !old(self)@.accepts(n, rows.deep_view()) ==> moved == Err::<(), SourceError>(
                SourceError::Malformed,
            ) && final(self)@ == old(self)@,
    {
        if n >= self.window.total_batches {
            return Err(SourceError::Malformed);
        }
        if rows.len() != self.window.batch_len(n) || !rows_have_width(&rows, self.header.len()) {
            return Err(SourceError::Malformed);
        }
        self.rows = rows;
        self.window.batch_index = n;
        Ok(())
    }

    /// Returns the batch that a step forward would load, or `None` on the
    /// last batch.
    pub fn next_batch(&self) -> (next: Option<usize>)
        ensures
            next == self@.window.spec_next_index(),
            next matches Some(n) ==> n < self@.window.total_batches,
    {
        self.window.next_index()
    }

    /// Returns the batch that a step back would load, or `None` on the
    /// first batch.
    pub fn previous_batch(&self) -> (previous: Option<usize>)
        ensures
            previous == self@.window.spec_previous_index(),
            self@.wf() ==> (previous matches Some(n) ==> n < self@.window.total_batches),
    {
        self.window.previous_index()
    }

    /// Returns the column names of the source.
    pub fn header(&self) -> (header: &Vec<String>)
        ensures
            header.deep_view() == self@.header,
    {
        &self.header
    }

    /// Returns the rows of the batch on display.
    pub fn current_rows(&self) -> (rows: &Vec<Vec<String>>)
        ensures
            rows.deep_view() == self@.rows,
    {
        &self.rows
    }

    /// Returns the window: the batch on display, the batch size and the
    /// totals.
    pub fn window(&self) -> (window: WindowState)
        ensures
            window == self@.window,
    {
        self.window
    }

    /// Returns the indexes in the source of the first and the last row on
    /// display.
    pub fn row_span(&self) -> (span: (usize, usize))
        requires
            self@.wf(),
        ensures
            span.0 == self@.first_row(),
            span.1 == self@.last_row(),
            span.0 <= span.1 < self@.window.total_rows,
            span.1 - span.0 + 1 == self@.rows.len(),
    {
        proof {
            lemma_batches_tile(
                self.window.total_rows as nat,
                self.window.batch_size as nat,
                self.window.batch_index as nat,
            );
        }
        let first: usize = self.window.batch_start(self.window.batch_index);
        let last: usize = first + (self.rows.len() - 1);
        (first, last)
    }
}

} // verus!

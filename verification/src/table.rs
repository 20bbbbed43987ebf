//! The read-only browser: a cursor over the source and a viewport, moved by
//! keys. Also what the title of a table reports, for this browser and for
//! the editing session alike.

use crate::cursor::lemma_cursor_shows_rows;
use crate::cursor::Cursor;
use crate::cursor::CursorView;
use crate::cursor::SourceHead;
use crate::cursor::SourceHeadView;
use crate::errors::SourceError;
use crate::keys::KeyCode;
use crate::keys::KeyEvent;
use crate::viewport::max_offset;
use crate::viewport::ViewportState;
use crate::window::WindowState;
use vstd::prelude::*;

verus! {

/// What the title of the table reports.
#[derive(Clone, Copy, Debug, PartialEq, Eq)]
pub enum TableCaption {
    /// A query result is on display.
    Results {
        first_column: usize,
        last_column: usize,
        total_columns: usize,
        total_rows: usize,
        /// Whether the result has as many rows as the preview limit allows,
        /// so that rows may have been left out.
        limited: bool,
    },
    /// A batch of the source is on display.
    Source {
        first_column: usize,
        last_column: usize,
        total_columns: usize,
        first_row: usize,
        last_row: usize,
        total_rows: usize,
        /// The number of the batch, counted from one.
        batch_number: usize,
        total_batches: usize,
    },
}

impl TableCaption {
    /// Whether the caption is one of a table with `columns` columns that
    /// shows `rows` rows: the visible columns are columns of the table, the
    /// rows reported are as many as are shown, and the batch is one of the
    /// source.
    pub open spec fn fits(self, columns: nat, rows: nat) -> bool {
        match self {
            TableCaption::Results { first_column, last_column, total_columns, total_rows, .. } => {
                &&& total_columns == columns
                &&& first_column <= last_column
                &&& columns > 0 ==> last_column < columns
                &&& total_rows == rows
            },
            TableCaption::Source {
                first_column,
                last_column,
                total_columns,
                first_row,
                last_row,
                total_rows,
                batch_number,
                total_batches,
            } => {
                &&& total_columns == columns
                &&& first_column <= last_column
                &&& columns > 0 ==> last_column < columns
                &&& first_row <= last_row < total_rows
                &&& last_row - first_row + 1 == rows
                &&& 1 <= batch_number <= total_batches
            },
        }
    }
}

/// The index of the last visible column, or zero where there is no column.
pub open spec fn last_visible(viewport: ViewportState, total_columns: nat) -> usize {
    let end = viewport.end_visible(total_columns);
    if end == 0 {
        0
    } else {
        (end - 1) as usize
    }
}

/// What the title reports of a batch of the source.
pub open spec fn source_caption(cursor: CursorView, viewport: ViewportState) -> TableCaption {
    TableCaption::Source {
        first_column: viewport.column_offset,
        last_column: last_visible(viewport, cursor.header.len()),
        total_columns: cursor.header.len() as usize,
        first_row: cursor.first_row() as usize,
        last_row: cursor.last_row() as usize,
        total_rows: cursor.window.total_rows,
        batch_number: (cursor.window.batch_index + 1) as usize,
        total_batches: cursor.window.total_batches,
    }
}

/// Returns the index of the last visible column, or zero where there is no
/// column.
pub(crate) fn last_visible_column(viewport: &ViewportState, total_columns: usize) -> (last: usize)
    requires
        viewport.column_offset <= max_offset(total_columns as nat),
    ensures
        last == last_visible(*viewport, total_columns as nat),
        viewport.column_offset <= last,
        total_columns > 0 ==> last < total_columns,
{
    let range = viewport.visible_columns(total_columns);
    if range.1 == 0 {
        0
    } else {
        range.1 - 1
    }
}

/// Returns what the title reports of the batch that `cursor` shows through
/// `viewport`.
pub(crate) fn caption_of_source(cursor: &Cursor, viewport: &ViewportState) -> (caption: TableCaption)
    requires
        cursor@.wf(),
        viewport.column_offset <= max_offset(cursor@.header.len()),
    ensures
        caption == source_caption(cursor@, *viewport),
        caption.fits(cursor@.header.len(), cursor@.rows.len()),
{
    let total_columns: usize = cursor.header().len();
    let span = cursor.row_span();
    let window = cursor.window();
    TableCaption::Source {
        first_column: viewport.column_offset,
        last_column: last_visible_column(viewport, total_columns),
        total_columns,
        first_row: span.0,
        last_row: span.1,
        total_rows: window.total_rows,
        batch_number: window.batch_index + 1,
        total_batches: window.total_batches,
    }
}

/// Work that a key press leaves to the caller of the browser.
#[derive(Clone, Copy, Debug, PartialEq, Eq)]
pub enum BrowseAction {
    /// End the program.
    Quit,
    /// Read this batch of the source and hand it to `goto_batch`.
    LoadBatch(usize),
}

/// The state of the browser, as mathematical values.
pub struct ViewerView {
    pub cursor: CursorView,
    pub viewport: ViewportState,
}

impl ViewerView {
    /// The invariant of the browser: a valid cursor, and a viewport inside
    /// the batch on display.
    pub open spec fn wf(self) -> bool {
        &&& self.cursor.wf()
        &&& self.viewport.column_offset <= max_offset(self.cursor.header.len())
        &&& self.viewport.selected_row < self.cursor.rows.len()
    }

    /// The browser right after the source was opened.
    pub open spec fn opened(batch_size: usize, head: SourceHeadView) -> ViewerView {
        ViewerView { cursor: head.opened(batch_size), viewport: ViewportState::initial() }
    }

    /// After batch `n` was read and gave `rows`: rows that can be batch `n`
    /// go on display, with the viewport back at the first column and row;
    /// others change nothing.
    pub open spec fn batch_loaded(self, n: usize, rows: Seq<Seq<Seq<char>>>) -> ViewerView {
        if self.cursor.accepts(n, rows) {
            ViewerView { cursor: self.cursor.moved_to(n, rows), viewport: ViewportState::initial() }
        } else {
            self
        }
    }

    /// After a key press, with the work that it leaves to the caller.
    pub open spec fn key_handled(self, key: KeyEvent) -> (ViewerView, Option<BrowseAction>) {
        match key.code {
            KeyCode::Up => (ViewerView { viewport: self.viewport.moved_up(), ..self }, None),
            KeyCode::Down => (
                ViewerView { viewport: self.viewport.moved_down(self.cursor.rows.len()), ..self },
                None,
            ),
            KeyCode::PageDown => (
                self,
                match self.cursor.window.spec_next_index() {
                    Some(n) => Some(BrowseAction::LoadBatch(n)),
                    None => None,
                },
            ),
            KeyCode::PageUp => (
                self,
                match self.cursor.window.spec_previous_index() {
                    Some(n) => Some(BrowseAction::LoadBatch(n)),
                    None => None,
                },
            ),
            KeyCode::Left => (ViewerView { viewport: self.viewport.scrolled_left(), ..self }, None),
            KeyCode::Right => (
                ViewerView {
                    viewport: self.viewport.scrolled_right(self.cursor.header.len()),
                    ..self
                },
                None,
            ),
            _ => if key.is_quit() {
                (self, Some(BrowseAction::Quit))
            } else {
                (self, None)
            },
        }
    }
}

/// The state of the read-only browser.
#[derive(Clone, Debug, PartialEq, Eq)]
pub struct Viewer {
    cursor: Cursor,
    viewport: ViewportState,
}

impl View for Viewer {
    type V = ViewerView;

    closed spec fn view(&self) -> ViewerView {
        ViewerView { cursor: self.cursor@, viewport: self.viewport }
    }
}

impl Viewer {
    /// Starts the browser on a source that is read in batches of
    /// `batch_size` rows and whose head is `head`. Fails where no cursor can
    /// be opened on the head.
    pub fn new(batch_size: usize, head: SourceHead) -> (opened: Result<Viewer, SourceError>)
        requires
            batch_size >= 1,
        ensures
            match opened {
                Ok(viewer) => head@.fault(batch_size) is None && viewer@ == ViewerView::opened(
                    batch_size,
                    head@,
                ) && viewer@.wf(),
                Err(error) => head@.fault(batch_size) == Some(error),
            },
    {
        match Cursor::open(batch_size, head) {
            Ok(cursor) => {
                proof {
                    lemma_cursor_shows_rows(cursor@);
                }
                Ok(Viewer { cursor, viewport: ViewportState::new() })
            },
            Err(error) => Err(error),
        }
    }

    /// Returns the column names of the source.
    pub fn header(&self) -> (header: &Vec<String>)
        ensures
            header.deep_view() == self@.cursor.header,
    {
        self.cursor.header()
    }

    /// Returns the rows of the batch on display.
    pub fn current_rows(&self) -> (rows: &Vec<Vec<String>>)
        ensures
            rows.deep_view() == self@.cursor.rows,
    {
        self.cursor.current_rows()
    }

    /// Returns the window of the source.
    pub fn window(&self) -> (window: WindowState)
        ensures
            window == self@.cursor.window,
    {
        self.cursor.window()
    }

    /// Returns column offset and selected row.
    pub fn viewport(&self) -> (viewport: ViewportState)
        ensures
            viewport == self@.viewport,
    {
        self.viewport
    }

    /// Returns the range of visible columns, as the first index and one past
    /// the last.
    pub fn visible_columns(&self) -> (range: (usize, usize))
        requires
            self@.wf(),
        ensures
            range.0 == self@.viewport.first_visible(),
            range.1 == self@.viewport.end_visible(self@.cursor.header.len()),
            range.0 <= range.1 <= self@.cursor.header.len(),
    {
        self.viewport.visible_columns(self.cursor.header().len())
    }

    /// Returns the batch that a step forward is to load, or `None` on the
    /// last batch, where the step is a no-op.
    pub fn next_batch(&self) -> (request: Option<usize>)
        ensures
            request == self@.cursor.window.spec_next_index(),
    {
        self.cursor.next_batch()
    }

    /// Returns the batch that a step back is to load, or `None` on the first
    /// batch, where the step is a no-op.
    pub fn previous_batch(&self) -> (request: Option<usize>)
        ensures
            request == self@.cursor.window.spec_previous_index(),
    {
        self.cursor.previous_batch()
    }

    /// Puts batch `n` on display, given its rows, and moves the viewport back
    /// to the first column and row. Rows that cannot be batch `n` of the
    /// source are refused, and nothing changes.
    pub fn goto_batch(&mut self, n: usize, rows: Vec<Vec<String>>) -> (moved: Result<
        (),
        SourceError,
    >)
        requires
            old(self)@.wf(),
        ensures
            final(self)@.wf(),
            final(self)@ == old(self)@.batch_loaded(n, rows.deep_view()),
            moved is Ok <==> old(self)@.cursor.accepts(n, rows.deep_view()),
            moved is Err ==> moved == Err::<(), SourceError>(SourceError::Malformed),
    {
        match self.cursor.goto_batch(n, rows) {
            Ok(_) => {
                proof {
                    lemma_cursor_shows_rows(self.cursor@);
                }
                self.viewport = ViewportState::new();
                Ok(())
            },
            Err(error) => Err(error),
        }
    }

    /// Scrolls one column to the left; at the first column nothing changes.
    pub fn scroll_left(&mut self)
        requires
            old(self)@.wf(),
        ensures
            final(self)@.wf(),
            final(self)@.cursor == old(self)@.cursor,
            final(self)@.viewport == old(self)@.viewport.scrolled_left(),
    {
        self.viewport.scroll_left();
    }

    /// Scrolls one column to the right; once the last column is visible
    /// nothing changes.
    pub fn scroll_right(&mut self)
        requires
            old(self)@.wf(),
        ensures
            final(self)@.wf(),
            final(self)@.cursor == old(self)@.cursor,
            final(self)@.viewport == old(self)@.viewport.scrolled_right(
                old(self)@.cursor.header.len(),
            ),
    {
        let total: usize = self.cursor.header().len();
        self.viewport.scroll_right(total);
    }

    /// Takes a key press and returns the work that it leaves to the caller,
    /// if any.
    pub fn handle_key_event(&mut self, key: KeyEvent) -> (action: Option<BrowseAction>)
        requires
            old(self)@.wf(),
        ensures
            final(self)@.wf(),
            final(self)@ == old(self)@.key_handled(key).0,
            action == old(self)@.key_handled(key).1,
    {
        match key.code {
            KeyCode::Up => {
                self.viewport.select_previous();
                None
            },
            KeyCode::Down => {
                let count: usize = self.cursor.current_rows().len();
                self.viewport.select_next(count);
                None
            },
            KeyCode::PageDown => match self.cursor.next_batch() {
                Some(n) => Some(BrowseAction::LoadBatch(n)),
                None => None,
            },
            KeyCode::PageUp => match self.cursor.previous_batch() {
                Some(n) => Some(BrowseAction::LoadBatch(n)),
                None => None,
            },
            KeyCode::Left => {
                self.scroll_left();
                None
            },
            KeyCode::Right => {
                self.scroll_right();
                None
            },
            _ => if key.quits() {
                Some(BrowseAction::Quit)
            } else {
                None
            },
        }
    }

    /// Returns what the title of the table reports.
    pub fn caption(&self) -> (caption: TableCaption)
        requires
            self@.wf(),
        ensures
            caption == source_caption(self@.cursor, self@.viewport),
            caption.fits(self@.cursor.header.len(), self@.cursor.rows.len()),
    {
        caption_of_source(&self.cursor, &self.viewport)
    }
}

} // verus!

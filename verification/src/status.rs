//! The life cycle of a query and the target of key input.

use vstd::prelude::*;

verus! {

/// Where a query stands.
#[derive(Clone, Debug, PartialEq, Eq)]
pub enum ExecutionStatus {
    /// No query has run since the data was loaded.
    Idle,
    /// A query is running.
    Executing,
    /// The last command succeeded.
    Success,
    /// The last query ran and returned no rows: a notice, neither a success
    /// nor an error.
    NoResults,
    /// The last command failed; the text says how.
    Error(String),
}

/// An `ExecutionStatus` with its text as a sequence of characters.
pub enum StatusView {
    Idle,
    Executing,
    Success,
    NoResults,
    Error(Seq<char>),
}

impl View for ExecutionStatus {
    type V = StatusView;

    open spec fn view(&self) -> StatusView {
        match self {
            ExecutionStatus::Idle => StatusView::Idle,
            ExecutionStatus::Executing => StatusView::Executing,
            ExecutionStatus::Success => StatusView::Success,
            ExecutionStatus::NoResults => StatusView::NoResults,
            ExecutionStatus::Error(text) => StatusView::Error(text@),
        }
    }
}

impl ExecutionStatus {
    /// Tells whether a query is running.
    pub fn is_executing(&self) -> (running: bool)
        ensures
            running == (self@ is Executing),
    {
        match self {
            ExecutionStatus::Executing => true,
            _ => false,
        }
    }
}

/// The part of the screen that key input goes to.
#[derive(Clone, Copy, Debug, PartialEq, Eq, Structural)]
pub enum FocusTarget {
    /// The query editor.
    QueryInput,
    /// The table of rows.
    DataPane,
    /// The dialog that asks for the name of the export file.
    SaveDialog,
}

impl FocusTarget {
    /// The target after the focus key: the editor and the table swap; the
    /// dialog keeps the focus while it is open.
    pub open spec fn toggled(self) -> FocusTarget {
        match self {
            FocusTarget::QueryInput => FocusTarget::DataPane,
            FocusTarget::DataPane => FocusTarget::QueryInput,
            FocusTarget::SaveDialog => FocusTarget::SaveDialog,
        }
    }
}

} // verus!

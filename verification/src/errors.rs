//! The failures that the browser tells apart, each with the text that is
//! shown for it.

use vstd::prelude::*;

verus! {

/// A failure that is reported before any session state exists.
#[derive(Clone, Copy, Debug, PartialEq, Eq, Structural)]
pub enum PeakError {
    /// The file's extension is not the one of the columnar format.
    UnsupportedFileType,
}

impl PeakError {
    /// The fixed diagnostic text of this error.
    pub open spec fn spec_message(self) -> Seq<char> {
        match self {
            PeakError::UnsupportedFileType => "UNSUPPORTED_FILE_TYPE (.parquet or .pqt only)"@,
        }
    }

    /// Returns the fixed diagnostic text of this error.
    pub fn message(&self) -> (text: String)
        ensures
            text@ == self.spec_message(),
    {
        match self {
            PeakError::UnsupportedFileType => String::from_str(
                "UNSUPPORTED_FILE_TYPE (.parquet or .pqt only)",
            ),
        }
    }
}

/// The columnar source could not be opened or decoded.
#[derive(Clone, Debug, PartialEq, Eq)]
pub enum SourceError {
    /// The source holds no batch where one was asked for.
    NoData,
    /// The source handed out rows that do not fit its own schema or row
    /// count.
    Malformed,
    /// Opening or decoding failed; the text says how.
    Failed(String),
}

impl SourceError {
    /// The text that is shown for this error.
    pub open spec fn spec_message(self) -> Seq<char> {
        match self {
            SourceError::NoData => "No data in file"@,
            SourceError::Malformed => "Batch does not match the file's schema and row count"@,
            SourceError::Failed(text) => text@,
        }
    }

    /// Returns the text that is shown for this error.
    pub fn message(&self) -> (text: String)
        ensures
            text@ == self.spec_message(),
    {
        match self {
            SourceError::NoData => String::from_str("No data in file"),
            SourceError::Malformed => String::from_str(
                "Batch does not match the file's schema and row count",
            ),
            SourceError::Failed(text) => text.clone(),
        }
    }
}

/// The query engine could not run a query.
#[derive(Clone, Debug, PartialEq, Eq)]
pub enum QueryError {
    /// The engine could not be set up over the source.
    Setup(String),
    /// The query text was rejected.
    Sql(String),
    /// The query failed while it ran.
    Execution(String),
}

impl QueryError {
    /// The text that is shown for this error: the stage that failed, then
    /// the engine's own words.
    pub open spec fn spec_message(self) -> Seq<char> {
        match self {
            QueryError::Setup(text) => "Error: "@ + text@,
            QueryError::Sql(text) => "SQL: "@ + text@,
            QueryError::Execution(text) => "Execution: "@ + text@,
        }
    }

    /// Returns the text that is shown for this error.
    pub fn message(&self) -> (text: String)
        ensures
            text@ == self.spec_message(),
    {
        match self {
            QueryError::Setup(text) => String::from_str("Error: ").concat(text.as_str()),
            QueryError::Sql(text) => String::from_str("SQL: ").concat(text.as_str()),
            QueryError::Execution(text) => String::from_str("Execution: ").concat(text.as_str()),
        }
    }
}

/// The query result could not be exported.
#[derive(Clone, Debug, PartialEq, Eq)]
pub enum SaveError {
    /// No query result is on display: only a query result can be exported.
    NoOverlay,
    /// Writing the file failed; the text says how.
    Failed(String),
}

impl SaveError {
    /// The text that is shown for this error.
    pub open spec fn spec_message(self) -> Seq<char> {
        match self {
            SaveError::NoOverlay => "No SQL results to save. Execute a query first."@,
            SaveError::Failed(text) => text@,
        }
    }

    /// Returns the text that is shown for this error.
    pub fn message(&self) -> (text: String)
        ensures
            text@ == self.spec_message(),
    {
        match self {
            SaveError::NoOverlay => String::from_str(
                "No SQL results to save. Execute a query first.",
            ),
            SaveError::Failed(text) => text.clone(),
        }
    }
}

} // verus!

use peak::errors::PeakError;
use peak::errors::QueryError;
use peak::errors::SaveError;
use peak::errors::SourceError;

#[test]
fn unsupported_file_type_has_its_fixed_text() {
    assert_eq!(
        PeakError::UnsupportedFileType.message(),
        "UNSUPPORTED_FILE_TYPE (.parquet or .pqt only)"
    );
}

#[test]
fn source_errors_have_their_texts() {
    assert_eq!(SourceError::NoData.message(), "No data in file");
    assert_eq!(
        SourceError::Malformed.message(),
        "Batch does not match the file's schema and row count"
    );
    assert_eq!(SourceError::Failed("disk on fire".to_string()).message(), "disk on fire");
}

#[test]
fn query_errors_name_the_stage_that_failed() {
    assert_eq!(QueryError::Setup("no file".to_string()).message(), "Error: no file");
    assert_eq!(QueryError::Sql("bad token".to_string()).message(), "SQL: bad token");
    assert_eq!(QueryError::Execution("overflow".to_string()).message(), "Execution: overflow");
}

#[test]
fn save_errors_have_their_texts() {
    assert_eq!(
        SaveError::NoOverlay.message(),
        "No SQL results to save. Execute a query first."
    );
    assert_eq!(SaveError::Failed("read-only".to_string()).message(), "read-only");
}

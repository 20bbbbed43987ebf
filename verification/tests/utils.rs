use peak::errors::PeakError;
use peak::utils::check_extension;
use peak::utils::is_columnar_extension;
use peak::utils::validate_extension;
use std::path::PathBuf;

#[test]
fn parquet_files_are_accepted() {
    assert!(validate_extension(&PathBuf::from("data.parquet")));
    assert!(validate_extension(&PathBuf::from("/tmp/some dir/data.v2.parquet")));
    assert!(validate_extension(&PathBuf::from(".hidden.parquet")));
}

#[test]
fn other_files_are_rejected() {
    assert!(!validate_extension(&PathBuf::from("data.csv")));
    assert!(!validate_extension(&PathBuf::from("data.PARQUET")));
    assert!(!validate_extension(&PathBuf::from("data.parquet.gz")));
    assert!(!validate_extension(&PathBuf::from("data.pqt")));
    assert!(!validate_extension(&PathBuf::from("data..pqt")));
    assert!(!validate_extension(&PathBuf::from("data.")));
}

#[test]
fn files_without_extension_are_rejected() {
    assert!(!validate_extension(&PathBuf::from("parquet")));
    assert!(!validate_extension(&PathBuf::from(".parquet")));
    assert!(!validate_extension(&PathBuf::from("")));
    assert!(!validate_extension(&PathBuf::from("dir.parquet/data")));
}

#[test]
fn the_one_accepted_spelling() {
    assert!(is_columnar_extension(&"parquet".to_string()));
    assert!(!is_columnar_extension(&".pqt".to_string()));
    assert!(!is_columnar_extension(&"pqt".to_string()));
    assert!(!is_columnar_extension(&".parquet".to_string()));
    assert!(!is_columnar_extension(&"".to_string()));
    assert!(!is_columnar_extension(&"Parquet".to_string()));
}

#[test]
fn a_file_of_another_type_is_refused_with_its_error() {
    assert_eq!(check_extension(&PathBuf::from("data.parquet")), Ok(()));
    assert_eq!(check_extension(&PathBuf::from("data.csv")), Err(PeakError::UnsupportedFileType));
    assert_eq!(check_extension(&PathBuf::from("data")), Err(PeakError::UnsupportedFileType));
}

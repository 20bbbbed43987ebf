use arrow::array::ArrayRef;
use arrow::array::Int32Array;
use arrow::array::RecordBatch;
use arrow::array::StringArray;
use arrow::datatypes::DataType;
use arrow::datatypes::Field;
use arrow::datatypes::Schema;
use arrow::util::display::array_value_to_string;
use peak::peak::batch_to_rows;
use peak::peak::collect_results;
use peak::peak::column_names;
use peak::peak::text_schema;
use peak::peak::Batch;
use peak::sql_editor::OverlayState;
use std::sync::Arc;

fn texts(values: &[&str]) -> Vec<String> {
    values.iter().map(|value| value.to_string()).collect()
}

fn cells(values: &[Option<&str>]) -> Vec<Option<String>> {
    values.iter().map(|value| value.map(|text| text.to_string())).collect()
}

fn from_arrow(batch: &RecordBatch) -> Batch {
    let header = column_names(batch.schema_ref());
    let columns = batch
        .columns()
        .iter()
        .map(|column| {
            (0..batch.num_rows()).map(|row| array_value_to_string(column, row).ok()).collect()
        })
        .collect();
    Batch::new(header, columns, batch.num_rows()).unwrap()
}

fn people() -> RecordBatch {
    let schema = Schema::new(vec![
        Field::new("id", DataType::Int32, false),
        Field::new("name", DataType::Utf8, true),
    ]);
    let ids: ArrayRef = Arc::new(Int32Array::from(vec![1, 2, 3]));
    let names: ArrayRef = Arc::new(StringArray::from(vec![Some("ann"), None, Some("cy")]));
    RecordBatch::try_new(Arc::new(schema), vec![ids, names]).unwrap()
}

#[test]
fn column_names_come_from_the_schema_in_order() {
    let schema = Schema::new(vec![
        Field::new("id", DataType::Int32, false),
        Field::new("name", DataType::Utf8, true),
        Field::new("", DataType::Utf8, true),
    ]);
    assert_eq!(column_names(&schema), texts(&["id", "name", ""]));
    assert_eq!(column_names(&Schema::empty()), Vec::<String>::new());
}

#[test]
fn the_export_schema_names_the_header_and_types_every_column_as_text() {
    let header = texts(&["id", "name", ""]);
    let schema = text_schema(&header);
    assert_eq!(column_names(&schema), header);
    assert_eq!(schema.fields().len(), 3);
    for field in schema.fields() {
        assert_eq!(field.data_type(), &DataType::Utf8);
        assert!(field.is_nullable());
    }
    assert_eq!(text_schema(&Vec::new()), Schema::empty());
}

#[test]
fn a_batch_needs_one_name_per_column_and_columns_of_one_length() {
    assert!(Batch::new(texts(&["a"]), vec![cells(&[Some("1"), Some("2")])], 2).is_some());
    assert!(Batch::new(texts(&["a"]), vec![cells(&[Some("1"), Some("2")])], 3).is_none());
    assert!(Batch::new(texts(&["a", "b"]), vec![cells(&[Some("1")])], 1).is_none());
    assert!(Batch::new(texts(&[]), vec![cells(&[Some("1")])], 1).is_none());
    assert!(
        Batch::new(texts(&["a", "b"]), vec![cells(&[Some("1")]), cells(&[])], 1).is_none()
    );
    assert!(Batch::new(texts(&[]), Vec::new(), 4).is_some());
}

#[test]
fn a_batch_reports_its_shape() {
    let batch =
        Batch::new(texts(&["a", "b"]), vec![cells(&[Some("1")]), cells(&[None])], 1).unwrap();
    assert_eq!(batch.header(), &texts(&["a", "b"]));
    assert_eq!(batch.num_rows(), 1);
    assert_eq!(batch.num_columns(), 2);
}

#[test]
fn rows_hold_one_text_per_column() {
    let batch = Batch::new(
        texts(&["a", "b"]),
        vec![cells(&[Some("1"), Some("2"), Some("3")]), cells(&[Some("x"), Some("y"), Some("z")])],
        3,
    )
    .unwrap();
    assert_eq!(
        batch_to_rows(&batch),
        vec![texts(&["1", "x"]), texts(&["2", "y"]), texts(&["3", "z"])]
    );
}

#[test]
fn a_cell_without_text_is_shown_as_null() {
    let batch =
        Batch::new(texts(&["a", "b"]), vec![cells(&[None, Some("")]), cells(&[Some("x"), None])], 2)
            .unwrap();
    assert_eq!(batch_to_rows(&batch), vec![texts(&["NULL", "x"]), texts(&["", "NULL"])]);
}

#[test]
fn a_batch_without_columns_has_empty_rows() {
    let batch = Batch::new(Vec::new(), Vec::new(), 2).unwrap();
    assert_eq!(batch_to_rows(&batch), vec![Vec::<String>::new(), Vec::new()]);
    let none = Batch::new(texts(&["a"]), vec![Vec::new()], 0).unwrap();
    assert_eq!(batch_to_rows(&none), Vec::<Vec<String>>::new());
}

#[test]
fn an_arrow_batch_becomes_rows_of_text() {
    let batch = from_arrow(&people());
    assert_eq!(batch.header(), &texts(&["id", "name"]));
    assert_eq!(
        batch_to_rows(&batch),
        vec![texts(&["1", "ann"]), texts(&["2", ""]), texts(&["3", "cy"])]
    );
}

#[test]
fn results_take_the_first_header_and_all_rows() {
    let first = Batch::new(texts(&["a"]), vec![cells(&[Some("1"), Some("2")])], 2).unwrap();
    let second = Batch::new(texts(&["a"]), vec![cells(&[Some("3")])], 1).unwrap();
    let empty = Batch::new(texts(&["a"]), vec![cells(&[])], 0).unwrap();
    assert_eq!(
        collect_results(&vec![first, empty, second]),
        OverlayState {
            header: texts(&["a"]),
            rows: vec![texts(&["1"]), texts(&["2"]), texts(&["3"])],
        }
    );
}

#[test]
fn no_batches_give_an_empty_result() {
    assert_eq!(
        collect_results(&Vec::new()),
        OverlayState { header: Vec::new(), rows: Vec::new() }
    );
}

#[test]
fn results_of_arrow_batches() {
    let result = collect_results(&vec![from_arrow(&people()), from_arrow(&people())]);
    assert_eq!(result.header, texts(&["id", "name"]));
    assert_eq!(result.total_rows(), 6);
    assert_eq!(result.rows[4], texts(&["2", ""]));
}

#[test]
fn a_ragged_result_has_no_columns() {
    let short = OverlayState {
        header: texts(&["a", "b"]),
        rows: vec![texts(&["1", "2"]), texts(&["3"])],
    };
    assert_eq!(short.columns(), None);
    let long = OverlayState { header: texts(&["a"]), rows: vec![texts(&["1", "2"])] };
    assert_eq!(long.columns(), None);
    let empty = OverlayState { header: texts(&["a", "b"]), rows: Vec::new() };
    assert_eq!(empty.columns(), Some(vec![Vec::new(), Vec::new()]));
}

#[test]
fn exported_columns_read_back_as_the_same_rows() {
    let overlay = OverlayState {
        header: texts(&["a", "b", "c"]),
        rows: vec![texts(&["1", "2", "3"]), texts(&["4", "5", "6"])],
    };
    let columns = overlay.columns().unwrap();
    assert_eq!(columns, vec![texts(&["1", "4"]), texts(&["2", "5"]), texts(&["3", "6"])]);
    let arrays: Vec<ArrayRef> = columns
        .iter()
        .map(|column| {
            let array: ArrayRef =
                Arc::new(column.iter().map(|text| Some(text.as_str())).collect::<StringArray>());
            array
        })
        .collect();
    let written = RecordBatch::try_new(Arc::new(text_schema(&overlay.header)), arrays).unwrap();
    assert_eq!(written.num_rows(), overlay.total_rows());
    let read = from_arrow(&written);
    assert_eq!(read.header(), &overlay.header);
    assert_eq!(batch_to_rows(&read), overlay.rows);
}

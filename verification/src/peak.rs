//! From the batches of a columnar source to rows of text.
//!
//! Arrow keeps a batch as columns of typed values under a schema. A schema
//! is read and built here, through four small calls that are taken on trust:
//! they say which names the fields have, and of the fields built here that
//! they are typed as text.
//! The values are not touched: whoever holds the Arrow batch hands over, for
//! each cell, the text that Arrow prints for it, or nothing where Arrow
//! prints none. `Batch` holds those texts column by column, and the rows are
//! built from it.

use crate::cursor::rectangular;
use crate::sql_editor::OverlayState;
use crate::sql_editor::OverlayView;
use arrow::datatypes::DataType;
use arrow::datatypes::Field;
use arrow::datatypes::Schema;
use vstd::prelude::*;

verus! {

/// `arrow::datatypes::Schema`: the fields of a batch, in order.
#[verifier::external_type_specification]
#[verifier::external_body]
pub struct ExSchema(Schema);

/// `arrow::datatypes::Field`: the name and the type of one column.
#[verifier::external_type_specification]
#[verifier::external_body]
pub struct ExField(Field);

/// The names of the fields of a schema, in order.
pub uninterp spec fn schema_names(schema: Schema) -> Seq<Seq<char>>;

/// The name of a field.
pub uninterp spec fn field_label(field: Field) -> Seq<char>;

/// Whether a field is typed as text: whether its data type is
/// `DataType::Utf8`.
pub uninterp spec fn field_is_text(field: Field) -> bool;

/// For each field of a schema, in order, whether it is typed as text.
pub uninterp spec fn schema_text(schema: Schema) -> Seq<bool>;

/// Calls `Schema::fields` and takes the length. Trusted: the schema has that
/// many field names.
#[verifier::external_body]
fn field_count(schema: &Schema) -> (count: usize)
    ensures
        count == schema_names(*schema).len(),
{
    schema.fields().len()
}

/// Calls `Schema::field` and `Field::name`. Trusted: the result is the name
/// of field `index`. `Schema::field` panics past the last field, which the
/// precondition leaves out.
#[verifier::external_body]
fn field_name(schema: &Schema, index: usize) -> (name: String)
    requires
        index < schema_names(*schema).len(),
    ensures
        name@ == schema_names(*schema)[index as int],
{
    schema.field(index).name().clone()
}

/// Calls `Field::new` for a column of text that may hold nulls. Trusted: the
/// field has the name and the data type it was given, and that type is
/// `DataType::Utf8`.
#[verifier::external_body]
fn text_field(name: &String) -> (field: Field)
    ensures
        field_label(field) == name@,
        field_is_text(field),
{
    Field::new(name.clone(), DataType::Utf8, true)
}

/// Calls `Schema::new`. Trusted: the schema holds the fields it was given,
/// in their order, each with its name and its type.
#[verifier::external_body]
fn schema_of(fields: Vec<Field>) -> (schema: Schema)
    ensures
        schema_names(schema) == Seq::new(fields.len() as nat, |i: int| field_label(fields[i])),
        schema_text(schema) == Seq::new(fields.len() as nat, |i: int| field_is_text(fields[i])),
{
    Schema::new(fields)
}

/// Whether every field of a schema is typed as text.
pub open spec fn all_text(schema: Schema) -> bool {
    forall|i: int| 0 <= i < schema_text(schema).len() ==> #[trigger] schema_text(schema)[i]
}

/// Returns the schema of a table whose columns have the names in `header`
/// and hold text: the schema under which a query result is written. It has
/// one field per name, in order, and every field is typed as text.
pub fn text_schema(header: &Vec<String>) -> (schema: Schema)
    ensures
        schema_names(schema) == header.deep_view(),
        schema_text(schema).len() == header.len(),
        all_text(schema),
{
    let mut fields: Vec<Field> = Vec::new();
    let mut j: usize = 0;
    while j < header.len()
        invariant
            j <= header.len(),
            fields.len() == j,
            forall|m: int|
                0 <= m < j ==> field_label(#[trigger] fields[m]) == header[m]@ && field_is_text(
                    fields[m],
                ),
        decreases header.len() - j,
    {
        fields.push(text_field(&header[j]));
        j = j + 1;
    }
    let schema = schema_of(fields);
    assert(schema_names(schema) =~= header.deep_view());
    schema
}

/// Returns the names of the fields of a schema, in order.
pub fn column_names(schema: &Schema) -> (header: Vec<String>)
    ensures
        header.deep_view() == schema_names(*schema),
{
    let width: usize = field_count(schema);
    let mut header: Vec<String> = Vec::new();
    let mut j: usize = 0;
    while j < width
        invariant
            j <= width,
            width == schema_names(*schema).len(),
            header.len() == j,
            forall|m: int| 0 <= m < j ==> (#[trigger] header[m])@ == schema_names(*schema)[m],
        decreases width - j,
    {
        header.push(field_name(schema, j));
        j = j + 1;
    }
    assert(header.deep_view() =~= schema_names(*schema));
    header
}

/// The text that is shown for a cell: its own, or `NULL` where it has none.
pub open spec fn cell_or_null(cell: Option<Seq<char>>) -> Seq<char> {
    match cell {
        Some(text) => text,
        None => "NULL"@,
    }
}

/// The cells of a column, as mathematical values.
pub open spec fn column_view(column: Vec<Option<String>>) -> Seq<Option<Seq<char>>> {
    Seq::new(
        column.len() as nat,
        |i: int|
            match column[i] {
                Some(text) => Some(text@),
                None => None,
            },
    )
}

/// The columns of a batch, as mathematical values.
pub open spec fn columns_view(columns: Vec<Vec<Option<String>>>) -> Seq<Seq<Option<Seq<char>>>> {
    Seq::new(columns.len() as nat, |j: int| column_view(columns[j]))
}

/// Whether every column has `height` cells.
pub open spec fn columns_have_height(columns: Seq<Seq<Option<Seq<char>>>>, height: nat) -> bool {
    forall|j: int| 0 <= j < columns.len() ==> (#[trigger] columns[j]).len() == height
}

/// A `Batch`, as mathematical values.
pub struct BatchView {
    /// The names of the columns.
    pub header: Seq<Seq<char>>,
    /// The cells, column by column; `None` where there is no text.
    pub columns: Seq<Seq<Option<Seq<char>>>>,
    /// The number of rows.
    pub height: nat,
}

impl BatchView {
    /// The invariant of a batch: one name per column, and `height` cells in
    /// every column.
    pub open spec fn wf(self) -> bool {
        &&& self.header.len() == self.columns.len()
        &&& columns_have_height(self.columns, self.height)
    }

    /// Row `i` of the batch: the text of cell `i` of every column.
    pub open spec fn row(self, i: int) -> Seq<Seq<char>> {
        Seq::new(self.columns.len(), |j: int| cell_or_null(self.columns[j][i]))
    }

    /// The rows of the batch.
    pub open spec fn rows(self) -> Seq<Seq<Seq<char>>> {
        Seq::new(self.height, |i: int| self.row(i))
    }
}

/// The rows of all the batches, one batch after the other.
pub open spec fn all_rows(batches: Seq<BatchView>) -> Seq<Seq<Seq<char>>>
    decreases batches.len(),
{
    if batches.len() == 0 {
        Seq::empty()
    } else {
        all_rows(batches.drop_last()) + batches.last().rows()
    }
}

/// What a query returned in `batches`: the column names of the first batch,
/// and the rows of all of them.
pub open spec fn results_of(batches: Seq<BatchView>) -> OverlayView {
    OverlayView {
        header: if batches.len() == 0 {
            Seq::empty()
        } else {
            batches[0].header
        },
        rows: all_rows(batches),
    }
}

/// A batch of a columnar source or of a query result, as texts: the names
/// of its columns and, column by column, the text of every cell.
#[derive(Clone, Debug, PartialEq, Eq)]
pub struct Batch {
    header: Vec<String>,
    columns: Vec<Vec<Option<String>>>,
    height: usize,
}

impl View for Batch {
    type V = BatchView;

    closed spec fn view(&self) -> BatchView {
        BatchView {
            header: self.header.deep_view(),
            columns: columns_view(self.columns),
            height: self.height as nat,
        }
    }
}

/// The views of a list of batches.
pub open spec fn batch_views(batches: Seq<Batch>) -> Seq<BatchView> {
    Seq::new(batches.len(), |b: int| batches[b]@)
}

impl Batch {
    /// Makes a batch of `num_rows` rows from the names of its columns and
    /// the cells of each column. Returns `None` unless there is one name per
    /// column and every column has `num_rows` cells.
    pub fn new(header: Vec<String>, columns: Vec<Vec<Option<String>>>, num_rows: usize) -> (batch:
        Option<Batch>)
        ensures
            batch is Some <==> (header.len() == columns.len() && columns_have_height(
                columns_view(columns),
                num_rows as nat,
            )),
            batch matches Some(made) ==> made@.wf() && made@ == (BatchView {
                header: header.deep_view(),
                columns: columns_view(columns),
                height: num_rows as nat,
            }),
    {
        if header.len() != columns.len() {
            return None;
        }
        let mut j: usize = 0;
        while j < columns.len()
            invariant
                j <= columns.len(),
                forall|k: int|
                    0 <= k < j ==> (#[trigger] columns_view(columns)[k]).len() == num_rows,
            decreases columns.len() - j,
        {
            if columns[j].len() != num_rows {
                assert(columns_view(columns)[j as int].len() != num_rows);
                return None;
            }
            j = j + 1;
        }
        Some(Batch { header, columns, height: num_rows })
    }

    /// Returns the names of the columns.
    pub fn header(&self) -> (header: &Vec<String>)
        ensures
            header.deep_view() == self@.header,
    {
        &self.header
    }

    /// Returns the number of rows.
    pub fn num_rows(&self) -> (count: usize)
        ensures
            count == self@.height,
    {
        self.height
    }

    /// Returns the number of columns.
    pub fn num_columns(&self) -> (count: usize)
        ensures
            count == self@.columns.len(),
    {
        self.columns.len()
    }
}

/// Returns the rows of a batch as texts: one row per row of the batch, one
/// text per column, `NULL` where a cell has no text.
pub fn batch_to_rows(batch: &Batch) -> (rows: Vec<Vec<String>>)
    requires
        batch@.wf(),
    ensures
        rows.deep_view() == batch@.rows(),
        rows.len() == batch@.height,
        rectangular(rows.deep_view(), batch@.header.len()),
{
    let height: usize = batch.height;
    let width: usize = batch.columns.len();
    let mut rows: Vec<Vec<String>> = Vec::new();
    let mut i: usize = 0;
    while i < height
        invariant
            i <= height,
            batch@.wf(),
            height == batch@.height,
            width == batch.columns.len(),
            rows.len() == i,
            forall|k: int| 0 <= k < i ==> (#[trigger] rows[k]).deep_view() == batch@.row(k),
        decreases height - i,
    {
        let mut row: Vec<String> = Vec::new();
        let mut j: usize = 0;
        while j < width
            invariant
                i < height,
                batch@.wf(),
                height == batch@.height,
                j <= width,
                width == batch.columns.len(),
                row.len() == j,
                forall|m: int|
                    0 <= m < j ==> (#[trigger] row[m])@ == cell_or_null(batch@.columns[m][i as int]),
            decreases width - j,
        {
            assert(columns_view(batch.columns)[j as int].len() == height);
            let text = match &batch.columns[j][i] {
                Some(text) => text.clone(),
                None => String::from_str("NULL"),
            };
            row.push(text);
            j = j + 1;
        }
        assert(row.deep_view() =~= batch@.row(i as int));
        rows.push(row);
        i = i + 1;
    }
    assert(rows.deep_view() =~= batch@.rows());
    assert forall|k: int| 0 <= k < rows.len() implies (#[trigger] rows.deep_view()[k]).len()
        == batch@.header.len() by {
        assert(rows.deep_view()[k] == batch@.row(k));
    }
    rows
}

/// Returns what a query returned in `batches` as one table: the column names
/// of the first batch, and the rows of all batches in order.
pub fn collect_results(batches: &Vec<Batch>) -> (result: OverlayState)
    requires
        forall|b: int| 0 <= b < batches.len() ==> (#[trigger] batches[b])@.wf(),
    ensures
        result@ == results_of(batch_views(batches@)),
{
    let ghost views = batch_views(batches@);
    let mut header: Vec<String> = Vec::new();
    if batches.len() > 0 {
        let first = &batches[0].header;
        let mut j: usize = 0;
        while j < first.len()
            invariant
                j <= first.len(),
                header.len() == j,
                forall|m: int| 0 <= m < j ==> (#[trigger] header[m])@ == first[m]@,
            decreases first.len() - j,
        {
            header.push(first[j].clone());
            j = j + 1;
        }
    }
    assert(header.deep_view() =~= results_of(views).header);
    let mut rows: Vec<Vec<String>> = Vec::new();
    let mut b: usize = 0;
    while b < batches.len()
        invariant
            b <= batches.len(),
            header.deep_view() == results_of(views).header,
            views == batch_views(batches@),
            forall|k: int| 0 <= k < batches.len() ==> (#[trigger] batches[k])@.wf(),
            rows.deep_view() == all_rows(views.take(b as int)),
        decreases batches.len() - b,
    {
        let ghost before = rows.deep_view();
        let mut more = batch_to_rows(&batches[b]);
        let ghost added = more.deep_view();
        rows.append(&mut more);
        proof {
            assert(views.take(b + 1).drop_last() == views.take(b as int));
            assert(views.take(b + 1).last() == batches[b as int]@);
            assert(rows.deep_view() =~= before + added);
        }
        b = b + 1;
    }
    assert(views.take(batches.len() as int) == views);
    OverlayState { header, rows }
}

/// The cells of a column of texts, none of them missing.
pub open spec fn present(column: Seq<Seq<char>>) -> Seq<Option<Seq<char>>> {
    Seq::new(column.len(), |i: int| Some(column[i]))
}

/// Writing a query result out column by column and reading the columns back
/// as a batch gives the rows of the result, as many as it had and each as it
/// was.
pub proof fn lemma_export_keeps_the_rows(overlay: OverlayView)
    requires
        overlay.wf(),
    ensures
        ({
            let batch = BatchView {
                header: overlay.header,
                columns: Seq::new(overlay.header.len(), |j: int| present(overlay.column(j))),
                height: overlay.rows.len(),
            };
            &&& batch.wf()
            &&& batch.rows() == overlay.rows
            &&& batch.rows().len() == overlay.total_rows()
        }),
{
    let batch = BatchView {
        header: overlay.header,
        columns: Seq::new(overlay.header.len(), |j: int| present(overlay.column(j))),
        height: overlay.rows.len(),
    };
    assert forall|i: int| 0 <= i < overlay.rows.len() implies batch.rows()[i]
        == overlay.rows[i] by {
        assert(overlay.rows[i].len() == overlay.header.len());
        assert(batch.row(i) =~= overlay.rows[i]);
    }
    assert(batch.rows() =~= overlay.rows);
}

} // verus!

//! What a host application gets to see of a parsed table: its shape, its
//! columns, and its cells as text.

use vstd::prelude::*;
use polars::prelude::DataFrame;
use crate::engine::{
    cell_view, column_count, column_names, column_texts, column_types, frame_has_text,
    frame_rows, frame_schema, row_count,
};
use crate::error::InsightoraError;

verus! {

/// One column of a schema: its name and the rendering of its logical type.
#[derive(Debug)]
pub struct ColumnSchema {
    pub name: String,
    pub dtype: String,
}

/// A parsed table as plain values: the column names in order, the numbers
/// of rows and columns, and the cells, column by column, as text.
#[derive(Debug)]
pub struct ParsedTable {
    pub columns: Vec<String>,
    pub num_rows: usize,
    pub num_columns: usize,
    pub data: Vec<Vec<Option<String>>>,
}

/// The columns of a file as plain values: names and logical types, each in
/// column order, and their number.
#[derive(Debug)]
pub struct SchemaSummary {
    pub columns: Vec<String>,
    pub dtypes: Vec<String>,
    pub num_columns: usize,
}

/// Whether `names` are the column names of `schema`, in order.
pub open spec fn names_of(names: Seq<String>, schema: Seq<(Seq<char>, Seq<char>)>) -> bool {
    &&& names.len() == schema.len()
    &&& forall|i: int| 0 <= i < names.len() ==> (#[trigger] names[i])@ == schema[i].0
}

/// Whether `types` are the logical types of `schema`, in order.
pub open spec fn types_of(types: Seq<String>, schema: Seq<(Seq<char>, Seq<char>)>) -> bool {
    &&& types.len() == schema.len()
    &&& forall|i: int| 0 <= i < types.len() ==> (#[trigger] types[i])@ == schema[i].1
}

/// Whether `fields` is `schema`, column by column.
pub open spec fn fields_of(fields: Seq<ColumnSchema>, schema: Seq<(Seq<char>, Seq<char>)>) -> bool {
    &&& fields.len() == schema.len()
    &&& forall|i: int|
        0 <= i < fields.len() ==> {
            &&& (#[trigger] fields[i]).name@ == schema[i].0
            &&& fields[i].dtype@ == schema[i].1
        }
}

/// Whether `cells` is column `column` of `rows`, first row to last.
pub open spec fn column_of(
    cells: Seq<Option<String>>,
    rows: Seq<Seq<Option<Seq<char>>>>,
    column: int,
) -> bool {
    &&& cells.len() == rows.len()
    &&& forall|r: int| 0 <= r < cells.len() ==> cell_view(#[trigger] cells[r]) == rows[r][column]
}

/// Whether `data` holds the cells of `rows` column by column, for `width` columns.
pub open spec fn cells_of(
    data: Seq<Vec<Option<String>>>,
    rows: Seq<Seq<Option<Seq<char>>>>,
    width: nat,
) -> bool {
    &&& data.len() == width
    &&& forall|c: int| 0 <= c < data.len() ==> column_of((#[trigger] data[c])@, rows, c)
}

/// The schema of a table: every column's name and logical type, in column order.
pub fn table_schema(table: &DataFrame) -> (fields: Vec<ColumnSchema>)
    ensures
        fields_of(fields@, frame_schema(*table)),
{
    let names = column_names(table);
    let types = column_types(table);
    let mut fields: Vec<ColumnSchema> = Vec::new();
    let mut i: usize = 0;
    while i < names.len()
        invariant
            i <= names@.len(),
            names_of(names@, frame_schema(*table)),
            types_of(types@, frame_schema(*table)),
            fields@.len() == i,
            forall|j: int|
                0 <= j < i ==> {
                    &&& (#[trigger] fields@[j]).name@ == frame_schema(*table)[j].0
                    &&& fields@[j].dtype@ == frame_schema(*table)[j].1
                },
        decreases names@.len() - i,
    {
        fields.push(ColumnSchema { name: names[i].clone(), dtype: types[i].clone() });
        i = i + 1;
    }
    fields
}

/// The schema of a table in the shape a host application receives.
pub fn summarize_schema(table: &DataFrame) -> (summary: SchemaSummary)
    ensures
        names_of(summary.columns@, frame_schema(*table)),
        types_of(summary.dtypes@, frame_schema(*table)),
        summary.num_columns == frame_schema(*table).len(),
{
    SchemaSummary {
        columns: column_names(table),
        dtypes: column_types(table),
        num_columns: column_count(table),
    }
}

/// Whether every column of a table has a text form.
pub open spec fn all_columns_have_text(frame: DataFrame) -> bool {
    forall|c: int| 0 <= c < frame_schema(frame).len() ==> frame_has_text(frame, c)
}

/// A table in the shape a host application receives: names, shape, and the
/// text of every cell. The export succeeds exactly where every column has a
/// text form; otherwise the engine's failure for the first column without
/// one is passed on.
pub fn export_table(table: &DataFrame) -> (outcome: Result<ParsedTable, InsightoraError>)
    ensures
        outcome is Ok <==> all_columns_have_text(*table),
        match outcome {
            Ok(parsed) => {
                &&& names_of(parsed.columns@, frame_schema(*table))
                &&& parsed.num_rows == frame_rows(*table).len()
                &&& parsed.num_columns == frame_schema(*table).len()
                &&& cells_of(parsed.data@, frame_rows(*table), frame_schema(*table).len())
            },
            Err(error) => error is PolarsError,
        },
{
    let columns = column_names(table);
    let num_rows = row_count(table);
    let num_columns = column_count(table);
    let mut data: Vec<Vec<Option<String>>> = Vec::new();
    let mut column: usize = 0;
    while column < num_columns
        invariant
            column <= num_columns,
            num_columns == frame_schema(*table).len(),
            data@.len() == column,
            forall|c: int| 0 <= c < column ==> frame_has_text(*table, c),
            forall|c: int|
                0 <= c < column ==> column_of((#[trigger] data@[c])@, frame_rows(*table), c),
        decreases num_columns - column,
    {
        match column_texts(table, column) {
            Ok(cells) => {
                data.push(cells);
            },
            Err(error) => {
                return Err(InsightoraError::PolarsError(error));
            },
        }
        column = column + 1;
    }
    Ok(ParsedTable { columns, num_rows, num_columns, data })
}

} // verus!

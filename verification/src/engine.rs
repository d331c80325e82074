//! The table engine. Tables are the data frames of polars; this module is the
//! only place that calls into it. Nothing here is proved: each contract below
//! states what the engine's source shows of the call it wraps.

use vstd::prelude::*;
use polars::prelude::{DataFrame, DataType};
use polars::error::PolarsError;

verus! {

/// A table of the engine: named, typed columns of equal length.
#[verifier::external_type_specification]
#[verifier::external_body]
pub struct ExDataFrame(polars::prelude::DataFrame);

/// A single column of a table. The library never holds one; the declaration is
/// needed because the engine's table type names it in its interface.
#[verifier::external_type_specification]
#[verifier::external_body]
pub struct ExSeries(polars::prelude::Series);

/// The engine's error.
#[verifier::external_type_specification]
#[verifier::external_body]
pub struct ExPolarsError(polars::error::PolarsError);

/// The rows of a table, first to last. A row holds one cell per column, in
/// column order; a cell is the text the engine renders its value to, or
/// `None` where the value is missing.
pub uninterp spec fn frame_rows(frame: DataFrame) -> Seq<Seq<Option<Seq<char>>>>;

/// The columns of a table, in order: each a name and the rendering of its
/// logical type.
pub uninterp spec fn frame_schema(frame: DataFrame) -> Seq<(Seq<char>, Seq<char>)>;

/// Whether column `column` of a table has a text form: whether the engine's
/// cast of that column to its string type succeeds.
pub uninterp spec fn frame_has_text(frame: DataFrame, column: int) -> bool;

/// The text of a cell as a plain value.
pub open spec fn cell_view(cell: Option<String>) -> Option<Seq<char>> {
    match cell {
        Some(text) => Some(text@),
        None => None,
    }
}

/// `DataFrame::height`: the number of rows. The engine keeps the length of a
/// column in its index type, which has 32 bits unless the engine is built
/// with its `bigidx` feature; this crate does not ask for it.
#[verifier::external_body]
pub(crate) fn row_count(table: &DataFrame) -> (count: usize)
    ensures
        count == frame_rows(*table).len(),
        count <= u32::MAX,
{
    table.height()
}

/// `DataFrame::width`: the number of columns.
#[verifier::external_body]
pub(crate) fn column_count(table: &DataFrame) -> (count: usize)
    ensures
        count == frame_schema(*table).len(),
{
    table.width()
}

/// `DataFrame::slice` with an offset from the start: the window of `len` rows
/// that begins at row `offset`, under the same columns. The window has to lie
/// inside the table, where the engine neither clamps it nor counts from the end.
#[verifier::external_body]
pub(crate) fn slice_rows(table: &DataFrame, offset: usize, len: usize) -> (part: DataFrame)
    requires
        offset + len <= frame_rows(*table).len(),
        offset <= i64::MAX,
    ensures
        frame_rows(part) == frame_rows(*table).subrange(offset as int, offset + len),
        frame_schema(part) == frame_schema(*table),
{
    table.slice(offset as i64, len)
}

/// `DataFrame::get_column_names`: the names of the columns, in column order.
#[verifier::external_body]
pub(crate) fn column_names(table: &DataFrame) -> (names: Vec<String>)
    ensures
        names@.len() == frame_schema(*table).len(),
        forall|i: int| 0 <= i < names@.len() ==> (#[trigger] names@[i])@ == frame_schema(*table)[i].0,
{
    table.get_column_names().iter().map(|name| name.to_string()).collect()
}

/// `DataFrame::dtypes`: the logical type of each column, in column order,
/// rendered with the type's `Debug` form.
#[verifier::external_body]
pub(crate) fn column_types(table: &DataFrame) -> (types: Vec<String>)
    ensures
        types@.len() == frame_schema(*table).len(),
        forall|i: int| 0 <= i < types@.len() ==> (#[trigger] types@[i])@ == frame_schema(*table)[i].1,
{
    table.dtypes().iter().map(|dtype| format!("{:?}", dtype)).collect()
}

/// `Series::cast` to the string type, then `Series::str` and a walk over the
/// result: the cells of one column as text, first row to last. Whether the
/// cast succeeds depends on the column alone; it fails exactly for a column
/// whose values have no text form.
#[verifier::external_body]
pub(crate) fn column_texts(table: &DataFrame, column: usize) -> (cells: Result<
    Vec<Option<String>>,
    PolarsError,
>)
    requires
        column < frame_schema(*table).len(),
    ensures
        cells is Ok <==> frame_has_text(*table, column as int),
        cells matches Ok(texts) ==> {
            &&& texts@.len() == frame_rows(*table).len()
            &&& forall|r: int|
                0 <= r < texts@.len() ==> cell_view(#[trigger] texts@[r]) == frame_rows(
                    *table,
                )[r][column as int]
        },
{
    let texts = table.get_columns()[column].cast(&DataType::String)?;
    let cells = texts.str()?;
    Ok(cells.into_iter().map(|cell| cell.map(|text| text.to_string())).collect())
}

} // verus!

//! Record batches in contracts, and the errors of a conversion.

use crate::cell::{ColumnType, Value};
use crate::trusted::arrays::{array_kind, array_values, Column};
use arrow::error::ArrowError;
use vstd::prelude::*;

verus! {

/// One column of a batch, in contracts.
pub struct ColumnModel {
    pub name: Seq<char>,
    pub kind: ColumnType,
    pub values: Seq<Option<Value>>,
}

/// A named array, as a batch holds it.
pub open spec fn column_model(name: String, column: Column) -> ColumnModel {
    ColumnModel { name: name@, kind: array_kind(column), values: array_values(column) }
}

/// Whether named arrays can form a batch: there is one at least, and all
/// have the length of the first.
pub open spec fn assembles(columns: Seq<(String, Column)>) -> bool {
    &&& columns.len() > 0
    &&& forall|i: int|
        0 <= i < columns.len() ==> (#[trigger] array_values(columns[i].1)).len() == array_values(
            columns[0].1,
        ).len()
}

/// Why a sheet was not converted.
#[derive(Debug)]
pub enum ConversionCause {
    /// The assembly of the batch refused the columns.
    Assembly(ArrowError),
    /// The strings of the text column with this index hold more bytes than
    /// one array takes.
    TextTooLarge(usize),
}

/// A sheet that was not converted, and why.
#[derive(Debug)]
pub struct ConversionError {
    /// Name of the sheet.
    pub sheet: String,
    pub cause: ConversionCause,
}

} // verus!

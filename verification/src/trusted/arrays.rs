//! Typed arrays and record batches, as arrow holds them.

use crate::batch::{assembles, column_model, ColumnModel};
use crate::cell::{ColumnType, Value};
use crate::column::{text_size, TEXT_LIMIT};
use arrow::array::{
    ArrayRef, BooleanArray, Float64Array, Int64Array, NullArray, StringArray,
    TimestampMillisecondArray,
};
use arrow::datatypes::{ArrowPrimitiveType, Float64Type};
use arrow::error::ArrowError;
use arrow::record_batch::RecordBatch;
use std::sync::Arc;
use vstd::prelude::*;

verus! {

/// The native type of the slots of a `Float64Array`.
type Float = <Float64Type as ArrowPrimitiveType>::Native;

/// arrow's error.
#[verifier::external_type_specification]
#[verifier::external_body]
pub struct ExArrowError(ArrowError);

/// A typed array: one column of a batch. It holds an arrow array.
#[derive(Debug)]
#[verifier::external_body]
pub struct Column {
    pub array: ArrayRef,
}

/// A record batch: the columns of one sheet, ready to be handed on. It holds
/// an arrow record batch.
#[derive(Debug)]
#[verifier::external_body]
pub struct Batch {
    pub record_batch: RecordBatch,
}

/// The type of an array: the column type for its arrow data type, which is
/// `Boolean`, `Int64`, `Float64`, `Utf8`, `Timestamp(Millisecond, None)` or
/// `Null`, in the order of the column types.
pub uninterp spec fn array_kind(column: Column) -> ColumnType;

/// The slots of an array in order: nothing for a null slot, floats by their
/// bits.
pub uninterp spec fn array_values(column: Column) -> Seq<Option<Value>>;

/// The columns of a batch in order: the name of each field of its schema,
/// with the type and the slots of its array.
pub uninterp spec fn batch_columns(batch: Batch) -> Seq<ColumnModel>;

/// The slot that holds a boolean, or none.
pub open spec fn lift_bool(value: Option<bool>) -> Option<Value> {
    match value {
        Some(b) => Some(Value::Bool(b)),
        None => None,
    }
}

/// The slot that holds an integer, or none.
pub open spec fn lift_int(value: Option<i64>) -> Option<Value> {
    match value {
        Some(v) => Some(Value::Int(v)),
        None => None,
    }
}

/// The slot that holds a float, given by its bits, or none.
pub open spec fn lift_float(value: Option<u64>) -> Option<Value> {
    match value {
        Some(bits) => Some(Value::Float(bits)),
        None => None,
    }
}

/// The slot that holds a string, or none.
pub open spec fn lift_text(value: Option<&str>) -> Option<Value> {
    match value {
        Some(s) => Some(Value::Text(s@)),
        None => None,
    }
}

/// The slot that holds a count of milliseconds, or none.
pub open spec fn lift_millis(value: Option<i64>) -> Option<Value> {
    match value {
        Some(v) => Some(Value::Millis(v)),
        None => None,
    }
}

/// `BooleanArray::from_iter`: an array with one slot for each item.
#[verifier::external_body]
pub(crate) fn boolean_array(values: Vec<Option<bool>>) -> (column: Column)
    ensures
        array_kind(column) == ColumnType::Boolean,
        array_values(column) == values@.map_values(|v: Option<bool>| lift_bool(v)),
{
    Column { array: Arc::new(BooleanArray::from_iter(values)) }
}

/// `Int64Array::from_iter`: an array with one slot for each item.
#[verifier::external_body]
pub(crate) fn int64_array(values: Vec<Option<i64>>) -> (column: Column)
    ensures
        array_kind(column) == ColumnType::Integer,
        array_values(column) == values@.map_values(|v: Option<i64>| lift_int(v)),
{
    Column { array: Arc::new(Int64Array::from_iter(values)) }
}

/// `Float64Array::from_iter`: an array with one slot for each item, each
/// float made from its bits.
#[verifier::external_body]
pub(crate) fn float64_array(values: Vec<Option<u64>>) -> (column: Column)
    ensures
        array_kind(column) == ColumnType::Float,
        array_values(column) == values@.map_values(|v: Option<u64>| lift_float(v)),
{
    let floats = values.into_iter().map(|v| v.map(Float::from_bits));
    Column { array: Arc::new(Float64Array::from_iter(floats)) }
}

/// `StringArray::from_iter`: an array with one slot for each item. The call
/// panics where the items hold more than `TEXT_LIMIT` bytes together.
#[verifier::external_body]
pub(crate) fn string_array(values: Vec<Option<&str>>) -> (column: Column)
    requires
        text_size(values@.map_values(|v: Option<&str>| lift_text(v))) <= TEXT_LIMIT,
    ensures
        array_kind(column) == ColumnType::Text,
        array_values(column) == values@.map_values(|v: Option<&str>| lift_text(v)),
{
    Column { array: Arc::new(StringArray::from_iter(values)) }
}

/// `TimestampMillisecondArray::from_iter`: an array with one slot for each
/// item.
#[verifier::external_body]
pub(crate) fn timestamp_array(values: Vec<Option<i64>>) -> (column: Column)
    ensures
        array_kind(column) == ColumnType::DatetimeMillis,
        array_values(column) == values@.map_values(|v: Option<i64>| lift_millis(v)),
{
    Column { array: Arc::new(TimestampMillisecondArray::from_iter(values)) }
}

/// `NullArray::new`: an array of that many null slots.
#[verifier::external_body]
pub(crate) fn null_array(len: usize) -> (column: Column)
    ensures
        array_kind(column) == ColumnType::Null,
        array_values(column) == Seq::new(len as nat, |k: int| None::<Value>),
{
    Column { array: Arc::new(NullArray::new(len)) }
}

/// `RecordBatch::try_from_iter`: the batch of the named arrays, in their
/// order. It is refused where there is no array, and where two arrays differ
/// in length.
#[verifier::external_body]
pub(crate) fn assemble(columns: Vec<(String, Column)>) -> (result: Result<Batch, ArrowError>)
    ensures
        result is Ok <==> assembles(columns@),
        result matches Ok(batch) ==> batch_columns(batch) == columns@.map_values(
            |c: (String, Column)| column_model(c.0, c.1),
        ),
{
    let arrays = columns.into_iter().map(|(name, column)| (name, column.array));
    match RecordBatch::try_from_iter(arrays) {
        Ok(record_batch) => Ok(Batch { record_batch }),
        Err(error) => Err(error),
    }
}

} // verus!

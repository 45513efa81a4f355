//! Ranges of cells, as calamine holds them, and dates, as chrono does.

use crate::cell::{magnitude, Cell, DAY_MILLIS, EPOCH_SERIAL, INFINITY_BITS};
use calamine::{DataType, Range};
use chrono::NaiveDateTime;
use vstd::prelude::*;

verus! {

/// calamine's rectangle of cells.
#[verifier::external_type_specification]
#[verifier::external_body]
#[verifier::reject_recursive_types(T)]
pub struct ExRange<T>(Range<T>);

/// calamine's cell.
#[verifier::external_type_specification]
#[verifier::external_body]
pub struct ExDataType(DataType);

/// chrono's date and time without a time zone.
#[verifier::external_type_specification]
#[verifier::external_body]
pub struct ExNaiveDateTime(NaiveDateTime);

/// What `Range::height` returns for a range.
pub uninterp spec fn grid_height(grid: Range<DataType>) -> nat;

/// What `Range::width` returns for a range.
pub uninterp spec fn grid_width(grid: Range<DataType>) -> nat;

/// The cells of a range by relative position `(row, column)`: what
/// `Range::get` finds there. A position without a cell is not in the map.
pub uninterp spec fn grid_cells(grid: Range<DataType>) -> Map<(int, int), DataType>;

/// What a cell holds: the variant of `Cell` that stands for its variant of
/// `DataType`, with the same contents, floats by their bits.
pub uninterp spec fn cell_view(cell: DataType) -> Cell;

/// What `DataType::as_datetime` returns for a cell that holds this.
pub uninterp spec fn excel_datetime(cell: Cell) -> Option<NaiveDateTime>;

/// What `NaiveDateTime::timestamp_millis` returns for a date and time.
pub uninterp spec fn epoch_millis(datetime: NaiveDateTime) -> i64;

/// `Range::height`: the number of rows.
#[verifier::external_body]
pub(crate) fn range_height(grid: &Range<DataType>) -> (height: usize)
    ensures
        height == grid_height(*grid),
{
    grid.height()
}

/// `Range::width`: the number of columns.
#[verifier::external_body]
pub(crate) fn range_width(grid: &Range<DataType>) -> (width: usize)
    ensures
        width == grid_width(*grid),
{
    grid.width()
}

/// `Range::get`: the cell at a relative position, if the range holds one
/// there. The position lies within the height and the width of the range.
#[verifier::external_body]
pub(crate) fn range_get(grid: &Range<DataType>, row: usize, col: usize) -> (cell: Option<
    &DataType,
>)
    requires
        row < grid_height(*grid),
        col < grid_width(*grid),
    ensures
        match cell {
            Some(c) => grid_cells(*grid).contains_key((row as int, col as int))
                && *c == grid_cells(*grid)[(row as int, col as int)],
            None => !grid_cells(*grid).contains_key((row as int, col as int)),
        },
{
    grid.get((row, col))
}

/// Reads a cell out, variant by variant: what `cell_view` names. It calls
/// nothing but `to_bits` on a float and `clone` on a string.
#[verifier::external_body]
pub(crate) fn cell_of(cell: &DataType) -> (value: Cell)
    ensures
        value == cell_view(*cell),
{
    match cell {
        DataType::Int(v) => Cell::Int(*v),
        DataType::Float(v) => Cell::Float(v.to_bits()),
        DataType::String(s) => Cell::Text(s.clone()),
        DataType::Bool(b) => Cell::Bool(*b),
        DataType::DateTime(v) => Cell::DateTime(v.to_bits()),
        DataType::Error(_) => Cell::Error,
        DataType::Empty => Cell::Empty,
    }
}

/// `DataType::get_bool`: the value of a boolean cell, nothing for any other.
#[verifier::external_body]
pub(crate) fn get_bool(cell: &DataType) -> (value: Option<bool>)
    ensures
        value == (match cell_view(*cell) {
            Cell::Bool(b) => Some(b),
            _ => None,
        }),
{
    cell.get_bool()
}

/// `DataType::get_int`: the value of an integer cell, nothing for any other.
#[verifier::external_body]
pub(crate) fn get_int(cell: &DataType) -> (value: Option<i64>)
    ensures
        value == (match cell_view(*cell) {
            Cell::Int(v) => Some(v),
            _ => None,
        }),
{
    cell.get_int()
}

/// `DataType::get_float`: the value of a float cell, handed on by its bits,
/// nothing for any other.
#[verifier::external_body]
pub(crate) fn get_float(cell: &DataType) -> (bits: Option<u64>)
    ensures
        bits == (match cell_view(*cell) {
            Cell::Float(b) => Some(b),
            _ => None,
        }),
{
    cell.get_float().map(|v| v.to_bits())
}

/// `DataType::get_string`: the value of a string cell, nothing for any other.
#[verifier::external_body]
pub(crate) fn get_string(cell: &DataType) -> (value: Option<&str>)
    ensures
        match value {
            Some(s) => cell_view(*cell) matches Cell::Text(t) && t@ == s@,
            None => !(cell_view(*cell) is Text),
        },
{
    cell.get_string()
}

/// `DataType::as_datetime`: the date and time that a serial day number
/// stands for. The call panics where the seconds of an integer do not fit
/// 64 bits, and where the date of a float is beyond what chrono holds:
/// `is_serial` leaves out both and nothing else.
/// - An integer has a date where chrono holds its day, and then it is
///   midnight, as many days from the Unix epoch as the serial is from 25569.
/// - A float always has one: that of its milliseconds, cut off, from
///   30 December 1899. The milliseconds of a NaN are 0.
#[verifier::external_body]
pub(crate) fn as_datetime(cell: &DataType) -> (datetime: Option<NaiveDateTime>)
    requires
        cell_view(*cell).is_serial(),
    ensures
        datetime == excel_datetime(cell_view(*cell)),
        datetime is Some <==> cell_view(*cell).has_date(),
        cell_view(*cell) matches Cell::Int(days) ==> (datetime is Some ==> epoch_millis(
            datetime->0,
        ) == (days - EPOCH_SERIAL) * DAY_MILLIS),
        cell_view(*cell) matches Cell::Float(bits) ==> (magnitude(bits) > INFINITY_BITS
            ==> epoch_millis(datetime->0) == -EPOCH_SERIAL * DAY_MILLIS),
        cell_view(*cell) matches Cell::DateTime(bits) ==> (magnitude(bits) > INFINITY_BITS
            ==> epoch_millis(datetime->0) == -EPOCH_SERIAL * DAY_MILLIS),
{
    cell.as_datetime()
}

/// `NaiveDateTime::timestamp_millis`: milliseconds from the Unix epoch to a
/// date and time.
#[verifier::external_body]
#[allow(deprecated)]
pub(crate) fn timestamp_millis(datetime: &NaiveDateTime) -> (millis: i64)
    ensures
        millis == epoch_millis(*datetime),
{
    datetime.timestamp_millis()
}

} // verus!

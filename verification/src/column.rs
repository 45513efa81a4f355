//! The projection of one column of a range into a typed array.

use crate::cell::{magnitude, Cell, ColumnType, Value, DAY_MILLIS, EPOCH_SERIAL, INFINITY_BITS};
use crate::grid::{cell_at, lookup};
use crate::trusted::arrays::{
    array_kind, array_values, boolean_array, float64_array, int64_array, lift_bool, lift_float,
    lift_int, lift_millis, lift_text, null_array, string_array, timestamp_array, Column,
};
use crate::trusted::cells::{
    as_datetime, cell_of, cell_view, epoch_millis, excel_datetime, get_bool, get_float, get_int,
    get_string, grid_height, grid_width, range_height, range_width, timestamp_millis,
};
use calamine::{DataType, Range};
use vstd::prelude::*;
use vstd::utf8::encode_utf8;

verus! {

/// Most bytes of text that one string array addresses with its 32-bit
/// offsets.
pub const TEXT_LIMIT: usize = 0x7FFF_FFFF;

/// Milliseconds from the Unix epoch to the date that a serial day number
/// stands for: for an integer, the days from the serial of the epoch, in
/// milliseconds; for a NaN, those of serial 0; for any other float, the
/// milliseconds of the date that calamine makes of it.
pub open spec fn serial_millis(cell: Cell) -> i64 {
    match cell {
        Cell::Int(days) => ((days - EPOCH_SERIAL) * DAY_MILLIS) as i64,
        Cell::Float(bits) => float_millis(cell, bits),
        Cell::DateTime(bits) => float_millis(cell, bits),
        _ => 0,
    }
}

/// The milliseconds for a cell that holds a float with these bits.
pub open spec fn float_millis(cell: Cell, bits: u64) -> i64 {
    if magnitude(bits) > INFINITY_BITS {
        (-EPOCH_SERIAL * DAY_MILLIS) as i64
    } else {
        epoch_millis(excel_datetime(cell)->0)
    }
}

/// The value that a column of a declared type takes from one cell, or from
/// the lack of one: the cell's contents where they are of that type, nothing
/// else. A date column takes the date of a serial day number that has one.
pub open spec fn extract(kind: ColumnType, cell: Option<Cell>) -> Option<Value> {
    match cell {
        None => None,
        Some(c) => match kind {
            ColumnType::Boolean => match c {
                Cell::Bool(b) => Some(Value::Bool(b)),
                _ => None,
            },
            ColumnType::Integer => match c {
                Cell::Int(v) => Some(Value::Int(v)),
                _ => None,
            },
            ColumnType::Float => match c {
                Cell::Float(bits) => Some(Value::Float(bits)),
                _ => None,
            },
            ColumnType::Text => match c {
                Cell::Text(s) => Some(Value::Text(s@)),
                _ => None,
            },
            ColumnType::DatetimeMillis => if c.has_date() {
                Some(Value::Millis(serial_millis(c)))
            } else {
                None
            },
            ColumnType::Null => None,
        },
    }
}

/// Number of rows from `offset` up to `height`: none where the offset lies
/// beyond the height.
pub open spec fn row_count(offset: int, height: int) -> nat {
    if offset <= height {
        (height - offset) as nat
    } else {
        0
    }
}

/// The values of column `col` of a range, read as `kind`, on the rows from
/// `offset` up to `height`, in row order.
pub open spec fn project(
    grid: Range<DataType>,
    kind: ColumnType,
    col: int,
    offset: int,
    height: int,
) -> Seq<Option<Value>> {
    Seq::new(row_count(offset, height), |k: int| extract(kind, cell_at(grid, offset + k, col)))
}

/// Whether an array is the projection of column `col` of a range as `kind`
/// on the rows from `offset` up to `height`: an array of that type whose
/// slots are the values of the column.
pub open spec fn projects(
    column: Column,
    grid: Range<DataType>,
    kind: ColumnType,
    col: int,
    offset: int,
    height: int,
) -> bool {
    &&& array_kind(column) == kind
    &&& array_values(column) == project(grid, kind, col, offset, height)
}

/// Bytes of UTF-8 that a value adds to a string array.
pub open spec fn value_bytes(value: Option<Value>) -> nat {
    match value {
        Some(Value::Text(s)) => encode_utf8(s).len(),
        _ => 0,
    }
}

/// Bytes of UTF-8 in all the values of a column.
pub open spec fn text_size(values: Seq<Option<Value>>) -> nat
    decreases values.len(),
{
    if values.len() == 0 {
        0
    } else {
        text_size(values.drop_last()) + value_bytes(values.last())
    }
}

/// One more value adds its bytes to the text of a column.
pub proof fn lemma_text_size_push(values: Seq<Option<Value>>, value: Option<Value>)
    ensures
        text_size(values.push(value)) == text_size(values) + value_bytes(value),
{
    assert(values.push(value).drop_last() =~= values);
}

/// The first values of a column hold no more text than all of them.
pub proof fn lemma_text_size_grows(values: Seq<Option<Value>>, n: int)
    requires
        0 <= n <= values.len(),
    ensures
        text_size(values.take(n)) <= text_size(values),
    decreases values.len() - n,
{
    if n < values.len() {
        lemma_text_size_grows(values, n + 1);
        assert(values.take(n + 1) =~= values.take(n).push(values[n]));
        lemma_text_size_push(values.take(n), values[n]);
    } else {
        assert(values.take(n) =~= values);
    }
}

/// The boolean column of a range: on each row from `offset` up to `height`
/// the value of a boolean cell, null for any other cell and for none.
pub fn create_boolean_array(
    data: &Range<DataType>,
    col: usize,
    offset: usize,
    height: usize,
) -> (column: Column)
    ensures
        projects(column, *data, ColumnType::Boolean, col as int, offset as int, height as int),
{
    let rows = range_height(data);
    let cols = range_width(data);
    let mut values: Vec<Option<bool>> = Vec::new();
    let mut row: usize = offset;
    while row < height
        invariant
            rows == grid_height(*data),
            cols == grid_width(*data),
            offset <= row,
            row <= height || row == offset,
            values@.len() == row - offset,
            forall|k: int|
                0 <= k < values@.len() ==> lift_bool(#[trigger] values@[k]) == extract(
                    ColumnType::Boolean,
                    cell_at(*data, offset + k, col as int),
                ),
        decreases height - row,
    {
        let value = match lookup(data, rows, cols, row, col) {
            Some(cell) => get_bool(cell),
            None => None,
        };
        values.push(value);
        row = row + 1;
    }
    assert(values@.map_values(|v: Option<bool>| lift_bool(v)) =~= project(
        *data,
        ColumnType::Boolean,
        col as int,
        offset as int,
        height as int,
    ));
    boolean_array(values)
}

/// The integer column of a range: on each row from `offset` up to `height`
/// the value of an integer cell, null for any other cell and for none.
pub fn create_int_array(
    data: &Range<DataType>,
    col: usize,
    offset: usize,
    height: usize,
) -> (column: Column)
    ensures
        projects(column, *data, ColumnType::Integer, col as int, offset as int, height as int),
{
    let rows = range_height(data);
    let cols = range_width(data);
    let mut values: Vec<Option<i64>> = Vec::new();
    let mut row: usize = offset;
    while row < height
        invariant
            rows == grid_height(*data),
            cols == grid_width(*data),
            offset <= row,
            row <= height || row == offset,
            values@.len() == row - offset,
            forall|k: int|
                0 <= k < values@.len() ==> lift_int(#[trigger] values@[k]) == extract(
                    ColumnType::Integer,
                    cell_at(*data, offset + k, col as int),
                ),
        decreases height - row,
    {
        let value = match lookup(data, rows, cols, row, col) {
            Some(cell) => get_int(cell),
            None => None,
        };
        values.push(value);
        row = row + 1;
    }
    assert(values@.map_values(|v: Option<i64>| lift_int(v)) =~= project(
        *data,
        ColumnType::Integer,
        col as int,
        offset as int,
        height as int,
    ));
    int64_array(values)
}

/// The float column of a range: on each row from `offset` up to `height`
/// the value of a float cell, null for any other cell and for none.
pub fn create_float_array(
    data: &Range<DataType>,
    col: usize,
    offset: usize,
    height: usize,
) -> (column: Column)
    ensures
        projects(column, *data, ColumnType::Float, col as int, offset as int, height as int),
{
    let rows = range_height(data);
    let cols = range_width(data);
    let mut values: Vec<Option<u64>> = Vec::new();
    let mut row: usize = offset;
    while row < height
        invariant
            rows == grid_height(*data),
            cols == grid_width(*data),
            offset <= row,
            row <= height || row == offset,
            values@.len() == row - offset,
            forall|k: int|
                0 <= k < values@.len() ==> lift_float(#[trigger] values@[k]) == extract(
                    ColumnType::Float,
                    cell_at(*data, offset + k, col as int),
                ),
        decreases height - row,
    {
        let value = match lookup(data, rows, cols, row, col) {
            Some(cell) => get_float(cell),
            None => None,
        };
        values.push(value);
        row = row + 1;
    }
    assert(values@.map_values(|v: Option<u64>| lift_float(v)) =~= project(
        *data,
        ColumnType::Float,
        col as int,
        offset as int,
        height as int,
    ));
    float64_array(values)
}

/// The text column of a range: on each row from `offset` up to `height` the
/// value of a string cell, null for any other cell and for none. There is no
/// column where the strings hold more than `TEXT_LIMIT` bytes together.
pub fn create_string_array(
    data: &Range<DataType>,
    col: usize,
    offset: usize,
    height: usize,
) -> (column: Option<Column>)
    ensures
        match column {
            Some(c) => {
                &&& projects(c, *data, ColumnType::Text, col as int, offset as int, height as int)
                &&& text_size(array_values(c)) <= TEXT_LIMIT
            },
            None => text_size(
                project(*data, ColumnType::Text, col as int, offset as int, height as int),
            ) > TEXT_LIMIT,
        },
{
    let rows = range_height(data);
    let cols = range_width(data);
    let mut values: Vec<Option<&str>> = Vec::new();
    let mut size: usize = 0;
    let mut row: usize = offset;
    let ghost whole = project(*data, ColumnType::Text, col as int, offset as int, height as int);
    while row < height
        invariant
            rows == grid_height(*data),
            cols == grid_width(*data),
            offset <= row,
            row <= height || row == offset,
            values@.len() == row - offset,
            whole == project(*data, ColumnType::Text, col as int, offset as int, height as int),
            values@.map_values(|v: Option<&str>| lift_text(v)) == whole.take(row - offset),
            size == text_size(whole.take(row - offset)),
            size <= TEXT_LIMIT,
        decreases height - row,
    {
        let ghost done = whole.take(row - offset);
        let value = match lookup(data, rows, cols, row, col) {
            Some(cell) => get_string(cell),
            None => None,
        };
        let bytes: usize = match value {
            Some(s) => s.as_bytes().len(),
            None => 0,
        };
        proof {
            assert(lift_text(value) == whole[row - offset]);
            assert(whole.take(row - offset + 1) =~= done.push(lift_text(value)));
            lemma_text_size_push(done, lift_text(value));
            lemma_text_size_grows(whole, row - offset + 1);
        }
        if bytes > TEXT_LIMIT - size {
            return None;
        }
        size = size + bytes;
        proof {
            assert(values@.push(value).map_values(|v: Option<&str>| lift_text(v)) =~= done.push(
                lift_text(value),
            ));
        }
        values.push(value);
        row = row + 1;
    }
    proof {
        assert(whole.take(row - offset) =~= whole);
    }
    Some(string_array(values))
}

/// Milliseconds from the Unix epoch to the date that a cell stands for:
/// none for a cell that holds no serial day number with a date.
fn date_millis(cell: &DataType) -> (millis: Option<i64>)
    ensures
        lift_millis(millis) == extract(ColumnType::DatetimeMillis, Some(cell_view(*cell))),
{
    if cell_of(cell).has_serial() {
        match as_datetime(cell) {
            Some(datetime) => Some(timestamp_millis(&datetime)),
            None => None,
        }
    } else {
        None
    }
}

/// The date column of a range: on each row from `offset` up to `height` the
/// milliseconds from the Unix epoch to the date that the cell's serial day
/// number stands for, null for a cell without one and for no cell.
pub fn create_date_array(
    data: &Range<DataType>,
    col: usize,
    offset: usize,
    height: usize,
) -> (column: Column)
    ensures
        projects(
            column,
            *data,
            ColumnType::DatetimeMillis,
            col as int,
            offset as int,
            height as int,
        ),
{
    let rows = range_height(data);
    let cols = range_width(data);
    let mut values: Vec<Option<i64>> = Vec::new();
    let mut row: usize = offset;
    while row < height
        invariant
            rows == grid_height(*data),
            cols == grid_width(*data),
            offset <= row,
            row <= height || row == offset,
            values@.len() == row - offset,
            forall|k: int|
                0 <= k < values@.len() ==> lift_millis(#[trigger] values@[k]) == extract(
                    ColumnType::DatetimeMillis,
                    cell_at(*data, offset + k, col as int),
                ),
        decreases height - row,
    {
        let value = match lookup(data, rows, cols, row, col) {
            Some(cell) => date_millis(cell),
            None => None,
        };
        values.push(value);
        row = row + 1;
    }
    assert(values@.map_values(|v: Option<i64>| lift_millis(v)) =~= project(
        *data,
        ColumnType::DatetimeMillis,
        col as int,
        offset as int,
        height as int,
    ));
    timestamp_array(values)
}

/// The null column: as many null slots as there are rows from `offset` up to
/// `height`, whatever a range holds.
pub fn create_null_array(offset: usize, height: usize) -> (column: Column)
    ensures
        array_kind(column) == ColumnType::Null,
        array_values(column) == Seq::new(
            row_count(offset as int, height as int),
            |k: int| None::<Value>,
        ),
{
    let len = if offset <= height {
        height - offset
    } else {
        0
    };
    null_array(len)
}

/// The column of a range for a declared type: the projection of column `col`
/// on the rows from `offset` up to `height`, as an array of that type. There
/// is no column where the type is text and the strings hold more than
/// `TEXT_LIMIT` bytes together.
pub fn create_array(
    data: &Range<DataType>,
    kind: ColumnType,
    col: usize,
    offset: usize,
    height: usize,
) -> (column: Option<Column>)
    ensures
        match column {
            Some(c) => {
                &&& projects(c, *data, kind, col as int, offset as int, height as int)
                &&& kind == ColumnType::Text ==> text_size(array_values(c)) <= TEXT_LIMIT
            },
            None => {
                &&& kind == ColumnType::Text
                &&& text_size(project(*data, kind, col as int, offset as int, height as int))
                    > TEXT_LIMIT
            },
        },
{
    match kind {
        ColumnType::Boolean => Some(create_boolean_array(data, col, offset, height)),
        ColumnType::Integer => Some(create_int_array(data, col, offset, height)),
        ColumnType::Float => Some(create_float_array(data, col, offset, height)),
        ColumnType::Text => create_string_array(data, col, offset, height),
        ColumnType::DatetimeMillis => Some(create_date_array(data, col, offset, height)),
        ColumnType::Null => {
            let column = create_null_array(offset, height);
            assert(array_values(column) =~= project(
                *data,
                kind,
                col as int,
                offset as int,
                height as int,
            ));
            Some(column)
        },
    }
}

} // verus!

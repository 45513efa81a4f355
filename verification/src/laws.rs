//! What holds of every header, every sheet and every conversion.

use crate::batch::ConversionCause::TextTooLarge;
use crate::batch::ConversionError;
use crate::cell::{Cell, ColumnType, Value, DAY_MILLIS, END_SERIAL, EPOCH_SERIAL, FIRST_SERIAL};
use crate::column::extract;
use crate::grid::cell_at;
use crate::header::Header;
use crate::sheet::{data_rows, oversized, ExcelSheet};
use crate::trusted::arrays::{batch_columns, Batch};
use crate::trusted::cells::grid_height;
use calamine::{DataType, Range};
use vstd::prelude::*;

verus! {

/// The offset of a header on a row is one more than the row; without a
/// header, and with names that the caller supplied, it is zero.
pub proof fn lemma_header_offset(header: Header)
    ensures
        header matches Header::At(row) ==> header.offset() == row + 1,
        header is Absent ==> header.offset() == 0,
        header is With ==> header.offset() == 0,
{
}

/// The data rows are the rows of the range less the header offset, as long
/// as the range has that many rows, and none otherwise.
pub proof fn lemma_data_rows(grid: Range<DataType>, header: Header)
    ensures
        header.offset() <= grid_height(grid) ==> data_rows(grid, header) == grid_height(grid)
            - header.offset(),
        header.offset() > grid_height(grid) ==> data_rows(grid, header) == 0,
{
}

/// A header on the first row of a range of one row leaves no data row.
pub proof fn lemma_header_only(grid: Range<DataType>)
    requires
        grid_height(grid) == 1,
    ensures
        Header::At(0).offset() == 1,
        data_rows(grid, Header::At(0)) == 0,
{
}

/// The batch of a sheet has one column for each column of the schema, in
/// the order of the schema, under its name and of its declared type, and
/// each column has one slot for each data row.
pub proof fn lemma_batch_shape(sheet: ExcelSheet, batch: Batch)
    requires
        sheet.converted(Ok(batch)),
    ensures
        batch_columns(batch).len() == sheet.schema_view().len(),
        forall|col: int|
            0 <= col < sheet.schema_view().len() ==> {
                &&& (#[trigger] batch_columns(batch)[col]).name == sheet.schema_view()[col].name@
                &&& batch_columns(batch)[col].kind == sheet.schema_view()[col].kind
                &&& batch_columns(batch)[col].values.len() == sheet.rows()
            },
{
}

/// Each slot of a column of the batch holds what a column of its type takes
/// from the cell on its row, counted from the header offset, in the range's
/// column of the same index.
pub proof fn lemma_batch_slot(sheet: ExcelSheet, batch: Batch, col: int, row: int)
    requires
        sheet.converted(Ok(batch)),
        0 <= col < sheet.schema_view().len(),
        0 <= row < sheet.rows(),
    ensures
        batch_columns(batch)[col].values[row] == extract(
            sheet.schema_view()[col].kind,
            cell_at(sheet.grid(), sheet.header_view().offset() + row, col),
        ),
{
}

/// A slot of an integer column holds the value of an integer cell, and is
/// null for any other cell and where the range has no cell.
pub proof fn lemma_integer_slot(sheet: ExcelSheet, batch: Batch, col: int, row: int)
    requires
        sheet.converted(Ok(batch)),
        0 <= col < sheet.schema_view().len(),
        sheet.schema_view()[col].kind == ColumnType::Integer,
        0 <= row < sheet.rows(),
    ensures
        batch_columns(batch)[col].values[row] == (match cell_at(
            sheet.grid(),
            sheet.header_view().offset() + row,
            col,
        ) {
            Some(Cell::Int(v)) => Some(Value::Int(v)),
            _ => None,
        }),
{
    lemma_batch_slot(sheet, batch, col, row);
}

/// A null column has one slot for each data row, and each is null, whatever
/// the range holds.
pub proof fn lemma_null_column(sheet: ExcelSheet, batch: Batch, col: int)
    requires
        sheet.converted(Ok(batch)),
        0 <= col < sheet.schema_view().len(),
        sheet.schema_view()[col].kind == ColumnType::Null,
    ensures
        batch_columns(batch)[col].kind == ColumnType::Null,
        batch_columns(batch)[col].values.len() == sheet.rows(),
        forall|row: int|
            0 <= row < sheet.rows() ==> (#[trigger] batch_columns(batch)[col].values[row]) is None,
{
}

/// A date column takes a value from the cells that hold a serial day number
/// with a date, and from no other. From an integer serial it takes the
/// milliseconds of the days between the serial and that of the Unix epoch.
pub proof fn lemma_date_value(cell: Option<Cell>)
    ensures
        extract(ColumnType::DatetimeMillis, cell) is Some <==> (cell matches Some(c)
            && c.has_date()),
        cell matches Some(Cell::Int(days)) ==> (FIRST_SERIAL <= days < END_SERIAL ==> extract(
            ColumnType::DatetimeMillis,
            cell,
        ) == Some(Value::Millis(((days - EPOCH_SERIAL) * DAY_MILLIS) as i64))),
        cell matches Some(Cell::Int(days)) ==> (FIRST_SERIAL <= days < END_SERIAL ==> i64::MIN
            <= (days - EPOCH_SERIAL) * DAY_MILLIS <= i64::MAX),
{
}

/// Every serial day number with a date can be asked for it.
pub proof fn lemma_dated_is_serial(cell: Cell)
    requires
        cell.has_date(),
    ensures
        cell.is_serial(),
{
}

/// The conversion of a sheet is decided by its schema, range and header:
/// two results agree on whether there is a batch, on its columns, and on the
/// cause of an error.
pub proof fn lemma_conversion_determined(
    sheet: ExcelSheet,
    one: Result<Batch, ConversionError>,
    other: Result<Batch, ConversionError>,
)
    requires
        sheet.converted(one),
        sheet.converted(other),
    ensures
        one is Ok <==> other is Ok,
        one matches Ok(a) ==> other matches Ok(b) && batch_columns(a) == batch_columns(b),
        one matches Err(a) ==> other matches Err(b) && a.sheet@ == b.sheet@ && (a.cause
            is Assembly <==> b.cause is Assembly),
        one matches Err(a) ==> other matches Err(b) && (a.cause matches TextTooLarge(i)
            ==> b.cause matches TextTooLarge(j) && i == j),
{
    if let Err(a) = one {
        if let Err(b) = other {
            if let TextTooLarge(i) = a.cause {
                if let TextTooLarge(j) = b.cause {
                    let schema = sheet.schema_view();
                    if i < j {
                        assert(!oversized(schema, sheet.grid(), sheet.header_view(), i as int));
                    }
                    if j < i {
                        assert(!oversized(schema, sheet.grid(), sheet.header_view(), j as int));
                    }
                }
            }
        }
    }
}

/// A second call of `width` hands out what the first did and changes
/// nothing, whatever has become of the range in between.
pub proof fn lemma_width_idempotent(
    before: ExcelSheet,
    between: ExcelSheet,
    changed: ExcelSheet,
    after: ExcelSheet,
    first: usize,
    second: usize,
)
    requires
        ExcelSheet::width_served(&before, &between, first),
        changed.cached_width() == between.cached_width(),
        ExcelSheet::width_served(&changed, &after, second),
    ensures
        second == first,
        after.cached_width() == between.cached_width(),
{
}

/// A second call of `height` hands out what the first did and changes
/// nothing, whatever has become of the range in between.
pub proof fn lemma_height_idempotent(
    before: ExcelSheet,
    between: ExcelSheet,
    changed: ExcelSheet,
    after: ExcelSheet,
    first: usize,
    second: usize,
)
    requires
        ExcelSheet::height_served(&before, &between, first),
        changed.cached_height() == between.cached_height(),
        ExcelSheet::height_served(&changed, &after, second),
    ensures
        second == first,
        after.cached_height() == between.cached_height(),
{
}

/// The width and the height can be asked for in either order: each call
/// leaves what the other keeps as it was.
pub proof fn lemma_width_height_independent(
    before: ExcelSheet,
    between: ExcelSheet,
    after: ExcelSheet,
    width: usize,
    height: usize,
)
    requires
        ExcelSheet::width_served(&before, &between, width),
        ExcelSheet::height_served(&between, &after, height),
    ensures
        after.cached_width() == Some(width),
        after.cached_height() == Some(height),
        before.cached_height() matches Some(kept) ==> height == kept,
        before.cached_height() is None ==> height == before.rows(),
{
}

} // verus!

//! The sheet: a named range of cells with its schema and header, and its
//! conversion into a record batch.

use crate::batch::{column_model, ColumnModel, ConversionCause, ConversionError};
use crate::cell::{ColumnType, Value};
use crate::column::{create_array, project, row_count, text_size, TEXT_LIMIT};
use crate::header::Header;
use crate::trusted::arrays::{array_values, assemble, batch_columns, Batch, Column};
use crate::trusted::cells::{grid_height, grid_width, range_height, range_width};
use calamine::{DataType, Range};
use vstd::prelude::*;
use vstd::string::StringExecFns;

verus! {

/// One column of a schema: its name and its declared type.
#[derive(Debug, PartialEq, Eq)]
pub struct ColumnSpec {
    pub name: String,
    pub kind: ColumnType,
}

impl ColumnSpec {
    pub fn new(name: String, kind: ColumnType) -> (spec: ColumnSpec)
        ensures
            spec.name == name,
            spec.kind == kind,
    {
        ColumnSpec { name, kind }
    }
}

/// Number of data rows of a range under a header: the rows below the header
/// offset, none where the offset lies beyond the last row.
pub open spec fn data_rows(grid: Range<DataType>, header: Header) -> nat {
    row_count(header.offset() as int, grid_height(grid) as int)
}

/// The values of column `col` of a range, read as `kind`, on its data rows.
pub open spec fn column_values(
    grid: Range<DataType>,
    header: Header,
    kind: ColumnType,
    col: int,
) -> Seq<Option<Value>> {
    project(grid, kind, col, header.offset() as int, grid_height(grid) as int)
}

/// The column of a batch that column `col` of a schema stands for: under
/// its name and of its type, the values of the range's column `col`.
pub open spec fn expected_column(
    schema: Seq<ColumnSpec>,
    grid: Range<DataType>,
    header: Header,
    col: int,
) -> ColumnModel {
    ColumnModel {
        name: schema[col].name@,
        kind: schema[col].kind,
        values: column_values(grid, header, schema[col].kind, col),
    }
}

/// The columns of the batch of a sheet: one for each column of the schema,
/// in its order.
pub open spec fn expected_columns(
    schema: Seq<ColumnSpec>,
    grid: Range<DataType>,
    header: Header,
) -> Seq<ColumnModel> {
    Seq::new(schema.len(), |col: int| expected_column(schema, grid, header, col))
}

/// Whether column `col` of a schema is a text column whose strings hold more
/// bytes than one array takes.
pub open spec fn oversized(
    schema: Seq<ColumnSpec>,
    grid: Range<DataType>,
    header: Header,
    col: int,
) -> bool {
    &&& schema[col].kind == ColumnType::Text
    &&& text_size(column_values(grid, header, ColumnType::Text, col)) > TEXT_LIMIT
}

/// What the conversion of a sheet returns. The batch of the expected
/// columns, where the schema has a column and no column is oversized. Else
/// an error with the sheet's name: the index of the first oversized column,
/// or the refusal of the assembly where the schema is empty.
pub open spec fn converts(
    name: Seq<char>,
    schema: Seq<ColumnSpec>,
    grid: Range<DataType>,
    header: Header,
    result: Result<Batch, ConversionError>,
) -> bool {
    match result {
        Ok(batch) => {
            &&& schema.len() > 0
            &&& forall|col: int| 0 <= col < schema.len() ==> !oversized(schema, grid, header, col)
            &&& batch_columns(batch) == expected_columns(schema, grid, header)
        },
        Err(error) => {
            &&& error.sheet@ == name
            &&& match error.cause {
                ConversionCause::Assembly(_) => schema.len() == 0,
                ConversionCause::TextTooLarge(col) => {
                    &&& col < schema.len()
                    &&& oversized(schema, grid, header, col as int)
                    &&& forall|before: int|
                        0 <= before < col ==> !oversized(schema, grid, header, before)
                },
            }
        },
    }
}

/// A sheet: a range of cells with a name, a schema and a header, and the
/// width and height of its data, each kept once it has been asked for.
pub struct ExcelSheet {
    name: String,
    schema: Vec<ColumnSpec>,
    header: Header,
    data: Range<DataType>,
    height: Option<usize>,
    width: Option<usize>,
}

impl ExcelSheet {
    /// The name of the sheet.
    pub closed spec fn name_view(&self) -> Seq<char> {
        self.name@
    }

    /// The declared columns, in order.
    pub closed spec fn schema_view(&self) -> Seq<ColumnSpec> {
        self.schema@
    }

    /// The header configuration.
    pub closed spec fn header_view(&self) -> Header {
        self.header
    }

    /// The range of cells.
    pub closed spec fn grid(&self) -> Range<DataType> {
        self.data
    }

    /// The width that the sheet keeps, if it was asked for.
    pub closed spec fn cached_width(&self) -> Option<usize> {
        self.width
    }

    /// The height that the sheet keeps, if it was asked for.
    pub closed spec fn cached_height(&self) -> Option<usize> {
        self.height
    }

    /// A width or height that is kept is that of the data.
    #[verifier::type_invariant]
    spec fn well_formed(&self) -> bool {
        &&& self.width matches Some(w) ==> w == grid_width(self.data)
        &&& self.height matches Some(h) ==> h == data_rows(self.data, self.header)
    }

    /// Number of data rows of the sheet.
    pub open spec fn rows(&self) -> nat {
        data_rows(self.grid(), self.header_view())
    }

    /// Whether two sheets have the same name, schema, header and cells.
    pub open spec fn same_contents(&self, other: &ExcelSheet) -> bool {
        &&& self.name_view() == other.name_view()
        &&& self.schema_view() == other.schema_view()
        &&& self.header_view() == other.header_view()
        &&& self.grid() == other.grid()
    }

    /// What a call of `width` does: it hands out the width that is kept, or
    /// else that of the range, and keeps what it handed out.
    pub open spec fn width_served(before: &ExcelSheet, after: &ExcelSheet, width: usize) -> bool {
        &&& before.cached_width() matches Some(kept) ==> width == kept
        &&& before.cached_width() is None ==> width == grid_width(before.grid())
        &&& after.cached_width() == Some(width)
        &&& after.cached_height() == before.cached_height()
        &&& after.same_contents(before)
    }

    /// What a call of `height` does: it hands out the height that is kept, or
    /// else the number of data rows, and keeps what it handed out.
    pub open spec fn height_served(before: &ExcelSheet, after: &ExcelSheet, height: usize) -> bool {
        &&& before.cached_height() matches Some(kept) ==> height == kept
        &&& before.cached_height() is None ==> height == before.rows()
        &&& after.cached_height() == Some(height)
        &&& after.cached_width() == before.cached_width()
        &&& after.same_contents(before)
    }

    /// Whether `result` is what the conversion of this sheet returns.
    pub open spec fn converted(&self, result: Result<Batch, ConversionError>) -> bool {
        converts(self.name_view(), self.schema_view(), self.grid(), self.header_view(), result)
    }

    /// A sheet with nothing kept yet.
    pub fn new(
        name: String,
        schema: Vec<ColumnSpec>,
        data: Range<DataType>,
        header: Header,
    ) -> (sheet: ExcelSheet)
        ensures
            sheet.name_view() == name@,
            sheet.schema_view() == schema@,
            sheet.grid() == data,
            sheet.header_view() == header,
            sheet.cached_width() is None,
            sheet.cached_height() is None,
    {
        ExcelSheet { name, schema, header, data, height: None, width: None }
    }

    pub fn name(&self) -> (name: &String)
        ensures
            name@ == self.name_view(),
    {
        &self.name
    }

    pub fn schema(&self) -> (schema: &Vec<ColumnSpec>)
        ensures
            schema@ == self.schema_view(),
    {
        &self.schema
    }

    pub fn data(&self) -> (data: &Range<DataType>)
        ensures
            *data == self.grid(),
    {
        &self.data
    }

    pub fn header(&self) -> (header: &Header)
        ensures
            *header == self.header_view(),
    {
        &self.header
    }

    /// Number of columns of the range.
    pub fn width(&mut self) -> (width: usize)
        ensures
            ExcelSheet::width_served(old(self), final(self), width),
            width == grid_width(old(self).grid()),
    {
        proof {
            use_type_invariant(&*self);
        }
        match self.width {
            Some(width) => width,
            None => {
                let width = range_width(&self.data);
                self.width = Some(width);
                width
            },
        }
    }

    /// Number of data rows of the range: its rows below the header offset.
    /// The offset fits the machine: the header is not on row `usize::MAX`.
    pub fn height(&mut self) -> (height: usize)
        requires
            old(self).header_view().offset_fits(),
        ensures
            ExcelSheet::height_served(old(self), final(self), height),
            height == old(self).rows(),
    {
        proof {
            use_type_invariant(&*self);
        }
        match self.height {
            Some(height) => height,
            None => {
                let rows = range_height(&self.data);
                let offset = self.header.header_offset();
                let height = if offset <= rows {
                    rows - offset
                } else {
                    0
                };
                self.height = Some(height);
                height
            },
        }
    }

    /// Number of leading rows of the range that are not data. The offset
    /// fits the machine: the header is not on row `usize::MAX`.
    pub fn offset(&self) -> (offset: usize)
        requires
            self.header_view().offset_fits(),
        ensures
            offset == self.header_view().offset(),
    {
        self.header.header_offset()
    }

    /// Converts the sheet: each column of the schema becomes the array of its
    /// declared type over the data rows of the range's column with the same
    /// index, and the arrays are assembled under the schema's names. The
    /// header offset fits the machine.
    pub fn to_batch(&self) -> (result: Result<Batch, ConversionError>)
        requires
            self.header_view().offset_fits(),
        ensures
            self.converted(result),
    {
        let offset = self.offset();
        let height = range_height(&self.data);
        let mut columns: Vec<(String, Column)> = Vec::new();
        let mut col: usize = 0;
        while col < self.schema.len()
            invariant
                col <= self.schema@.len(),
                columns@.len() == col,
                offset == self.header.offset(),
                height == grid_height(self.data),
                forall|j: int|
                    0 <= j < col ==> column_model((#[trigger] columns@[j]).0, columns@[j].1)
                        == expected_column(self.schema@, self.data, self.header, j),
                forall|j: int|
                    0 <= j < col ==> !oversized(self.schema@, self.data, self.header, j),
            decreases self.schema@.len() - col,
        {
            let field = &self.schema[col];
            let column = match create_array(&self.data, field.kind, col, offset, height) {
                Some(column) => column,
                None => {
                    return Err(
                        ConversionError {
                            sheet: self.name.clone(),
                            cause: ConversionCause::TextTooLarge(col),
                        },
                    );
                },
            };
            columns.push((field.name.clone(), column));
            col = col + 1;
        }
        proof {
            assert(columns@.map_values(|c: (String, Column)| column_model(c.0, c.1))
                =~= expected_columns(self.schema@, self.data, self.header));
            assert forall|i: int| 0 <= i < columns@.len() implies (#[trigger] array_values(
                columns@[i].1,
            )).len() == row_count(offset as int, height as int) by {
                assert(column_model(columns@[i].0, columns@[i].1) == expected_column(
                    self.schema@,
                    self.data,
                    self.header,
                    i,
                ));
            }
        }
        match assemble(columns) {
            Ok(batch) => Ok(batch),
            Err(error) => Err(
                ConversionError {
                    sheet: self.name.clone(),
                    cause: ConversionCause::Assembly(error),
                },
            ),
        }
    }

    /// The batch of the sheet, to be handed on. The header offset fits the
    /// machine.
    pub fn to_arrow(&self) -> (result: Result<Batch, ConversionError>)
        requires
            self.header_view().offset_fits(),
        ensures
            self.converted(result),
    {
        self.to_batch()
    }

    /// A label for the sheet: its type and its name.
    pub fn __repr__(&self) -> (label: String)
        ensures
            label@ == "ExcelSheet<"@ + self.name_view() + ">"@,
    {
        String::from_str("ExcelSheet<").concat(self.name.as_str()).concat(">")
    }
}

} // verus!

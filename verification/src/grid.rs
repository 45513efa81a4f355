//! The cell grid: a range of dynamically typed cells, read by position.

use crate::cell::Cell;
use crate::trusted::cells::{
    cell_of, cell_view, grid_cells, grid_height, grid_width, range_get, range_height, range_width,
};
use calamine::{DataType, Range};
use vstd::prelude::*;

verus! {

/// The cell of a range at a position, or nothing where the range has none:
/// outside its height and width, and where it holds no cell.
pub open spec fn cell_at(grid: Range<DataType>, row: int, col: int) -> Option<Cell> {
    if 0 <= row < grid_height(grid) && 0 <= col < grid_width(grid) && grid_cells(grid).contains_key(
        (row, col),
    ) {
        Some(cell_view(grid_cells(grid)[(row, col)]))
    } else {
        None
    }
}

/// The cell at a position, given the range's height and width.
pub(crate) fn lookup<'a>(
    grid: &'a Range<DataType>,
    rows: usize,
    cols: usize,
    row: usize,
    col: usize,
) -> (cell: Option<&'a DataType>)
    requires
        rows == grid_height(*grid),
        cols == grid_width(*grid),
    ensures
        match cell {
            Some(c) => cell_at(*grid, row as int, col as int) == Some(cell_view(*c)),
            None => cell_at(*grid, row as int, col as int) is None,
        },
{
    if row < rows && col < cols {
        range_get(grid, row, col)
    } else {
        None
    }
}

/// Reads the cell at a position.
pub fn read_cell(grid: &Range<DataType>, row: usize, col: usize) -> (cell: Option<Cell>)
    ensures
        cell == cell_at(*grid, row as int, col as int),
{
    match lookup(grid, range_height(grid), range_width(grid), row, col) {
        Some(c) => Some(cell_of(c)),
        None => None,
    }
}

} // verus!

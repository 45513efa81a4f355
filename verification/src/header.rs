//! The header model: which leading rows of a range are header, not data.

use vstd::prelude::*;

verus! {

/// How the header of a sheet is given.
#[derive(Debug, PartialEq, Eq)]
pub enum Header {
    /// The sheet has no header: every row is data.
    Absent,
    /// The header is the row with this index: data starts on the row after it.
    At(usize),
    /// The column names are supplied by the caller: every row is data.
    With(Vec<String>),
}

impl Header {
    /// Number of leading rows that are not data.
    pub open spec fn offset(self) -> nat {
        match self {
            Header::At(row) => (row + 1) as nat,
            Header::Absent => 0,
            Header::With(_) => 0,
        }
    }

    /// Whether the offset can be held in a `usize`. It fails for one value
    /// only: a header on row `usize::MAX`.
    pub open spec fn offset_fits(self) -> bool {
        self.offset() <= usize::MAX
    }

    /// The header that a pair of optional inputs asks for: a list of names
    /// wins over a header row, which wins over no header.
    pub fn new(header_row: Option<usize>, column_names: Option<Vec<String>>) -> (header: Header)
        ensures
            column_names matches Some(names) ==> header == Header::With(names),
            column_names is None ==> (header_row matches Some(row) ==> header == Header::At(row)),
            column_names is None && header_row is None ==> header == Header::Absent,
    {
        match column_names {
            Some(names) => Header::With(names),
            None => match header_row {
                Some(row) => Header::At(row),
                None => Header::Absent,
            },
        }
    }

    /// The offset, where it fits the machine.
    pub fn checked_offset(&self) -> (offset: Option<usize>)
        ensures
            match offset {
                Some(rows) => rows == self.offset(),
                None => !self.offset_fits(),
            },
    {
        match self {
            Header::At(row) => row.checked_add(1),
            Header::Absent => Some(0),
            Header::With(_) => Some(0),
        }
    }

    /// The offset. It fits the machine: the header is not on row
    /// `usize::MAX`.
    pub fn header_offset(&self) -> (offset: usize)
        requires
            self.offset_fits(),
        ensures
            offset == self.offset(),
    {
        match self {
            Header::At(row) => *row + 1,
            Header::Absent => 0,
            Header::With(_) => 0,
        }
    }
}

} // verus!

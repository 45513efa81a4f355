//! Typed columnar batches from spreadsheet cell ranges.
//!
//! A sheet owns a rectangular range of dynamically typed cells, a declared
//! schema and a header configuration. Converting it projects every declared
//! column of the range, below the header rows, into one typed array and
//! assembles the arrays into a record batch.
//!
//! The range is calamine's, the dates are chrono's and the batch is arrow's.
//! What is believed of the three crates stands in `trusted`; everything else
//! is proved.

pub mod batch;
pub mod cell;
pub mod column;
pub mod grid;
pub mod header;
pub mod laws;
pub mod sheet;
pub mod trusted;

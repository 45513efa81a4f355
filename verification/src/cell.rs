//! Cells, declared column types and the values a column can hold.

use vstd::prelude::*;

verus! {

/// One cell of a range, as the conversion reads it. Floating-point contents
/// are carried by their IEEE 754 bit pattern.
#[derive(Debug, PartialEq, Eq)]
pub enum Cell {
    /// A signed integer.
    Int(i64),
    /// A floating-point number, by its bits.
    Float(u64),
    /// A string.
    Text(String),
    /// A boolean.
    Bool(bool),
    /// A date or time as a serial day number, by its bits.
    DateTime(u64),
    /// An error marker.
    Error,
    /// An empty cell.
    Empty,
}

/// The declared type of a column.
#[derive(Debug, Clone, Copy, PartialEq, Eq)]
pub enum ColumnType {
    /// Booleans.
    Boolean,
    /// 64-bit signed integers.
    Integer,
    /// 64-bit floating-point numbers.
    Float,
    /// UTF-8 strings.
    Text,
    /// Milliseconds since the Unix epoch, as 64-bit signed integers.
    DatetimeMillis,
    /// A column of nulls only.
    Null,
}

/// One value of a typed array, in contracts.
pub enum Value {
    /// A boolean.
    Bool(bool),
    /// A signed integer.
    Int(i64),
    /// A floating-point number, by its bits.
    Float(u64),
    /// A string.
    Text(Seq<char>),
    /// Milliseconds since the Unix epoch.
    Millis(i64),
}

/// The serial day number of the Unix epoch, 1 January 1970. Serial 0 is
/// 30 December 1899.
pub const EPOCH_SERIAL: i64 = 25_569;

/// Seconds in a day.
pub const DAY_SECONDS: i64 = 86_400;

/// Milliseconds in a day.
pub const DAY_MILLIS: i64 = 86_400_000;

/// The serial day number of the first day that has a date: 1 January of the
/// year -262143.
pub const FIRST_SERIAL: i64 = -96_439_723;

/// The serial day number after that of the last day that has a date:
/// 31 December of the year 262142.
pub const END_SERIAL: i64 = 95_051_806;

/// The bits of `FIRST_SERIAL` as a 64-bit floating-point number, without
/// the sign bit.
pub const FIRST_SERIAL_BITS: u64 = 0x4196_FE36_AC00_0000;

/// The bits of `END_SERIAL` as a 64-bit floating-point number.
pub const END_SERIAL_BITS: u64 = 0x4196_A980_7800_0000;

/// The bits of positive infinity as a 64-bit floating-point number.
pub const INFINITY_BITS: u64 = 0x7FF0_0000_0000_0000;

/// The bits of a 64-bit floating-point number without its sign bit. For
/// numbers they are ordered as the magnitudes are; those of the infinities
/// lie above those of every number, and those of NaNs above these.
pub open spec fn magnitude(bits: u64) -> int {
    bits as int % 0x8000_0000_0000_0000
}

/// Whether the sign bit of a 64-bit floating-point number is set.
pub open spec fn negative(bits: u64) -> bool {
    bits >= 0x8000_0000_0000_0000
}

/// Whether a float, given by its bits, is a serial day number with a date:
/// a number from `FIRST_SERIAL` up to, and without, `END_SERIAL`. A NaN
/// counts too: it is read as serial 0.
pub open spec fn float_has_date(bits: u64) -> bool {
    ||| magnitude(bits) > INFINITY_BITS
    ||| !negative(bits) && magnitude(bits) < END_SERIAL_BITS
    ||| negative(bits) && magnitude(bits) <= FIRST_SERIAL_BITS
}

impl Cell {
    /// Whether the cell holds a serial day number with a date: an integer
    /// from `FIRST_SERIAL` up to, and without, `END_SERIAL`, or a float or a
    /// date-time within the same days.
    pub open spec fn has_date(self) -> bool {
        match self {
            Cell::Int(days) => FIRST_SERIAL <= days < END_SERIAL,
            Cell::Float(bits) => float_has_date(bits),
            Cell::DateTime(bits) => float_has_date(bits),
            _ => false,
        }
    }

    /// Whether the cell holds a serial day number that can be asked for its
    /// date: a float or a date-time with a date, or an integer whose seconds
    /// from the Unix epoch fit 64 bits.
    pub open spec fn is_serial(self) -> bool {
        match self {
            Cell::Int(days) => i64::MIN <= (days - EPOCH_SERIAL) * DAY_SECONDS <= i64::MAX,
            Cell::Float(bits) => float_has_date(bits),
            Cell::DateTime(bits) => float_has_date(bits),
            _ => false,
        }
    }

    /// Decides `is_serial`. The bounds of an integer are the first and the
    /// last whose seconds fit.
    pub fn has_serial(&self) -> (answer: bool)
        ensures
            answer == self.is_serial(),
    {
        match self {
            Cell::Int(days) => -106_751_991_141_731 <= *days && *days <= 106_751_991_192_869,
            Cell::Float(bits) => float_dated(*bits),
            Cell::DateTime(bits) => float_dated(*bits),
            _ => false,
        }
    }
}

/// Decides `float_has_date`.
fn float_dated(bits: u64) -> (answer: bool)
    ensures
        answer == float_has_date(bits),
{
    let unsigned: u64 = bits & 0x7FFF_FFFF_FFFF_FFFF;
    assert(unsigned == bits % 0x8000_0000_0000_0000) by (bit_vector)
        requires
            unsigned == bits & 0x7FFF_FFFF_FFFF_FFFF,
    ;
    if unsigned > INFINITY_BITS {
        true
    } else if bits == unsigned {
        unsigned < END_SERIAL_BITS
    } else {
        unsigned <= FIRST_SERIAL_BITS
    }
}

} // verus!

use arrow::array::{Array, BooleanArray, Int64Array, StringArray};
use calamine::{CellErrorType, DataType, Range};
use excelsheet::cell::Cell;
use excelsheet::column::{
    create_boolean_array, create_int_array, create_null_array, create_string_array,
};
use excelsheet::grid::read_cell;

fn column_of(cells: Vec<DataType>) -> Range<DataType> {
    let mut range = Range::new((0, 0), (cells.len() as u32 - 1, 0));
    for (row, cell) in cells.into_iter().enumerate() {
        range.set_value((row as u32, 0), cell);
    }
    range
}

#[test]
fn read_cell_gives_each_kind_of_cell() {
    let range = column_of(vec![
        DataType::Int(-4),
        DataType::Float(2.5),
        DataType::String("x".to_string()),
        DataType::Bool(true),
        DataType::DateTime(44000.25),
        DataType::Error(CellErrorType::NA),
        DataType::Empty,
    ]);
    assert_eq!(read_cell(&range, 0, 0), Some(Cell::Int(-4)));
    assert_eq!(read_cell(&range, 1, 0), Some(Cell::Float(2.5f64.to_bits())));
    assert_eq!(read_cell(&range, 2, 0), Some(Cell::Text("x".to_string())));
    assert_eq!(read_cell(&range, 3, 0), Some(Cell::Bool(true)));
    assert_eq!(read_cell(&range, 4, 0), Some(Cell::DateTime(44000.25f64.to_bits())));
    assert_eq!(read_cell(&range, 5, 0), Some(Cell::Error));
    assert_eq!(read_cell(&range, 6, 0), Some(Cell::Empty));
}

#[test]
fn read_cell_gives_nothing_outside_the_range() {
    let mut range = Range::new((0, 0), (1, 1));
    range.set_value((0, 0), DataType::Int(1));
    range.set_value((0, 1), DataType::Int(2));
    range.set_value((1, 0), DataType::Int(3));
    range.set_value((1, 1), DataType::Int(4));
    assert_eq!(read_cell(&range, 1, 1), Some(Cell::Int(4)));
    assert_eq!(read_cell(&range, 2, 0), None);
    assert_eq!(read_cell(&range, 0, 2), None);
    assert_eq!(read_cell(&range, usize::MAX, usize::MAX), None);
    assert_eq!(read_cell(&Range::empty(), 0, 0), None);
}

#[test]
fn serial_can_be_asked_for_its_date() {
    assert!(Cell::Int(0).has_serial());
    assert!(Cell::Int(70_000_000).has_serial());
    assert!(Cell::Int(106_751_991_192_869).has_serial());
    assert!(!Cell::Int(106_751_991_192_870).has_serial());
    assert!(Cell::Int(-106_751_991_141_731).has_serial());
    assert!(!Cell::Int(-106_751_991_141_732).has_serial());
    assert!(!Cell::Int(i64::MAX).has_serial());
    assert!(!Cell::Int(i64::MIN).has_serial());
    let last = (106_751_991_192_869i64 - 25_569).checked_mul(86_400);
    assert_eq!(last, Some(9_223_372_036_854_720_000));
    assert_eq!((106_751_991_192_870i64 - 25_569).checked_mul(86_400), None);
    assert_eq!((-106_751_991_141_732i64 - 25_569).checked_mul(86_400), None);
    assert!(Cell::Float(0.0f64.to_bits()).has_serial());
    assert!(Cell::Float((-0.0f64).to_bits()).has_serial());
    assert!(Cell::Float(70_000_000.0f64.to_bits()).has_serial());
    assert!(Cell::Float(95_051_806.0f64.to_bits() - 1).has_serial());
    assert!(!Cell::Float(95_051_806.0f64.to_bits()).has_serial());
    assert!(Cell::DateTime((-96_439_723.0f64).to_bits()).has_serial());
    assert!(!Cell::DateTime((-96_439_723.0f64).to_bits() + 1).has_serial());
    assert!(!Cell::Float(96_439_723.0f64.to_bits()).has_serial());
    assert!(Cell::DateTime(f64::NAN.to_bits()).has_serial());
    assert!(Cell::Float((-f64::NAN).to_bits()).has_serial());
    assert!(!Cell::Float(f64::INFINITY.to_bits()).has_serial());
    assert!(!Cell::Float(f64::NEG_INFINITY.to_bits()).has_serial());
    assert!(!Cell::Float(f64::MAX.to_bits()).has_serial());
    assert!(!Cell::Text("1".to_string()).has_serial());
    assert!(!Cell::Bool(true).has_serial());
    assert!(!Cell::Error.has_serial());
    assert!(!Cell::Empty.has_serial());
}

#[test]
fn serial_constants_are_the_bits_of_their_numbers() {
    assert_eq!(excelsheet::cell::END_SERIAL_BITS, (excelsheet::cell::END_SERIAL as f64).to_bits());
    assert_eq!(
        excelsheet::cell::FIRST_SERIAL_BITS,
        (-(excelsheet::cell::FIRST_SERIAL as f64)).to_bits()
    );
    assert_eq!(excelsheet::cell::INFINITY_BITS, f64::INFINITY.to_bits());
}

#[test]
fn projection_covers_the_rows_from_offset_to_height() {
    let range = column_of(vec![
        DataType::Int(10),
        DataType::Int(11),
        DataType::Int(12),
        DataType::Int(13),
    ]);
    let column = create_int_array(&range, 0, 1, 3);
    let array = column.array.as_any().downcast_ref::<Int64Array>().unwrap();
    assert_eq!(array.iter().collect::<Vec<_>>(), vec![Some(11), Some(12)]);
}

#[test]
fn projection_is_null_below_the_range() {
    let range = column_of(vec![DataType::Bool(true), DataType::Bool(false)]);
    let column = create_boolean_array(&range, 0, 1, 4);
    let array = column.array.as_any().downcast_ref::<BooleanArray>().unwrap();
    assert_eq!(array.iter().collect::<Vec<_>>(), vec![Some(false), None, None]);
}

#[test]
fn projection_is_empty_where_offset_passes_height() {
    let range = column_of(vec![DataType::Int(1)]);
    assert_eq!(create_int_array(&range, 0, 3, 1).array.len(), 0);
    assert_eq!(create_int_array(&range, 0, 1, 1).array.len(), 0);
    assert_eq!(create_null_array(3, 1).array.len(), 0);
    assert_eq!(create_null_array(1, 4).array.len(), 3);
}

#[test]
fn text_projection_borrows_the_strings_of_the_range() {
    let range = column_of(vec![DataType::String("one".to_string()), DataType::Int(2)]);
    let column = create_string_array(&range, 0, 0, 2).unwrap();
    let array = column.array.as_any().downcast_ref::<StringArray>().unwrap();
    assert_eq!(array.iter().collect::<Vec<_>>(), vec![Some("one"), None]);
}

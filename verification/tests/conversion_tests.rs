use daft_core::arrow_interop::{arrow_i64_from_options, ArrowArrayValue};
use daft_core::dtype::DataType;
use daft_core::error::DaftError;
use daft_core::field::Field;
use daft_core::from_arrow::FromArrow;
use daft_core::int64_array::Int64Array;
use daft_core::logical_array::LogicalDataArray;

#[test]
fn physical_conversion_round_trip() {
    let ext = arrow_i64_from_options(vec![Some(1), None, Some(10)]);
    let field = Field::new("c".to_string(), DataType::Int64);
    let arr = Int64Array::from_arrow(&field, ArrowArrayValue::Int64(ext)).unwrap();
    assert_eq!(arr.len(), 3);
    assert_eq!(arr.get(0), Some(1));
    assert_eq!(arr.get(1), None);
    assert_eq!(arr.get(2), Some(10));
    assert_eq!(arr.name().as_str(), "c");
    assert_eq!(arr.field.dtype, DataType::Int64);
}

#[test]
fn physical_conversion_zero_length() {
    let ext = arrow_i64_from_options(vec![]);
    let field = Field::new("empty".to_string(), DataType::Int64);
    let arr = Int64Array::from_arrow(&field, ArrowArrayValue::Int64(ext)).unwrap();
    assert_eq!(arr.len(), 0);
}

#[test]
fn physical_conversion_type_mismatch() {
    let ext = arrow_i64_from_options(vec![Some(4)]);
    let field = Field::new("c".to_string(), DataType::Utf8);
    let r = Int64Array::from_arrow(&field, ArrowArrayValue::Int64(ext));
    assert!(matches!(r, Err(DaftError::TypeError(_))));
}

#[test]
fn logical_conversion_two_step() {
    let values = vec![Some(18993), Some(19000), None];
    let ext = arrow_i64_from_options(values.clone());
    let field = Field::new("d".to_string(), DataType::Date);
    let wrapper = LogicalDataArray::from_arrow(&field, ArrowArrayValue::Int64(ext)).unwrap();
    assert_eq!(wrapper.field.dtype, DataType::Date);
    assert_eq!(wrapper.name().as_str(), "d");
    assert_eq!(wrapper.physical.field.dtype, DataType::Int64);
    assert_eq!(wrapper.physical.name().as_str(), "d");

    // The wrapper's payload equals converting the same values against the
    // logical type's physical counterpart.
    let ext2 = arrow_i64_from_options(values);
    let phys_field = Field::new("d".to_string(), DataType::Int64);
    let direct = Int64Array::from_arrow(&phys_field, ArrowArrayValue::Int64(ext2)).unwrap();
    assert_eq!(wrapper.len(), direct.len());
    for i in 0..direct.len() {
        assert_eq!(wrapper.physical.get(i), direct.get(i));
    }
}

#[test]
fn logical_conversion_rejects_physical_type() {
    let ext = arrow_i64_from_options(vec![Some(1)]);
    let field = Field::new("c".to_string(), DataType::Int64);
    let r = LogicalDataArray::from_arrow(&field, ArrowArrayValue::Int64(ext));
    assert!(matches!(r, Err(DaftError::TypeError(_))));
}

#[test]
fn dtype_physical_mapping() {
    assert_eq!(DataType::Date.to_physical(), DataType::Int64);
    assert_eq!(DataType::Int64.to_physical(), DataType::Int64);
    assert_eq!(DataType::Binary.to_physical(), DataType::Binary);
    assert!(DataType::Date.is_logical());
    assert!(!DataType::Date.is_physical());
    assert!(DataType::Python.is_physical());
}

#[test]
fn error_message_carries_text() {
    let e = DaftError::ValueError("bad input".to_string());
    assert_eq!(e.message().as_str(), "bad input");
}

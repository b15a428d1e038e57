use daft_core::dtype::DataType;
use daft_core::error::DaftError;
use daft_core::field::Field;
use daft_core::int64_array::Int64Array;
use daft_core::utf8_array::Utf8Array;

#[test]
fn int_array_parts_checked() {
    let ok = Int64Array::new(
        Field::new("c".to_string(), DataType::Int64),
        vec![1, 2],
        Some(vec![true, false]),
    );
    assert!(ok.is_ok());
    let wrong_len = Int64Array::new(
        Field::new("c".to_string(), DataType::Int64),
        vec![1, 2],
        Some(vec![true]),
    );
    assert!(matches!(wrong_len, Err(DaftError::TypeError(_))));
    let wrong_type = Int64Array::new(
        Field::new("c".to_string(), DataType::Utf8),
        vec![1, 2],
        None,
    );
    assert!(matches!(wrong_type, Err(DaftError::TypeError(_))));
}

#[test]
fn int_array_accepts_logical_date() {
    let arr = Int64Array::new(
        Field::new("d".to_string(), DataType::Date),
        vec![19000],
        None,
    )
    .unwrap();
    assert_eq!(arr.get(0), Some(19000));
}

#[test]
fn string_array_parts_checked() {
    let ok = Utf8Array::new(
        Field::new("s".to_string(), DataType::Utf8),
        vec!["a".to_string()],
        None,
    );
    assert!(ok.is_ok());
    let wrong_type = Utf8Array::new(
        Field::new("s".to_string(), DataType::Binary),
        vec!["a".to_string()],
        None,
    );
    assert!(matches!(wrong_type, Err(DaftError::TypeError(_))));
}

#[test]
fn string_array_reads_back() {
    let arr = Utf8Array::new(
        Field::new("s".to_string(), DataType::Utf8),
        vec!["left".to_string(), "right".to_string()],
        Some(vec![true, false]),
    )
    .unwrap();
    assert_eq!(arr.len(), 2);
    assert_eq!(arr.get(0), Some("left".to_string()));
    assert_eq!(arr.get(1), None);
    assert_eq!(arr.name().as_str(), "s");
}

#[test]
fn field_physical_counterpart() {
    let f = Field::new("d".to_string(), DataType::Date);
    let p = f.to_physical();
    assert_eq!(p.name.as_str(), "d");
    assert_eq!(p.dtype, DataType::Int64);
}

use daft_core::binary_array::BinaryArray;
use daft_core::binary_growable::BinaryGrowable;
use daft_core::dtype::DataType;
use daft_core::field::Field;
use daft_core::utf8_array::Utf8Array;
use daft_core::utf8_growable::Utf8Growable;

#[test]
fn binary_growable_scenario() {
    let a = BinaryArray::try_new("A", b"aabbbcc".to_vec(), vec![0, 2, 5, 7]).unwrap();
    let b = BinaryArray::try_new("B", b"zz".to_vec(), vec![0, 2, 2])
        .unwrap()
        .with_validity(vec![true, false])
        .unwrap();
    let mut g = BinaryGrowable::new("out".to_string(), &DataType::Binary, vec![&a, &b], 4);
    g.extend(0, 1, 2);
    g.extend(1, 0, 2);
    g.add_nulls(1);
    let built = g.build().unwrap();
    assert_eq!(built.len(), 5);
    assert_eq!(built.get(0), Some(b"bbb".to_vec()));
    assert_eq!(built.get(1), Some(b"cc".to_vec()));
    assert_eq!(built.get(2), Some(b"zz".to_vec()));
    assert_eq!(built.get(3), None);
    assert_eq!(built.get(4), None);
    assert_eq!(built.name().as_str(), "out");
}

#[test]
fn binary_growable_empty_build() {
    let mut g = BinaryGrowable::new("empty".to_string(), &DataType::Binary, vec![], 0);
    let built = g.build().unwrap();
    assert_eq!(built.len(), 0);
    assert_eq!(built.name().as_str(), "empty");
    assert_eq!(built.field.dtype, DataType::Binary);
}

#[test]
fn utf8_growable_scenario() {
    let a = Utf8Array::new(
        Field::new("A".to_string(), DataType::Utf8),
        vec!["one".to_string(), "two".to_string(), "three".to_string()],
        Some(vec![true, false, true]),
    )
    .unwrap();
    let mut g = Utf8Growable::new("out".to_string(), &DataType::Utf8, vec![&a], 4);
    g.extend(0, 0, 3);
    g.add_nulls(1);
    let built = g.build().unwrap();
    assert_eq!(built.len(), 4);
    assert_eq!(built.get(0), Some("one".to_string()));
    assert_eq!(built.get(1), None);
    assert_eq!(built.get(2), Some("three".to_string()));
    assert_eq!(built.get(3), None);
    assert_eq!(built.name().as_str(), "out");
    assert_eq!(built.field.dtype, DataType::Utf8);
}

#[test]
fn utf8_growable_null_round_trip() {
    let mut g = Utf8Growable::new("nulls".to_string(), &DataType::Utf8, vec![], 0);
    g.add_nulls(3);
    let built = g.build().unwrap();
    assert_eq!(built.len(), 3);
    for i in 0..3 {
        assert_eq!(built.get(i), None);
    }
}

use daft_core::dtype::DataType;
use daft_core::field::Field;
use daft_core::int64_array::Int64Array;
use daft_core::int64_growable::Int64Growable;

fn int_array(name: &str, values: Vec<i64>, validity: Option<Vec<bool>>) -> Int64Array {
    Int64Array::new(Field::new(name.to_string(), DataType::Int64), values, validity).unwrap()
}

#[test]
fn concrete_scenario_two_sources() {
    let a = int_array("A", vec![10, 20, 30], None);
    let b = int_array("B", vec![40, 0], Some(vec![true, false]));
    let mut g = Int64Growable::new("out".to_string(), &DataType::Int64, vec![&a, &b], 4);
    g.extend(0, 1, 2);
    g.extend(1, 0, 1);
    g.add_nulls(1);
    let built = g.build().unwrap();
    assert_eq!(built.len(), 4);
    assert_eq!(built.get(0), Some(20));
    assert_eq!(built.get(1), Some(30));
    assert_eq!(built.get(2), Some(40));
    assert_eq!(built.get(3), None);
    assert_eq!(built.name().as_str(), "out");
    assert_eq!(built.field.dtype, DataType::Int64);
}

#[test]
fn length_after_mixed_calls() {
    let a = int_array("A", vec![1, 2, 3, 4], None);
    let mut g = Int64Growable::new("out".to_string(), &DataType::Int64, vec![&a], 0);
    g.extend(0, 0, 3);
    g.add_nulls(2);
    g.extend(0, 2, 2);
    let built = g.build().unwrap();
    assert_eq!(built.len(), 3 + 2 + 2);
}

#[test]
fn content_fidelity_single_extend() {
    let a = int_array("A", vec![7, 8, 9, 10], Some(vec![true, false, true, true]));
    let mut g = Int64Growable::new("out".to_string(), &DataType::Int64, vec![&a], 2);
    g.extend(0, 1, 3);
    let built = g.build().unwrap();
    assert_eq!(built.len(), 3);
    assert_eq!(built.get(0), None);
    assert_eq!(built.get(1), Some(9));
    assert_eq!(built.get(2), Some(10));
}

#[test]
fn null_round_trip() {
    let mut g = Int64Growable::new("nulls".to_string(), &DataType::Int64, vec![], 0);
    g.add_nulls(5);
    let built = g.build().unwrap();
    assert_eq!(built.len(), 5);
    for i in 0..5 {
        assert_eq!(built.get(i), None);
    }
}

#[test]
fn empty_build() {
    let mut g = Int64Growable::new("empty".to_string(), &DataType::Int64, vec![], 8);
    let built = g.build().unwrap();
    assert_eq!(built.len(), 0);
    assert_eq!(built.name().as_str(), "empty");
    assert_eq!(built.field.dtype, DataType::Int64);
}

#[test]
fn builder_is_drained_by_build() {
    let a = int_array("A", vec![1, 2], None);
    let mut g = Int64Growable::new("out".to_string(), &DataType::Int64, vec![&a], 0);
    g.extend(0, 0, 2);
    let first = g.build().unwrap();
    assert_eq!(first.len(), 2);
    let second = g.build().unwrap();
    assert_eq!(second.len(), 0);
}

#[test]
fn date_typed_builder_keeps_dtype() {
    let a = Int64Array::new(Field::new("d".to_string(), DataType::Date), vec![19000], None)
        .unwrap();
    let mut g = Int64Growable::new("d2".to_string(), &DataType::Date, vec![&a], 1);
    g.extend(0, 0, 1);
    let built = g.build().unwrap();
    assert_eq!(built.field.dtype, DataType::Date);
    assert_eq!(built.get(0), Some(19000));
}

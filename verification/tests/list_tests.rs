use daft_core::dtype::DataType;
use daft_core::error::DaftError;
use daft_core::list_array::ListArray;
use daft_core::list_growable::ListGrowable;

#[test]
fn list_construction_from_parts() {
    let arr = ListArray::try_new(
        "l",
        vec![1, 2, 0, 4],
        vec![true, true, false, true],
        vec![0, 2, 2, 4],
    )
    .unwrap();
    assert_eq!(arr.len(), 3);
    assert_eq!(arr.get(0), Some(vec![Some(1), Some(2)]));
    assert_eq!(arr.get(1), Some(vec![]));
    assert_eq!(arr.get(2), Some(vec![None, Some(4)]));
    let with_nulls = arr.with_validity(vec![true, false, true]).unwrap();
    assert_eq!(with_nulls.get(1), None);
}

#[test]
fn list_construction_rejects_bad_parts() {
    let r = ListArray::try_new("l", vec![1, 2], vec![true], vec![0, 2]);
    assert!(matches!(r, Err(DaftError::TypeError(_))));
    let r = ListArray::try_new("l", vec![1, 2], vec![true, true], vec![0, 3]);
    assert!(matches!(r, Err(DaftError::TypeError(_))));
    let r = ListArray::try_new("l", vec![1, 2], vec![true, true], vec![0, 2, 1, 2]);
    assert!(matches!(r, Err(DaftError::TypeError(_))));
}

#[test]
fn list_growable_scenario() {
    let a = ListArray::try_new(
        "A",
        vec![1, 2, 3, 4, 5],
        vec![true, true, true, true, true],
        vec![0, 2, 3, 5],
    )
    .unwrap();
    let mut g = ListGrowable::new("out".to_string(), &DataType::List, vec![&a], 4);
    g.extend(0, 1, 2);
    g.add_nulls(1);
    let built = g.build().unwrap();
    assert_eq!(built.len(), 3);
    assert_eq!(built.get(0), Some(vec![Some(3)]));
    assert_eq!(built.get(1), Some(vec![Some(4), Some(5)]));
    assert_eq!(built.get(2), None);
    assert_eq!(built.name().as_str(), "out");
    assert_eq!(built.field.dtype, DataType::List);
}

#[test]
fn list_growable_empty_build() {
    let mut g = ListGrowable::new("empty".to_string(), &DataType::List, vec![], 0);
    let built = g.build().unwrap();
    assert_eq!(built.len(), 0);
    assert_eq!(built.name().as_str(), "empty");
}

use daft_core::binary_array::BinaryArray;
use daft_core::dtype::DataType;
use daft_core::error::DaftError;
use daft_core::field::Field;
use daft_core::url_download::{url_download, UrlFetchResult};
use daft_core::utf8_array::Utf8Array;

fn ok(index: usize, bytes: &[u8]) -> UrlFetchResult {
    UrlFetchResult { index, payload: Some(Ok(bytes.to_vec())) }
}

fn failed(index: usize, message: &str) -> UrlFetchResult {
    UrlFetchResult { index, payload: Some(Err(message.to_string())) }
}

fn null_input(index: usize) -> UrlFetchResult {
    UrlFetchResult { index, payload: None }
}

#[test]
fn download_reorders_responses() {
    let urls = vec![Some("a".to_string()), None, Some("b".to_string())];
    let results = vec![ok(2, b"yy"), ok(0, b"x"), null_input(1)];
    let out = url_download("col", &urls, 4, true, results).unwrap();
    assert_eq!(out.len(), 3);
    assert_eq!(out.get(0), Some(b"x".to_vec()));
    assert_eq!(out.get(1), None);
    assert_eq!(out.get(2), Some(b"yy".to_vec()));
    assert_eq!(out.name().as_str(), "col");
}

#[test]
fn download_zero_connections_rejected() {
    let urls = vec![Some("a".to_string())];
    let results = vec![ok(0, b"x")];
    let r = url_download("col", &urls, 0, true, results);
    assert!(matches!(r, Err(DaftError::ValueError(_))));
}

#[test]
fn download_failure_raised() {
    let urls = vec![Some("a".to_string()), Some("b".to_string())];
    let results = vec![ok(0, b"x"), failed(1, "boom")];
    let r = url_download("col", &urls, 2, true, results);
    match r {
        Err(DaftError::IoError(m)) => assert_eq!(m.as_str(), "boom"),
        _ => panic!("expected a raised fetch failure"),
    }
}

#[test]
fn download_failure_becomes_null() {
    let urls = vec![Some("a".to_string()), Some("b".to_string())];
    let results = vec![failed(1, "boom"), ok(0, b"x")];
    let out = url_download("col", &urls, 2, false, results).unwrap();
    assert_eq!(out.len(), 2);
    assert_eq!(out.get(0), Some(b"x".to_vec()));
    assert_eq!(out.get(1), None);
}

#[test]
fn download_empty_inputs() {
    let urls: Vec<Option<String>> = vec![];
    let out = url_download("col", &urls, 1, true, vec![]).unwrap();
    assert_eq!(out.len(), 0);
}

#[test]
fn string_column_download() {
    let col = Utf8Array::new(
        Field::new("links".to_string(), DataType::Utf8),
        vec!["u1".to_string(), String::new()],
        Some(vec![true, false]),
    )
    .unwrap();
    let results = vec![null_input(1), ok(0, b"body")];
    let out = col.url_download(3, true, results).unwrap();
    assert_eq!(out.len(), 2);
    assert_eq!(out.get(0), Some(b"body".to_vec()));
    assert_eq!(out.get(1), None);
    assert_eq!(out.name().as_str(), "links");
}

#[test]
fn binary_construction_from_parts() {
    let arr = BinaryArray::try_new("b", b"abc".to_vec(), vec![0, 1, 3, 3]).unwrap();
    assert_eq!(arr.len(), 3);
    assert_eq!(arr.get(0), Some(b"a".to_vec()));
    assert_eq!(arr.get(1), Some(b"bc".to_vec()));
    assert_eq!(arr.get(2), Some(b"".to_vec()));
    let with_nulls = arr.with_validity(vec![true, false, true]).unwrap();
    assert_eq!(with_nulls.get(1), None);
    assert_eq!(with_nulls.get(2), Some(b"".to_vec()));
}

#[test]
fn binary_construction_rejects_bad_offsets() {
    let r = BinaryArray::try_new("b", b"abc".to_vec(), vec![]);
    assert!(matches!(r, Err(DaftError::TypeError(_))));
    let r = BinaryArray::try_new("b", b"abc".to_vec(), vec![1, 3]);
    assert!(matches!(r, Err(DaftError::TypeError(_))));
    let r = BinaryArray::try_new("b", b"abc".to_vec(), vec![0, 2]);
    assert!(matches!(r, Err(DaftError::TypeError(_))));
    let r = BinaryArray::try_new("b", b"abc".to_vec(), vec![0, 2, 1, 3]);
    assert!(matches!(r, Err(DaftError::TypeError(_))));
    let r = BinaryArray::try_new("b", b"abc".to_vec(), vec![0, 4, 3]);
    assert!(matches!(r, Err(DaftError::TypeError(_))));
}

#[test]
fn binary_validity_length_checked() {
    let arr = BinaryArray::try_new("b", b"ab".to_vec(), vec![0, 1, 2]).unwrap();
    let r = arr.with_validity(vec![true]);
    assert!(matches!(r, Err(DaftError::TypeError(_))));
}

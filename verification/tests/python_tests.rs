use daft_core::dtype::DataType;
use daft_core::field::Field;
use daft_core::python_array::PythonArray;
use daft_core::python_growable::PythonGrowable;
use pyo3::types::PyString;
use pyo3::Python;

#[test]
fn object_reference_semantics() {
    Python::attach(|py| {
        let obj = PyString::new(py, "payload").into_any().unbind();
        let field = Field::new("col".to_string(), DataType::Python);
        let arr = PythonArray::new(field, vec![obj.clone_ref(py)]).unwrap();
        let before = obj.get_refcnt(py);
        let mut g = PythonGrowable::new("out".to_string(), &DataType::Python, vec![&arr], 1);
        g.extend(0, 0, 1);
        let after = obj.get_refcnt(py);
        assert_eq!(after, before + 1);
        let built = g.build().unwrap();
        assert!(built.get(0).is(&obj));
    });
}

#[test]
fn nulls_share_the_sentinel() {
    Python::attach(|py| {
        let mut g = PythonGrowable::new("nulls".to_string(), &DataType::Python, vec![], 0);
        g.add_nulls(2);
        let built = g.build().unwrap();
        assert_eq!(built.len(), 2);
        let none = py.None();
        assert!(built.get(0).is(&none));
        assert!(built.get(1).is(&none));
        assert_eq!(built.validity, Some(vec![false, false]));
    });
}

#[test]
fn object_scenario_mixed_sources() {
    Python::attach(|py| {
        let x = PyString::new(py, "x").into_any().unbind();
        let y = PyString::new(py, "y").into_any().unbind();
        let a = PythonArray::new(
            Field::new("A".to_string(), DataType::Python),
            vec![x.clone_ref(py), py.None(), y.clone_ref(py)],
        )
        .unwrap();
        assert_eq!(a.validity, Some(vec![true, false, true]));
        let mut g = PythonGrowable::new("out".to_string(), &DataType::Python, vec![&a], 4);
        g.extend(0, 1, 2);
        g.add_nulls(1);
        let built = g.build().unwrap();
        assert_eq!(built.len(), 3);
        assert!(built.get(0).is(&py.None()));
        assert!(built.get(1).is(&y));
        assert!(built.get(2).is(&py.None()));
        assert_eq!(built.validity, Some(vec![false, true, false]));
        assert_eq!(built.name().as_str(), "out");
    });
}

#[test]
fn object_array_rejects_other_types() {
    Python::attach(|py| {
        let obj = PyString::new(py, "v").into_any().unbind();
        let r = PythonArray::new(Field::new("c".to_string(), DataType::Int64), vec![obj]);
        assert!(r.is_err());
        let _ = py;
    });
}

#[test]
fn object_empty_build() {
    Python::attach(|_py| {
        let mut g = PythonGrowable::new("empty".to_string(), &DataType::Python, vec![], 3);
        let built = g.build().unwrap();
        assert_eq!(built.len(), 0);
        assert_eq!(built.name().as_str(), "empty");
        assert_eq!(built.field.dtype, DataType::Python);
    });
}

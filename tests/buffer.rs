use ctranslate2_rs::buffer::{NestedSeq, OutOfRange, VecVecString, VecVecUsize};

fn strings(v: &[&str]) -> Vec<String> {
    v.iter().map(|s| s.to_string()).collect()
}

#[test]
fn buffer_starts_empty() {
    let b: VecVecString = NestedSeq::new();
    assert!(b.empty());
    assert_eq!(b.len(), 0);
    assert_eq!(b.at(0), Err(OutOfRange { index: 0, len: 0 }));
}

#[test]
fn buffer_keeps_insertion_order() {
    let mut b: VecVecString = NestedSeq::new();
    b.reserve(2);
    b.push_back(strings(&["Hello"]));
    b.push_back(strings(&["Good", "bye"]));
    assert_eq!(b.len(), 2);
    assert!(!b.empty());
    assert_eq!(b.at(0).unwrap(), &strings(&["Hello"]));
    assert_eq!(b.at(1).unwrap(), &strings(&["Good", "bye"]));
    assert_eq!(b.at(2), Err(OutOfRange { index: 2, len: 2 }));
}

#[test]
fn buffer_clear_empties() {
    let mut b: VecVecUsize = NestedSeq::new();
    b.push_back(vec![1, 2, 3]);
    b.clear();
    assert!(b.empty());
    assert!(b.at(0).is_err());
}

#[test]
fn buffer_from_vec() {
    let b = VecVecString::new_unique_from(vec![strings(&["a"]), strings(&[]), strings(&["b", "c"])]);
    assert_eq!(b.len(), 3);
    assert_eq!(b.at(1).unwrap().len(), 0);
    assert_eq!(b.into_vec(), vec![strings(&["a"]), strings(&[]), strings(&["b", "c"])]);
}

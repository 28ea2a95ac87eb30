use stats::error::AccessError;
use stats::sample::Sample;

#[test]
fn access_error_carries_path_and_cause() {
    let path = std::path::PathBuf::from("data/observations.txt");
    let inner = std::io::Error::new(std::io::ErrorKind::NotFound, "no such file");
    let e = AccessError::new(path.clone(), inner);
    assert_eq!(e.path, path);
    assert_eq!(e.inner.kind(), std::io::ErrorKind::NotFound);
}

#[test]
fn sample_view_roundtrip() {
    let s = Sample::new(vec![1.0f64, 2.0, 3.0]);
    assert_eq!(s.len(), 3);
    assert_eq!(s.get(0), 1.0);
    assert_eq!(s.get(2), 3.0);
    let copy = s.duplicate();
    assert_eq!(copy.len(), 3);
    assert_eq!(copy.get(1), 2.0);
}

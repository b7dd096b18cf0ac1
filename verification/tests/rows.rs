use tira::errors::ErrorKind;
use tira::service::{_check_at_least_one_row_changed, check_only_one_row_changed};

#[test]
fn one_row_changed_is_accepted() {
    assert!(check_only_one_row_changed(1).is_ok());
}

#[test]
fn no_row_changed_is_a_consistency_error() {
    let e = check_only_one_row_changed(0).unwrap_err();
    assert_eq!(e.kind, ErrorKind::ConsistencyError);
    assert_eq!(e.message, "No rows affected");
}

#[test]
fn several_rows_changed_is_a_consistency_error() {
    let e = check_only_one_row_changed(2).unwrap_err();
    assert_eq!(e.kind, ErrorKind::ConsistencyError);
    assert_eq!(e.message, "More than one row affected");
    let e = check_only_one_row_changed(u64::MAX).unwrap_err();
    assert_eq!(e.message, "More than one row affected");
}

#[test]
fn at_least_one_row_changed() {
    assert!(_check_at_least_one_row_changed(1).is_ok());
    assert!(_check_at_least_one_row_changed(7).is_ok());
    let e = _check_at_least_one_row_changed(0).unwrap_err();
    assert_eq!(e.kind, ErrorKind::ConsistencyError);
    assert_eq!(e.message, "No rows affected");
}

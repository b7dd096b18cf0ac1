//! The service layer: the rules between a request and the data store.

use crate::errors::{ErrorKind, TiraError};
use vstd::prelude::*;

pub mod emails;
pub mod security;
pub mod sessions;
pub mod tickets;

verus! {

/// Whether `e` is the error for a mutation that changed `rows_changed`
/// rows where exactly one was expected: a consistency error that says
/// whether there were too few or too many.
pub open spec fn is_row_count_error(e: TiraError, rows_changed: u64) -> bool {
    &&& e.kind == ErrorKind::ConsistencyError
    &&& e.message@ == (if rows_changed == 0 {
        "No rows affected"@
    } else {
        "More than one row affected"@
    })
}

/// Succeeds only if a mutation changed exactly one row. Zero rows, or more
/// than one, show a race or a logic fault and are reported, never ignored.
pub fn check_only_one_row_changed(rows_changed: u64) -> (res: Result<(), TiraError>)
    ensures
        res is Ok <==> rows_changed == 1,
        res matches Err(e) ==> is_row_count_error(e, rows_changed),
{
    if rows_changed == 1 {
        Ok(())
    } else if rows_changed < 1 {
        Err(TiraError::new(ErrorKind::ConsistencyError, "No rows affected"))
    } else {
        Err(TiraError::new(ErrorKind::ConsistencyError, "More than one row affected"))
    }
}

/// Succeeds if a mutation changed one row or more.
pub fn _check_at_least_one_row_changed(rows_changed: usize) -> (res: Result<(), TiraError>)
    ensures
        res is Ok <==> rows_changed >= 1,
        res is Err ==> res->Err_0.kind == ErrorKind::ConsistencyError
            && res->Err_0.message@ == "No rows affected"@,
{
    if rows_changed < 1 {
        Err(TiraError::new(ErrorKind::ConsistencyError, "No rows affected"))
    } else {
        Ok(())
    }
}

} // verus!

use vstd::prelude::*;
use crate::error::{bridged, translate, Error, ErrorModel, ErrorReport};

verus! {

/// The status with which a native call reports success (and, for a
/// predicate, a true answer).
pub const STATUS_SUCCESS: i32 = 1;

/// The status with which a native predicate reports a false answer.
pub const STATUS_FALSE: i32 = 0;

/// Outcome of a native getter that fills `value` and returns `1` on success:
/// any other status is a failure, bridged from the error slot.
pub fn getter_result<T>(status: i32, value: T, report: ErrorReport) -> (r: Result<T, Error>)
    ensures
        status == STATUS_SUCCESS ==> r is Ok && r->Ok_0 == value,
        status != STATUS_SUCCESS ==> r is Err && r->Err_0@ == bridged(status as int, report),
{
    if status == STATUS_SUCCESS {
        Ok(value)
    } else {
        Err(translate(status as i64, report))
    }
}

/// Outcome of a native predicate: `1` is true, `0` is false, and anything
/// else a failure bridged from the error slot.
pub fn predicate_result(status: i32, report: ErrorReport) -> (r: Result<bool, Error>)
    ensures
        status == STATUS_SUCCESS ==> r is Ok && r->Ok_0 == true,
        status == STATUS_FALSE ==> r is Ok && r->Ok_0 == false,
        status != STATUS_SUCCESS && status != STATUS_FALSE ==> r is Err && r->Err_0@ == bridged(
            status as int,
            report,
        ),
{
    if status == STATUS_SUCCESS {
        Ok(true)
    } else if status == STATUS_FALSE {
        Ok(false)
    } else {
        Err(translate(status as i64, report))
    }
}

/// Outcome of a native "get number of" call. A successful call that reports
/// a negative count broke the native contract and gives an opaque failure.
pub fn count_result(status: i32, count: i32, report: ErrorReport) -> (r: Result<u32, Error>)
    ensures
        status == STATUS_SUCCESS && count >= 0 ==> r is Ok && r->Ok_0 == count,
        status == STATUS_SUCCESS && count < 0 ==> r is Err && r->Err_0@ == ErrorModel::OpaqueFailure,
        status != STATUS_SUCCESS ==> r is Err && r->Err_0@ == bridged(status as int, report),
{
    if status != STATUS_SUCCESS {
        Err(translate(status as i64, report))
    } else if count < 0 {
        Err(Error::OpaqueFailure)
    } else {
        Ok(count as u32)
    }
}

/// Outcome of a native call that creates an object and writes its handle
/// into `handle`. A successful call that leaves the handle null broke the
/// native contract and gives an opaque failure, so a null handle is never
/// handed on to be wrapped.
pub fn handle_result(status: i32, handle: usize, report: ErrorReport) -> (r: Result<usize, Error>)
    ensures
        status == STATUS_SUCCESS && handle != 0 ==> r is Ok && r->Ok_0 == handle,
        status == STATUS_SUCCESS && handle == 0 ==> r is Err && r->Err_0@
            == ErrorModel::OpaqueFailure,
        status != STATUS_SUCCESS ==> r is Err && r->Err_0@ == bridged(status as int, report),
{
    if status != STATUS_SUCCESS {
        Err(translate(status as i64, report))
    } else if handle == 0 {
        Err(Error::OpaqueFailure)
    } else {
        Ok(handle)
    }
}

} // verus!

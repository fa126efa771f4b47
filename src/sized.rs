use vstd::prelude::*;
use crate::error::{bridged, translate, Error, ErrorModel, ErrorReport};
use crate::status::STATUS_SUCCESS;
use crate::text::{decode_terminated, utf8_decoded};

verus! {

/// What follows a successful native size call.
#[derive(Debug)]
pub enum SizeAnswer {
    /// The value is empty: there is nothing to fetch.
    Empty,
    /// A zeroed buffer of exactly the reported size, for the fill call.
    Fill(Vec<u8>),
}

/// The length of the buffer handed to the fill call after a size call that
/// returned `status` and reported `size`; `None` when no fill call follows.
pub open spec fn fill_len(status: i32, size: usize) -> Option<nat> {
    if status == STATUS_SUCCESS && size > 0 {
        Some(size as nat)
    } else {
        None
    }
}

/// Decides what follows the native size call: a failure bridged from its
/// error slot, an empty value, or a buffer of the reported size to fill.
pub fn after_size_call(status: i32, size: usize, report: ErrorReport) -> (r: Result<
    SizeAnswer,
    Error,
>)
    ensures
        status != STATUS_SUCCESS ==> r is Err && r->Err_0@ == bridged(status as int, report),
        status == STATUS_SUCCESS && size == 0 ==> r is Ok && r->Ok_0 is Empty,
        status == STATUS_SUCCESS && size > 0 ==> r is Ok && r->Ok_0 is Fill,
        r is Ok && r->Ok_0 is Fill ==> fill_len(status, size) == Some(r->Ok_0->Fill_0@.len())
            && forall|i: int| 0 <= i < size ==> r->Ok_0->Fill_0@[i] == 0u8,
{
    if status != STATUS_SUCCESS {
        Err(translate(status as i64, report))
    } else if size == 0 {
        Ok(SizeAnswer::Empty)
    } else {
        Ok(SizeAnswer::Fill(vec![0u8; size]))
    }
}

/// Outcome of the native fill call for a byte value: the filled buffer, or a
/// failure bridged from the error slot.
pub fn bytes_after_fill(status: i32, buf: Vec<u8>, report: ErrorReport) -> (r: Result<
    Vec<u8>,
    Error,
>)
    ensures
        status == STATUS_SUCCESS ==> r is Ok && r->Ok_0@ == buf@,
        status != STATUS_SUCCESS ==> r is Err && r->Err_0@ == bridged(status as int, report),
{
    if status == STATUS_SUCCESS {
        Ok(buf)
    } else {
        Err(translate(status as i64, report))
    }
}

/// The text of a sized string, from what decoding its bytes gave.
pub fn text_from_decoded(decoded: Option<String>) -> (r: Result<String, Error>)
    ensures
        decoded is Some ==> r is Ok && r->Ok_0@ == decoded->Some_0@,
        decoded is None ==> r is Err && r->Err_0@ == ErrorModel::InvalidUtf8,
{
    match decoded {
        Some(s) => Ok(s),
        None => Err(Error::InvalidUtf8),
    }
}

/// Outcome of the native fill call for a UTF-8 string: the text without the
/// terminator that ends the buffer, a failure bridged from the error slot, or
/// an error when the bytes are not UTF-8.
pub fn text_after_fill(status: i32, buf: Vec<u8>, report: ErrorReport) -> (r: Result<
    String,
    Error,
>)
    ensures
        status != STATUS_SUCCESS ==> r is Err && r->Err_0@ == bridged(status as int, report),
        status == STATUS_SUCCESS && buf@.len() == 0 ==> r is Ok && r->Ok_0@ == Seq::<char>::empty(),
        status == STATUS_SUCCESS && buf@.len() > 0 ==> match utf8_decoded(buf@.drop_last()) {
            Some(t) => r is Ok && r->Ok_0@ == t,
            None => r is Err && r->Err_0@ == ErrorModel::InvalidUtf8,
        },
{
    if status != STATUS_SUCCESS {
        Err(translate(status as i64, report))
    } else if buf.len() == 0 {
        Ok(String::new())
    } else {
        text_from_decoded(decode_terminated(buf))
    }
}

/// The buffer made after a successful size call always holds exactly the
/// reported size, so the fill call is never handed too short a buffer.
pub proof fn lemma_fill_buffer_fits(size: usize)
    requires
        size > 0,
    ensures
        fill_len(STATUS_SUCCESS, size) == Some(size as nat),
{
}

} // verus!

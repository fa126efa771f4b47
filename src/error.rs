use vstd::prelude::*;
use crate::text::{c_text, decode_c_text, utf8_decoded};

verus! {

/// A native error copied out of the native error object, so that it lives on
/// after that object is freed.
#[derive(Debug)]
pub struct FfiError {
    /// The error's text, as the native library printed it.
    pub message: String,
    /// The status that the failing native call returned.
    pub code: i64,
}

/// The errors of this library.
#[derive(Debug)]
pub enum Error {
    /// A native call failed and its error could be read.
    NativeCallFailed(FfiError),
    /// A native call failed and nothing could be learnt of why.
    OpaqueFailure,
    /// A stream read or seek failed; carries the native text when there is one.
    StreamIoFailure(Option<String>),
    /// A string that the native library returned is not valid UTF-8.
    InvalidUtf8,
}

/// What an [`Error`] says, as mathematical values.
pub enum ErrorModel {
    NativeCallFailed { message: Seq<char>, code: int },
    OpaqueFailure,
    StreamIoFailure(Option<Seq<char>>),
    InvalidUtf8,
}

impl View for Error {
    type V = ErrorModel;

    open spec fn view(&self) -> ErrorModel {
        match self {
            Error::NativeCallFailed(e) => ErrorModel::NativeCallFailed {
                message: e.message@,
                code: e.code as int,
            },
            Error::OpaqueFailure => ErrorModel::OpaqueFailure,
            Error::StreamIoFailure(m) => ErrorModel::StreamIoFailure(
                match m {
                    Some(s) => Some(s@),
                    None => None,
                },
            ),
            Error::InvalidUtf8 => ErrorModel::InvalidUtf8,
        }
    }
}

/// What the binding layer found in a native call's error slot once the call
/// had returned, read out before the native error object was freed.
#[derive(Debug)]
pub enum ErrorReport {
    /// The slot stayed null.
    Absent,
    /// The slot held an error object. `printed` is what the native print
    /// call returned for it (negative when printing failed) and `text` the
    /// buffer that call wrote, a NUL-terminated string.
    Present { printed: i32, text: Vec<u8> },
}

/// The native text of a report, when there is one and it can be read.
pub open spec fn report_text(report: ErrorReport) -> Option<Seq<char>> {
    match report {
        ErrorReport::Absent => None,
        ErrorReport::Present { printed, text } => if printed < 0 {
            None
        } else {
            utf8_decoded(c_text(text@))
        },
    }
}

/// The error that a failed call with status `code` and this report stands for.
pub open spec fn bridged(code: int, report: ErrorReport) -> ErrorModel {
    match report_text(report) {
        Some(m) => ErrorModel::NativeCallFailed { message: m, code: code },
        None => ErrorModel::OpaqueFailure,
    }
}

/// The stream error that a failed read or seek with this report stands for.
pub open spec fn stream_bridged(report: ErrorReport) -> ErrorModel {
    ErrorModel::StreamIoFailure(report_text(report))
}

/// Reads the native text out of a report.
pub fn report_message(report: ErrorReport) -> (r: Option<String>)
    ensures
        r is None <==> report_text(report) is None,
        r is Some ==> report_text(report) == Some(r->Some_0@),
{
    match report {
        ErrorReport::Absent => None,
        ErrorReport::Present { printed, text } => {
            if printed < 0 {
                None
            } else {
                decode_c_text(text.as_slice())
            }
        },
    }
}

/// Builds the error of a failed call from the text read out of its native
/// error: a native failure when there is text, an opaque one otherwise.
pub fn error_from_text(code: i64, text: Option<String>) -> (e: Error)
    ensures
        e@ == match text {
            Some(m) => ErrorModel::NativeCallFailed { message: m@, code: code as int },
            None => ErrorModel::OpaqueFailure,
        },
{
    match text {
        Some(m) => Error::NativeCallFailed(FfiError { message: m, code }),
        None => Error::OpaqueFailure,
    }
}

/// Turns the report of a failed call with status `code` into an error.
pub fn translate(code: i64, report: ErrorReport) -> (e: Error)
    ensures
        e@ == bridged(code as int, report),
{
    error_from_text(code, report_message(report))
}

/// Turns the report of a failed stream read or seek into a stream error.
pub fn stream_failure(report: ErrorReport) -> (e: Error)
    ensures
        e@ == stream_bridged(report),
{
    let m = report_message(report);
    Error::StreamIoFailure(m)
}

/// A failed call whose native error prints as a non-empty text is reported
/// as a native failure that carries that very text, never as an opaque one.
pub proof fn lemma_failure_keeps_native_text(
    code: int,
    printed: i32,
    text: Vec<u8>,
    message: Seq<char>,
)
    requires
        printed >= 0,
        utf8_decoded(c_text(text@)) == Some(message),
        message.len() > 0,
    ensures
        bridged(code, ErrorReport::Present { printed, text }) == (ErrorModel::NativeCallFailed {
            message,
            code,
        }),
        bridged(code, ErrorReport::Present { printed, text })->NativeCallFailed_message.len() > 0,
{
}

} // verus!

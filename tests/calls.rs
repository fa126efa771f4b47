use libfsntfs::error::{Error, ErrorReport};
use libfsntfs::filetime::{date_result, timestamp_from_filetime, Timestamp};
use libfsntfs::ffi::{AsFFIPtr, HandleSlot};
use libfsntfs::sized::{after_size_call, bytes_after_fill, text_after_fill, text_from_decoded, SizeAnswer};
use libfsntfs::status::{count_result, getter_result, handle_result, predicate_result};

fn failure() -> ErrorReport {
    ErrorReport::Present { printed: 4, text: b"fail\0".to_vec() }
}

fn is_native_fail(e: &Error) -> bool {
    matches!(e, Error::NativeCallFailed(f) if f.message == "fail")
}

#[test]
fn getter_returns_value_only_on_status_one() {
    assert_eq!(getter_result(1, 75776u64, ErrorReport::Absent).unwrap(), 75776);
    assert!(is_native_fail(&getter_result(0, 5u64, failure()).unwrap_err()));
    assert!(is_native_fail(&getter_result(-1, 5u64, failure()).unwrap_err()));
}

#[test]
fn predicate_reads_one_and_zero() {
    assert!(predicate_result(1, ErrorReport::Absent).unwrap());
    assert!(!predicate_result(0, ErrorReport::Absent).unwrap());
    assert!(is_native_fail(&predicate_result(-1, failure()).unwrap_err()));
}

#[test]
fn count_refuses_negative_counts() {
    assert_eq!(count_result(1, 7, ErrorReport::Absent).unwrap(), 7);
    assert!(matches!(count_result(1, -2, ErrorReport::Absent), Err(Error::OpaqueFailure)));
    assert!(is_native_fail(&count_result(-1, 7, failure()).unwrap_err()));
}

#[test]
fn handle_result_never_hands_out_null() {
    assert_eq!(handle_result(1, 0x1000, ErrorReport::Absent).unwrap(), 0x1000);
    assert!(matches!(handle_result(1, 0, ErrorReport::Absent), Err(Error::OpaqueFailure)));
    assert!(is_native_fail(&handle_result(-1, 0x1000, failure()).unwrap_err()));
}

#[test]
fn size_call_gives_buffer_of_reported_size() {
    match after_size_call(1, 5, ErrorReport::Absent).unwrap() {
        SizeAnswer::Fill(b) => assert_eq!(b, vec![0u8; 5]),
        SizeAnswer::Empty => panic!("expected a buffer"),
    }
    assert!(matches!(after_size_call(1, 0, ErrorReport::Absent), Ok(SizeAnswer::Empty)));
    assert!(is_native_fail(&after_size_call(-1, 5, failure()).unwrap_err()));
}

#[test]
fn two_call_buffer_always_fits_fill() {
    for size in [1usize, 2, 17, 4096] {
        let buf = match after_size_call(1, size, ErrorReport::Absent).unwrap() {
            SizeAnswer::Fill(b) => b,
            SizeAnswer::Empty => panic!("expected a buffer"),
        };
        assert_eq!(buf.len(), size);
        assert_eq!(bytes_after_fill(1, buf, ErrorReport::Absent).unwrap().len(), size);
    }
}

#[test]
fn fill_results() {
    assert_eq!(bytes_after_fill(1, vec![1, 2, 3], ErrorReport::Absent).unwrap(), vec![1, 2, 3]);
    assert!(is_native_fail(&bytes_after_fill(0, vec![1], failure()).unwrap_err()));
    assert_eq!(text_after_fill(1, b"$MFT\0".to_vec(), ErrorReport::Absent).unwrap(), "$MFT");
    assert_eq!(text_after_fill(1, Vec::new(), ErrorReport::Absent).unwrap(), "");
    assert!(matches!(text_after_fill(1, vec![0xff, 0], ErrorReport::Absent), Err(Error::InvalidUtf8)));
    assert!(is_native_fail(&text_after_fill(0, b"x\0".to_vec(), failure()).unwrap_err()));
    assert!(matches!(text_from_decoded(None), Err(Error::InvalidUtf8)));
    assert_eq!(text_from_decoded(Some("a".to_string())).unwrap(), "a");
}

#[test]
fn filetime_conversion() {
    assert_eq!(timestamp_from_filetime(116_444_736_000_000_000), Timestamp { seconds: 0, nanoseconds: 0 });
    assert_eq!(
        timestamp_from_filetime(132_223_104_000_000_001),
        Timestamp { seconds: 1_577_836_800, nanoseconds: 100 }
    );
    assert_eq!(timestamp_from_filetime(0), Timestamp { seconds: -11_644_473_600, nanoseconds: 0 });
    assert_eq!(
        timestamp_from_filetime(u64::MAX),
        Timestamp { seconds: 1_844_674_407_370 - 11_644_473_600, nanoseconds: 955_161_500 }
    );
}

#[test]
fn date_result_converts_every_filetime() {
    assert_eq!(
        date_result(1, 0, ErrorReport::Absent).unwrap(),
        Timestamp { seconds: -11_644_473_600, nanoseconds: 0 }
    );
    assert_eq!(
        date_result(1, 116_444_736_010_000_000, ErrorReport::Absent).unwrap(),
        Timestamp { seconds: 1, nanoseconds: 0 }
    );
    assert_eq!(
        date_result(1, 7, ErrorReport::Absent).unwrap(),
        Timestamp { seconds: -11_644_473_600, nanoseconds: 700 }
    );
    assert!(is_native_fail(&date_result(0, 1, failure()).unwrap_err()));
    assert!(is_native_fail(&date_result(-1, 0, failure()).unwrap_err()));
}

#[test]
fn out_parameter_slots_write_through() {
    let mut n: i32 = 0;
    *n.as_ffi_ptr() = 12;
    assert_eq!(n, 12);
    let mut size: u64 = 0;
    *size.as_ffi_ptr() = 75776;
    assert_eq!(size, 75776);
    let mut slot = HandleSlot::new();
    assert_eq!(slot.token, 0);
    *slot.as_ffi_ptr() = 0xdead0;
    assert_eq!(slot.token, 0xdead0);
}

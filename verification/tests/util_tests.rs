use m3::errors::{result_from_code, Error, SUCCESS};
use m3::util::{cstr_len, cstr_to_str, next_log2, round_up, unlikely};

#[test]
fn unlikely_passes_the_value() {
    assert!(unlikely(true));
    assert!(!unlikely(false));
}

#[test]
fn cstr_stops_at_first_nul() {
    let s = b"hello\0world\0";
    assert_eq!(cstr_len(s), 5);
    assert_eq!(cstr_to_str(s), b"hello");
}

#[test]
fn cstr_empty_string() {
    let s = b"\0abc";
    assert_eq!(cstr_len(s), 0);
    assert_eq!(cstr_to_str(s), b"");
}

#[test]
fn round_up_values() {
    assert_eq!(round_up(0, 64), 0);
    assert_eq!(round_up(1, 64), 64);
    assert_eq!(round_up(64, 64), 64);
    assert_eq!(round_up(0x1234, 0x1000), 0x2000);
    assert_eq!(round_up(10, 3), 12);
}

#[test]
fn next_log2_values() {
    assert_eq!(next_log2(0), 0);
    assert_eq!(next_log2(1), 0);
    assert_eq!(next_log2(2), 1);
    assert_eq!(next_log2(3), 2);
    assert_eq!(next_log2(4096), 12);
    assert_eq!(next_log2(4097), 13);
    assert_eq!(next_log2(usize::MAX), usize::BITS as i32);
}

#[test]
fn codes_to_results() {
    assert_eq!(result_from_code(SUCCESS), Ok(()));
    assert_eq!(result_from_code(3), Err(Error::Code(3)));
}

use raw_tty::util::{convert_to_result, IsMinusOne, OsError};

#[test]
fn minus_one_is_told_apart_in_every_width() {
    assert!((-1i8).is_minus_one());
    assert!((-1i16).is_minus_one());
    assert!((-1i32).is_minus_one());
    assert!((-1i64).is_minus_one());
    assert!((-1isize).is_minus_one());
}

#[test]
fn other_values_are_not_minus_one() {
    for v in [0i8, 1, -2, i8::MIN, i8::MAX] {
        assert!(!v.is_minus_one());
    }
    for v in [0i16, 1, -2, 255, i16::MIN, i16::MAX] {
        assert!(!v.is_minus_one());
    }
    for v in [0i32, 1, -2, 65535, i32::MIN, i32::MAX] {
        assert!(!v.is_minus_one());
    }
    for v in [0i64, 1, -2, 4294967295, i64::MIN, i64::MAX] {
        assert!(!v.is_minus_one());
    }
    for v in [0isize, 1, -2, isize::MIN, isize::MAX] {
        assert!(!v.is_minus_one());
    }
}

#[test]
fn convert_hands_back_any_value_but_minus_one() {
    assert_eq!(convert_to_result(0i32), Ok(0));
    assert_eq!(convert_to_result(7i32), Ok(7));
    assert_eq!(convert_to_result(-2i32), Ok(-2));
    assert_eq!(convert_to_result(i32::MIN), Ok(i32::MIN));
    assert_eq!(convert_to_result(i32::MAX), Ok(i32::MAX));
    assert_eq!(convert_to_result(0i8), Ok(0));
    assert_eq!(convert_to_result(12i16), Ok(12));
    assert_eq!(convert_to_result(1i64 << 40), Ok(1i64 << 40));
    assert_eq!(convert_to_result(-7isize), Ok(-7));
}

#[test]
fn convert_turns_minus_one_into_an_error() {
    assert!(convert_to_result(-1i8).is_err());
    assert!(convert_to_result(-1i16).is_err());
    assert!(convert_to_result(-1i32).is_err());
    assert!(convert_to_result(-1i64).is_err());
    assert!(convert_to_result(-1isize).is_err());
}

#[test]
fn convert_reports_the_platforms_current_error() {
    let current = std::io::Error::last_os_error().raw_os_error().unwrap_or(0);
    let reported = convert_to_result(-1i32).unwrap_err();
    assert_eq!(reported, OsError { code: current });
}

#[test]
fn os_errors_compare_by_code() {
    assert_eq!(OsError { code: 5 }, OsError { code: 5 });
    assert_ne!(OsError { code: 5 }, OsError { code: 25 });
    let e = OsError { code: 25 };
    let copy = e;
    assert_eq!(e.code, copy.code);
}

#[test]
fn an_error_carries_the_platforms_number_or_zero() {
    assert_eq!(OsError::from_code(Some(5)), OsError { code: 5 });
    assert_eq!(OsError::from_code(Some(0)), OsError { code: 0 });
    assert_eq!(OsError::from_code(Some(-3)), OsError { code: -3 });
    assert_eq!(OsError::from_code(Some(i32::MAX)), OsError { code: i32::MAX });
    assert_eq!(OsError::from_code(None), OsError { code: 0 });
}

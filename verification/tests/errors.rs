use spawner::error::{cvt, worker_result, Error, IsZero, SysError};

#[test]
fn an_error_made_from_text_says_that_text() {
    let e = Error::from("Runner thread panicked");
    assert_eq!(e.message(), "Runner thread panicked");
    assert_eq!(e.os_code(), None);
    assert!(!e.is_io());
    let e = Error::from(String::from("cannot allocate"));
    assert_eq!(e.message(), "cannot allocate");
}

#[test]
fn an_error_of_the_system_carries_its_code() {
    let e = Error::from(SysError { code: 2 });
    assert_eq!(e.os_code(), Some(2));
    assert!(!e.is_io());
    assert!(!e.message().is_empty());
}

#[test]
fn an_io_error_is_kept() {
    let inner = std::io::Error::new(std::io::ErrorKind::BrokenPipe, "pipe is gone");
    let e = Error::from(inner);
    assert!(e.is_io());
    assert_eq!(e.os_code(), None);
    assert_eq!(e.message(), "pipe is gone");
}

#[test]
fn last_os_error_is_an_error_of_the_system() {
    let e = Error::last_os_error();
    assert!(e.os_code().is_some());
    assert!(!e.is_io());
    let last = SysError::last();
    assert_eq!(SysError { code: last.code }, last);
}

#[test]
fn cvt_passes_what_is_not_zero() {
    assert_eq!(cvt(5i32).ok(), Some(5));
    assert_eq!(cvt(-1i64).ok(), Some(-1));
    assert_eq!(cvt(1u8).ok(), Some(1));
    assert_eq!(cvt(usize::MAX).ok(), Some(usize::MAX));
}

#[test]
fn cvt_turns_zero_into_the_last_os_error() {
    let err = cvt(0u32).err().unwrap();
    assert!(err.os_code().is_some());
    assert!(cvt(0i8).is_err());
    assert!(cvt(0isize).is_err());
}

#[test]
fn is_zero_on_every_integer_type() {
    assert!(0i8.is_zero() && !1i8.is_zero());
    assert!(0i16.is_zero() && !(-1i16).is_zero());
    assert!(0i32.is_zero() && !i32::MIN.is_zero());
    assert!(0i64.is_zero() && !i64::MAX.is_zero());
    assert!(0isize.is_zero() && !1isize.is_zero());
    assert!(0u8.is_zero() && !255u8.is_zero());
    assert!(0u16.is_zero() && !1u16.is_zero());
    assert!(0u32.is_zero() && !1u32.is_zero());
    assert!(0u64.is_zero() && !u64::MAX.is_zero());
    assert!(0usize.is_zero() && !1usize.is_zero());
}

#[test]
fn a_worker_that_panicked_gives_an_error() {
    let r: Result<u8, Error> = worker_result(None);
    assert_eq!(r.err().unwrap().message(), "Runner thread panicked");
}

#[test]
fn a_worker_that_returned_gives_its_own_result() {
    let r: Result<u8, Error> = worker_result(Some(Ok(7)));
    assert_eq!(r.ok(), Some(7));
    let r: Result<u8, Error> = worker_result(Some(Err(Error::from("no group"))));
    assert_eq!(r.err().unwrap().message(), "no group");
}

#[test]
fn a_raw_code_is_kept_and_none_is_zero() {
    assert_eq!(SysError::from_raw_os_error(Some(5)), SysError { code: 5 });
    assert_eq!(SysError::from_raw_os_error(Some(-3)), SysError { code: -3 });
    assert_eq!(SysError::from_raw_os_error(Some(0)), SysError { code: 0 });
    assert_eq!(SysError::from_raw_os_error(None), SysError { code: 0 });
}

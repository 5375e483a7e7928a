use psp2::io::{cvt_nz, cvt_p, Error, WriteProgress};

#[test]
fn error_keeps_its_code() {
    assert_eq!(Error::from_raw_os_error(-5).code(), -5);
    assert_eq!(Error::from_raw_os_error(17).code(), 17);
    assert_eq!(Error::from_raw_os_error_unchecked(-2147418110).code(), -2147418110);
    assert_eq!(Error::new(-1).code(), -1);
}

#[test]
fn error_displays_its_code_in_decimal() {
    assert_eq!(Error::from_raw_os_error(-5).to_string(), "-5");
    assert_eq!(Error::from_raw_os_error(42).to_string(), "42");
    assert_eq!(Error::from_raw_os_error(i32::MIN).to_string(), "-2147483648");
    assert_eq!(Error::from_raw_os_error(-2147418110).to_string(), "-2147418110");
}

#[test]
fn try_new_splits_by_sign() {
    match Error::try_new(-3) {
        Ok(e) => assert_eq!(e.code(), -3),
        Err(_) => panic!("a negative code is an error"),
    }
    match Error::try_new(7) {
        Ok(_) => panic!("a positive value is no error"),
        Err(v) => assert_eq!(v, 7),
    }
}

#[test]
fn cvt_p_reads_identifiers_and_errors() {
    assert_eq!(cvt_p(5).unwrap(), 5);
    assert_eq!(cvt_p(i32::MAX).unwrap(), i32::MAX);
    assert_eq!(cvt_p(-1).unwrap_err().code(), -1);
    assert_eq!(cvt_p(-2147352567).unwrap_err().code(), -2147352567);
}

#[test]
fn cvt_nz_reads_success_and_errors() {
    assert!(cvt_nz(0).is_ok());
    assert_eq!(cvt_nz(-22).unwrap_err().code(), -22);
    assert_eq!(cvt_nz(i32::MIN).unwrap_err().code(), i32::MIN);
}

#[test]
fn write_progress_walks_through_the_bytes() {
    let buf = b"hello, vita";
    let mut p = WriteProgress::new(buf.len());
    assert_eq!(p.written(), 0);
    assert!(!p.is_done());
    assert_eq!(p.rest(buf), &buf[..]);
    assert!(p.advance(4));
    assert_eq!(p.written(), 4);
    assert_eq!(p.rest(buf), b"o, vita");
    assert!(p.advance(7));
    assert!(p.is_done());
    assert_eq!(p.rest(buf), b"");
}

#[test]
fn write_progress_refuses_nothing_or_too_much() {
    let buf = b"abc";
    let mut p = WriteProgress::new(buf.len());
    assert!(!p.advance(0));
    assert_eq!(p.written(), 0);
    assert!(!p.advance(4));
    assert_eq!(p.written(), 0);
    assert!(p.advance(2));
    assert!(!p.advance(2));
    assert_eq!(p.written(), 2);
    assert!(p.advance(1));
    assert!(p.is_done());
}

#[test]
fn write_progress_of_an_empty_string_is_done() {
    let p = WriteProgress::new(0);
    assert!(p.is_done());
    assert_eq!(p.rest(b""), b"");
}

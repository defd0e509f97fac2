use std::io;
use xattr::noattr::{classify_noattr, extract_noattr};

fn noattr_code() -> i32 {
    rustix::io::Errno::NODATA.raw_os_error()
}

#[test]
fn data_is_present() {
    let r = extract_noattr(Ok(vec![1u8, 2, 3]), noattr_code()).unwrap();
    assert_eq!(r, Some(vec![1u8, 2, 3]));
}

#[test]
fn empty_data_is_present() {
    let r = extract_noattr(Ok(Vec::new()), noattr_code()).unwrap();
    assert_eq!(r, Some(Vec::new()));
}

#[test]
fn missing_attribute_is_absent() {
    let e = io::Error::from_raw_os_error(noattr_code());
    let r = extract_noattr(Err(e), noattr_code()).unwrap();
    assert_eq!(r, None);
}

#[test]
fn other_os_failure_is_kept() {
    let code = rustix::io::Errno::IO.raw_os_error();
    let r = extract_noattr(Err(io::Error::from_raw_os_error(code)), noattr_code());
    let e = r.unwrap_err();
    assert_eq!(e.raw_os_error(), Some(code));
}

#[test]
fn failure_without_code_is_kept() {
    let r = extract_noattr(Err(io::Error::new(io::ErrorKind::Other, "boom")), noattr_code());
    let e = r.unwrap_err();
    assert_eq!(e.raw_os_error(), None);
    assert_eq!(e.kind(), io::ErrorKind::Other);
    assert_eq!(e.to_string(), "boom");
}

#[test]
fn classify_with_given_codes() {
    let r = classify_noattr(Err(io::Error::from_raw_os_error(7)), Some(7), 7).unwrap();
    assert_eq!(r, None);
    let r = classify_noattr(Err(io::Error::from_raw_os_error(5)), Some(5), 7);
    assert_eq!(r.unwrap_err().raw_os_error(), Some(5));
    let r = classify_noattr(Err(io::Error::new(io::ErrorKind::Other, "x")), None, 7);
    assert!(r.is_err());
    let r = classify_noattr(Ok(vec![9u8]), Some(7), 7).unwrap();
    assert_eq!(r, Some(vec![9u8]));
}

#[test]
fn noattr_code_is_the_given_one() {
    let r = extract_noattr(Err(io::Error::from_raw_os_error(93)), 93).unwrap();
    assert_eq!(r, None);
    let r = extract_noattr(Err(io::Error::from_raw_os_error(96)), 93);
    assert_eq!(r.unwrap_err().raw_os_error(), Some(96));
}

use freestring::{FreeString, FromBytesWithNulError, NulError};

#[test]
fn new_appends_terminator() {
    let s = FreeString::new(b"hello").unwrap();
    assert_eq!(s.as_slice(), &b"hello\0"[..]);
}

#[test]
fn new_rejects_first_nul() {
    let e = FreeString::new(b"ab\0cd\0").unwrap_err();
    assert_eq!(e, NulError(2));
}

#[test]
fn new_rejects_leading_nul() {
    let e = FreeString::new(b"\0abc").unwrap_err();
    assert_eq!(e, NulError(0));
}

#[test]
fn new_empty_input_gives_lone_terminator() {
    let s = FreeString::new(b"").unwrap();
    assert_eq!(s.as_slice(), &[0u8][..]);
}

#[test]
fn from_bytes_with_nul_copies_verbatim() {
    let s = FreeString::from_bytes_with_nul(b"abc\0").unwrap();
    assert_eq!(s.as_slice(), &b"abc\0"[..]);
}

#[test]
fn from_bytes_with_nul_lone_terminator() {
    let s = FreeString::from_bytes_with_nul(b"\0").unwrap();
    assert_eq!(s.as_slice(), &[0u8][..]);
}

#[test]
fn from_bytes_with_nul_missing_terminator() {
    let e = FreeString::from_bytes_with_nul(b"abc").unwrap_err();
    assert_eq!(e, FromBytesWithNulError::NotNulTerminated);
}

#[test]
fn from_bytes_with_nul_empty_input() {
    let e = FreeString::from_bytes_with_nul(b"").unwrap_err();
    assert_eq!(e, FromBytesWithNulError::NotNulTerminated);
}

#[test]
fn from_bytes_with_nul_interior_nul() {
    let e = FreeString::from_bytes_with_nul(b"a\0b\0").unwrap_err();
    assert_eq!(e, FromBytesWithNulError::InteriorNul(1));
}

#[test]
fn c_str_view_round_trip() {
    let s = FreeString::new(b"hi").unwrap();
    let view = s.as_c_str();
    assert_eq!(view.to_bytes(), &b"hi"[..]);
    assert_eq!(view.to_bytes_with_nul(), &b"hi\0"[..]);
}

#[test]
fn c_str_view_of_empty_content() {
    let s = FreeString::new(b"").unwrap();
    let view = s.as_c_str();
    assert_eq!(view.to_bytes(), &b""[..]);
    assert_eq!(view.to_bytes_with_nul(), &[0u8][..]);
}

#[test]
fn from_raw_recovers_constructed_length() {
    let s = FreeString::new(b"hello").unwrap();
    let buf = s.as_raw().to_vec();
    let t = FreeString::from_raw(buf);
    assert_eq!(t.as_slice().len(), s.as_slice().len());
    assert_eq!(t.as_slice(), s.as_slice());
}

#[test]
fn from_raw_scans_to_first_nul() {
    let t = FreeString::from_raw(vec![65u8, 0u8, 66u8, 67u8]);
    assert_eq!(t.as_slice(), &[65u8, 0u8][..]);
}

#[test]
fn from_raw_parts_keeps_buffer() {
    let t = FreeString::from_raw_parts(vec![97u8, 98u8, 0u8]);
    assert_eq!(t.as_slice(), &[97u8, 98u8, 0u8][..]);
}

#[test]
fn from_bytes_unchecked_appends_terminator() {
    let s = FreeString::from_bytes_unchecked(b"xy");
    assert_eq!(s.as_slice(), &b"xy\0"[..]);
}

#[test]
fn from_bytes_with_nul_unchecked_verbatim() {
    let s = FreeString::from_bytes_with_nul_unchecked(b"z\0");
    assert_eq!(s.as_slice(), &b"z\0"[..]);
}

#[test]
fn as_raw_matches_as_slice() {
    let s = FreeString::new(b"ptr").unwrap();
    assert_eq!(s.as_raw(), s.as_slice());
    assert_eq!(s.as_raw().last(), Some(&0u8));
}

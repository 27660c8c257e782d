use cbind::cstring::{unicode_into_c_string, IntoCString, OwnedCString};
use cbind::error::Error;

#[test]
fn round_trip_bytes() {
    let content = b"refs/heads/main".to_vec();
    let c = OwnedCString::new(content.clone()).unwrap();
    assert_eq!(c.as_bytes(), &content[..]);
    assert_eq!(c.len(), content.len());
    let mut with_nul = content;
    with_nul.push(0);
    assert_eq!(c.as_bytes_with_nul(), &with_nul[..]);
    assert_eq!(c.into_bytes_with_nul(), with_nul);
}

#[test]
fn interior_nul_rejected_in_bytes() {
    let r = OwnedCString::new(b"bad\0name".to_vec());
    assert_eq!(r.unwrap_err(), Error::InvalidCString);
}

#[test]
fn interior_nul_rejected_in_text() {
    let r = "bad\0name".into_c_string();
    assert_eq!(r.unwrap_err(), Error::InvalidCString);
}

#[test]
fn leading_and_trailing_nul_rejected() {
    assert_eq!(
        OwnedCString::new(b"\0abc".to_vec()).unwrap_err(),
        Error::InvalidCString
    );
    assert_eq!(
        OwnedCString::new(b"abc\0".to_vec()).unwrap_err(),
        Error::InvalidCString
    );
}

#[test]
fn empty_content_is_valid() {
    let c = OwnedCString::new(Vec::new()).unwrap();
    assert_eq!(c.len(), 0);
    assert_eq!(c.as_bytes(), &b""[..]);
    assert_eq!(c.as_bytes_with_nul(), &b"\0"[..]);
}

#[test]
fn str_conversion_uses_utf8_bytes() {
    let c = "héllo".into_c_string().unwrap();
    assert_eq!(c.as_bytes(), "héllo".as_bytes());
    assert_eq!(c.len(), "héllo".len());
}

#[test]
fn string_conversion() {
    let c = String::from("origin").into_c_string().unwrap();
    assert_eq!(c.as_bytes(), &b"origin"[..]);
}

#[test]
fn byte_slice_conversion() {
    let bytes: &[u8] = b"a slice";
    let c = bytes.into_c_string().unwrap();
    assert_eq!(c.as_bytes(), bytes);
}

#[test]
fn owned_c_string_identity_conversion() {
    let c = OwnedCString::new(b"same".to_vec()).unwrap();
    let again = c.into_c_string().unwrap();
    assert_eq!(again.as_bytes(), &b"same"[..]);
}

#[test]
fn borrowed_string_conversion() {
    let s = String::from("refs/remotes");
    let c = (&s).into_c_string().unwrap();
    assert_eq!(c.as_bytes(), s.as_bytes());
}

#[test]
fn borrowed_vec_conversion() {
    let v = b"some bytes".to_vec();
    let c = (&v).into_c_string().unwrap();
    assert_eq!(c.as_bytes(), &v[..]);
}

#[test]
fn borrowed_owned_c_string_conversion() {
    let c = OwnedCString::new(b"shared".to_vec()).unwrap();
    let copy = (&c).into_c_string().unwrap();
    assert_eq!(copy.as_bytes(), c.as_bytes());
}

#[test]
fn unicode_text_none_is_unsupported_encoding() {
    let r = unicode_into_c_string(None);
    assert_eq!(r.unwrap_err(), Error::UnsupportedEncoding);
}

#[test]
fn unicode_text_some_converts() {
    let c = unicode_into_c_string(Some(String::from("refs/tags/v1"))).unwrap();
    assert_eq!(c.as_bytes(), &b"refs/tags/v1"[..]);
}

#[test]
fn unicode_text_some_with_nul_is_invalid() {
    let r = unicode_into_c_string(Some(String::from("a\0b")));
    assert_eq!(r.unwrap_err(), Error::InvalidCString);
}

#[test]
fn error_messages_are_distinct() {
    assert!(!Error::InvalidCString.message().is_empty());
    assert!(!Error::UnsupportedEncoding.message().is_empty());
    assert_ne!(
        Error::InvalidCString.message(),
        Error::UnsupportedEncoding.message()
    );
}

use uefi_model::error::Error;
use uefi_model::status::{
    Status, BUFFER_TOO_SMALL, ERROR_BIT, HTTP_ERROR, INVALID_PARAMETER, NOT_FOUND, OUT_OF_RESOURCES, SUCCESS,
    WARN_UNKNOWN_GLYPH,
};
use uefi_model::text::{
    chars_of, push_alt_hex_upper, push_decimal, push_decimal_padded, push_hex_lower_fixed, push_hex_upper, str_eq,
    string_of,
};

#[test]
fn status_kinds() {
    assert!(Status(SUCCESS).is_success());
    assert!(!Status(SUCCESS).is_error());
    assert!(Status(WARN_UNKNOWN_GLYPH).is_warning());
    assert!(Status(NOT_FOUND).is_error());
    assert!(!Status(NOT_FOUND).is_warning());
    assert_eq!(ERROR_BIT, 1usize << (usize::BITS - 1));
    assert_eq!(NOT_FOUND, ERROR_BIT | 14);
}

#[test]
fn error_statuses() {
    assert_eq!(Error::WarnUnknownGlyph.status(), Status(WARN_UNKNOWN_GLYPH));
    assert_eq!(Error::InvalidParameter.status(), Status(INVALID_PARAMETER));
    assert_eq!(Error::BufferTooSmall(42).status(), Status(BUFFER_TOO_SMALL));
    assert_eq!(Error::OutOfResources.status(), Status(OUT_OF_RESOURCES));
    assert_eq!(Error::NotFound.status(), Status(NOT_FOUND));
    assert_eq!(Error::HttpError.status(), Status(HTTP_ERROR));
    assert_eq!(Error::EndOfFile.status(), Status(ERROR_BIT | 31));
    assert_eq!(Error::CrcError.status(), Status(ERROR_BIT | 27));
}

#[test]
fn decimal_text() {
    let mut s = String::new();
    push_decimal(&mut s, 0);
    s.push(' ');
    push_decimal(&mut s, 1234567890123);
    s.push(' ');
    push_decimal_padded(&mut s, 7, 3);
    s.push(' ');
    push_decimal_padded(&mut s, 12345, 3);
    assert_eq!(s, "0 1234567890123 007 12345");
}

#[test]
fn hex_text() {
    let mut s = String::new();
    push_hex_upper(&mut s, 0xBE1AFDFA);
    s.push(' ');
    push_alt_hex_upper(&mut s, 0x1f);
    s.push(' ');
    push_alt_hex_upper(&mut s, 0);
    s.push(' ');
    push_hex_lower_fixed(&mut s, 0x12ab, 8);
    assert_eq!(s, "BE1AFDFA 0x1F 0x0 000012ab");
    assert_eq!(format!("{:#X}", 0xfbfc1u64), {
        let mut t = String::new();
        push_alt_hex_upper(&mut t, 0xfbfc1);
        t
    });
}

#[test]
fn strings() {
    assert!(str_eq("abc", "abc"));
    assert!(!str_eq("abc", "abd"));
    assert!(!str_eq("abc", "ab"));
    assert_eq!(string_of("héllo"), "héllo");
    assert_eq!(chars_of("héllo"), vec!['h', 'é', 'l', 'l', 'o']);
}

use grust::util::{escape_bytestring, is_false, is_true};

#[test]
fn foreign_booleans() {
    assert!(!is_true(0));
    assert!(is_true(1));
    assert!(is_true(-7));
    assert!(is_false(0));
    assert!(!is_false(2));
}

#[test]
fn ascii_bytes_pass_unchanged() {
    assert_eq!(escape_bytestring(b"hello"), "hello");
    assert_eq!(escape_bytestring(b"a\n\"b\\"), "a\n\"b\\");
    assert_eq!(escape_bytestring(b""), "");
}

#[test]
fn non_ascii_bytes_escape_everything() {
    assert_eq!(escape_bytestring(&[0xff, b'a', b'\n', b'"']), "\\xffa\\n\\\"");
    assert_eq!(escape_bytestring(&[0x80, b'\t', b'\r', b'\'', b'\\', 0x01]), "\\x80\\t\\r\\'\\\\\\x01");
}

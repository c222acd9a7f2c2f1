use llvm_wrap::text::{c_name, text_bytes, TextError};

#[test]
fn name_gets_terminator() {
    assert_eq!(c_name("entry"), Ok(vec![b'e', b'n', b't', b'r', b'y', 0]));
}

#[test]
fn empty_name_is_just_terminator() {
    assert_eq!(c_name(""), Ok(vec![0]));
}

#[test]
fn name_with_nul_is_refused() {
    assert_eq!(c_name("a\0b"), Err(TextError::InvalidName));
    assert_eq!(c_name("\0"), Err(TextError::InvalidName));
}

#[test]
fn text_bytes_are_utf8() {
    assert_eq!(text_bytes("é"), Some(vec![0xc3, 0xa9]));
    assert_eq!(text_bytes("x\0"), None);
}

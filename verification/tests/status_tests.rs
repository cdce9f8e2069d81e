use dero_c::status::error_message;
use dero_c::{ERR_CONVERT, ERR_NULL, ERR_PANIC, ERR_UTF8, OK};

#[test]
fn it_works() {
}

#[test]
fn defined_codes_have_their_messages() {
    assert_eq!(error_message(OK), "no error");
    assert_eq!(error_message(ERR_NULL), "the text pointer is null");
    assert_eq!(error_message(ERR_UTF8), "invalid UTF-8 in text");
    assert_eq!(error_message(ERR_CONVERT), "the full text could not be converted");
    assert_eq!(error_message(ERR_PANIC), "the converter panicked");
}

#[test]
fn undefined_codes_get_the_fallback() {
    assert_eq!(error_message(1), "unknown error");
    assert_eq!(error_message(-4), "unknown error");
    assert_eq!(error_message(i32::MIN), "unknown error");
    assert_eq!(error_message(i32::MAX), "unknown error");
}

#[test]
fn messages_are_nonempty_and_nul_free() {
    let codes = [OK, ERR_NULL, ERR_UTF8, ERR_CONVERT, ERR_PANIC, 7, -100];
    for code in codes {
        let message = error_message(code);
        assert!(!message.is_empty());
        assert!(!message.as_bytes().contains(&0));
    }
}

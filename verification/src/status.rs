//! Status codes of the boundary and their human-readable messages.

use vstd::prelude::*;

verus! {

/// The call succeeded.
pub const OK: i32 = 0;

/// The caller's text pointer was null.
pub const ERR_NULL: i32 = -1;

/// The input bytes were not valid UTF-8, or the converted text could not
/// be represented as a NUL-terminated buffer.
pub const ERR_UTF8: i32 = -2;

/// The converter rejected the text.
pub const ERR_CONVERT: i32 = -3;

/// An unexpected fault was caught at the boundary.
pub const ERR_PANIC: i32 = -128;

/// True for the status codes the boundary defines; every other integer
/// maps to the generic fallback message.
pub open spec fn is_defined_code(code: i32) -> bool {
    code == OK || code == ERR_NULL || code == ERR_UTF8 || code == ERR_CONVERT || code == ERR_PANIC
}

/// The message that belongs to a status code; undefined codes share the
/// generic fallback.
pub open spec fn message_of(code: i32) -> Seq<char> {
    if code == OK {
        "no error"@
    } else if code == ERR_NULL {
        "the text pointer is null"@
    } else if code == ERR_UTF8 {
        "invalid UTF-8 in text"@
    } else if code == ERR_CONVERT {
        "the full text could not be converted"@
    } else if code == ERR_PANIC {
        "the converter panicked"@
    } else {
        "unknown error"@
    }
}

/// Looks a status code up in the fixed message table. Total: any integer,
/// defined or not, gets a message.
pub fn error_message(code: i32) -> (r: String)
    ensures
        r@ == message_of(code),
{
    if code == OK {
        "no error".to_owned()
    } else if code == ERR_NULL {
        "the text pointer is null".to_owned()
    } else if code == ERR_UTF8 {
        "invalid UTF-8 in text".to_owned()
    } else if code == ERR_CONVERT {
        "the full text could not be converted".to_owned()
    } else if code == ERR_PANIC {
        "the converter panicked".to_owned()
    } else {
        "unknown error".to_owned()
    }
}

/// Every status code, defined or not, has a message; the message is never
/// empty and never holds a NUL character, so it can always be handed to a
/// C caller as a NUL-terminated string; undefined codes get the fallback.
pub proof fn lemma_message_wf(code: i32)
    ensures
        message_of(code).len() > 0,
        forall|i: int| 0 <= i < message_of(code).len() ==> message_of(code)[i] != '\0',
        !is_defined_code(code) ==> message_of(code) == "unknown error"@,
{
    reveal_strlit("no error");
    reveal_strlit("the text pointer is null");
    reveal_strlit("invalid UTF-8 in text");
    reveal_strlit("the full text could not be converted");
    reveal_strlit("the converter panicked");
    reveal_strlit("unknown error");
}

} // verus!

//! The decision logic of the convert and explanation entry points.
//!
//! A convert call runs in two phases around the outside conversion
//! capability. [`convert_request`] validates and decodes the caller's
//! buffer; the caller then hands the decoded text to the capability and
//! passes the outcome to [`convert_response`], which re-encodes the
//! converted text as a NUL-terminated buffer or maps the failure to a
//! status code. [`explain_diagnostic`] makes the corresponding decision
//! for the diagnostic-only entry point.

use crate::status::{is_defined_code, ERR_CONVERT, ERR_NULL, ERR_UTF8, OK};
use vstd::prelude::*;
use vstd::string::StrSliceExecFns;
use vstd::utf8::{decode_utf8, encode_utf8, encode_utf8_decode_utf8, encode_utf8_valid_utf8, valid_utf8};

verus! {

/// True when the byte sequence holds a NUL byte, which makes it
/// unrepresentable as a NUL-terminated buffer.
pub open spec fn has_nul_byte(bytes: Seq<u8>) -> bool {
    exists|i: int| 0 <= i < bytes.len() && bytes[i] == 0u8
}

/// What a convert call hands back: either the owned, NUL-terminated
/// output buffer, or the status code of the first failed step.
#[derive(Debug, PartialEq, Eq)]
pub enum ConvertResult {
    Converted(Vec<u8>),
    Failed(i32),
}

impl ConvertResult {
    /// The status code this result reports across the boundary.
    pub open spec fn status_spec(&self) -> i32 {
        match self {
            ConvertResult::Converted(_) => OK,
            ConvertResult::Failed(code) => *code,
        }
    }

    pub fn status(&self) -> (r: i32)
        ensures
            r == self.status_spec(),
    {
        match self {
            ConvertResult::Converted(_) => OK,
            ConvertResult::Failed(code) => *code,
        }
    }
}

/// Relies on str::from_utf8: it succeeds exactly when the bytes are valid
/// UTF-8, and the returned string's bytes are the input bytes.
#[verifier::external_body]
fn utf8_to_string(bytes: &[u8]) -> (r: Option<String>)
    ensures
        r is Some <==> valid_utf8(bytes@),
        r matches Some(s) ==> encode_utf8(s@) == bytes@,
{
    match core::str::from_utf8(bytes) {
        Ok(s) => Some(s.to_owned()),
        Err(_) => None,
    }
}

/// The first phase of a convert call: validate and decode the caller's
/// buffer. `None` stands for a null text pointer; `Some` holds the bytes
/// up to (not including) the terminating NUL.
pub fn convert_request(text: Option<&[u8]>) -> (r: Result<String, i32>)
    ensures
        match text {
            None => r == Err::<String, i32>(ERR_NULL),
            Some(b) => if valid_utf8(b@) {
                &&& r is Ok
                &&& r->Ok_0@ == decode_utf8(b@)
                &&& encode_utf8(r->Ok_0@) == b@
            } else {
                r == Err::<String, i32>(ERR_UTF8)
            },
        },
        r is Err ==> is_defined_code(r->Err_0) && r->Err_0 != OK,
{
    match text {
        None => Err(ERR_NULL),
        Some(bytes) => match utf8_to_string(bytes) {
            None => Err(ERR_UTF8),
            Some(s) => {
                proof {
                    encode_utf8_decode_utf8(s@);
                }
                Ok(s)
            },
        },
    }
}

fn contains_nul(bytes: &Vec<u8>) -> (r: bool)
    ensures
        r == has_nul_byte(bytes@),
{
    let mut i: usize = 0;
    while i < bytes.len()
        invariant
            i <= bytes.len(),
            forall|j: int| 0 <= j < i ==> bytes@[j] != 0u8,
        decreases bytes.len() - i,
    {
        if bytes[i] == 0 {
            return true;
        }
        i += 1;
    }
    false
}

/// The second phase of a convert call: package the conversion
/// capability's outcome. `None` stands for a rejected text and maps to
/// `ERR_CONVERT`; a converted text whose encoding holds a NUL byte cannot
/// be represented as a NUL-terminated buffer and maps to `ERR_UTF8`; any
/// other converted text becomes the owned output buffer, whose bytes are
/// the text's UTF-8 encoding followed by one terminating NUL, and whose
/// content therefore decodes back to the capability's output exactly.
pub fn convert_response(outcome: Option<String>) -> (r: ConvertResult)
    ensures
        match outcome {
            None => r == ConvertResult::Failed(ERR_CONVERT),
            Some(s) => if has_nul_byte(encode_utf8(s@)) {
                r == ConvertResult::Failed(ERR_UTF8)
            } else {
                &&& r is Converted
                &&& r->Converted_0@ == encode_utf8(s@).push(0u8)
                &&& r->Converted_0@.len() > 0
                &&& r->Converted_0@[r->Converted_0@.len() - 1] == 0u8
                &&& valid_utf8(r->Converted_0@.drop_last())
                &&& decode_utf8(r->Converted_0@.drop_last()) == s@
            },
        },
        is_defined_code(r.status_spec()),
        r is Converted <==> r.status_spec() == OK,
{
    match outcome {
        None => ConvertResult::Failed(ERR_CONVERT),
        Some(s) => {
            let mut bytes = s.as_str().as_bytes_vec();
            if contains_nul(&bytes) {
                return ConvertResult::Failed(ERR_UTF8);
            }
            bytes.push(0);
            proof {
                assert(bytes@.drop_last() =~= encode_utf8(s@));
                encode_utf8_valid_utf8(s@);
                encode_utf8_decode_utf8(s@);
            }
            ConvertResult::Converted(bytes)
        },
    }
}

/// What the diagnostic-only entry point decides to do.
#[derive(Debug, PartialEq, Eq)]
pub enum Diagnostic {
    /// The text pointer was null: write the null-pointer message.
    NullPointer,
    /// The bytes were not valid UTF-8: write the decode-failure message.
    Unreadable,
    /// The capability accepted the text: write the no-error message.
    NoError,
    /// The capability rejected the text: have it print its own
    /// explanation for the original text.
    ConversionError,
}

/// The decision of the explanation printer: which diagnostic belongs to a
/// caller's buffer, given whether the conversion capability accepted the
/// decoded text. `accepted` is consulted only where the buffer decodes.
pub fn explain_diagnostic(text: Option<&[u8]>, accepted: bool) -> (d: Diagnostic)
    ensures
        match text {
            None => d == Diagnostic::NullPointer,
            Some(b) => if !valid_utf8(b@) {
                d == Diagnostic::Unreadable
            } else if accepted {
                d == Diagnostic::NoError
            } else {
                d == Diagnostic::ConversionError
            },
        },
{
    match convert_request(text) {
        Err(code) => {
            if code == ERR_NULL {
                Diagnostic::NullPointer
            } else {
                Diagnostic::Unreadable
            }
        },
        Ok(_) => {
            if accepted {
                Diagnostic::NoError
            } else {
                Diagnostic::ConversionError
            }
        },
    }
}

/// The fixed message a diagnostic writes to standard error, or `None` for
/// the conversion-error diagnostic, whose explanation the capability
/// prints itself.
pub fn diagnostic_message(d: &Diagnostic) -> (r: Option<String>)
    ensures
        d == Diagnostic::NullPointer ==> (r matches Some(s) && s@ == "The text pointer is null"@),
        d == Diagnostic::Unreadable ==> (r matches Some(s) && s@ == "Could not read text"@),
        d == Diagnostic::NoError ==> (r matches Some(s) && s@ == "No error found"@),
        d == Diagnostic::ConversionError ==> r is None,
{
    match d {
        Diagnostic::NullPointer => Some("The text pointer is null".to_owned()),
        Diagnostic::Unreadable => Some("Could not read text".to_owned()),
        Diagnostic::NoError => Some("No error found".to_owned()),
        Diagnostic::ConversionError => None,
    }
}

} // verus!

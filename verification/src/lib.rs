//! A memory-safe boundary around a text-conversion capability.
//!
//! The library holds the decision logic of a C-callable surface: status
//! codes, the error-message table, and the validation and re-encoding
//! steps that turn a caller's raw byte buffer into a converted, owned,
//! NUL-terminated output buffer. The conversion capability itself is an
//! outside collaborator; each call's outcome is handed back in as a plain
//! value. Raw pointers, panic containment and the standard-error
//! diagnostics live in the thin unverified shell around the library.

pub mod boundary;
pub mod status;

pub use status::{ERR_CONVERT, ERR_NULL, ERR_PANIC, ERR_UTF8, OK};

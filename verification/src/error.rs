//! The error type shared by the whole renderer layer.

use vstd::prelude::*;

verus! {

/// A descriptive error carrying a human-readable message and an optional
/// wrapped cause.
///
/// Every fallible operation of this crate reports its failure through this
/// one type; the message says what was being done when the failure
/// occurred, and the cause, when present, carries the underlying failure's
/// own text.
#[derive(Debug)]
pub struct HalaRendererError {
    pub msg: String,
    pub cause: Option<String>,
}

impl HalaRendererError {
    /// Create a new error from its message and an optional wrapped cause.
    pub fn new(msg: &str, cause: Option<String>) -> (r: Self)
        ensures
            r.msg@ == msg@,
            r.cause == cause,
    {
        Self { msg: msg.to_string(), cause }
    }

    /// The message the error was created with.
    pub fn message(&self) -> (r: &str)
        ensures
            r@ == self.msg@,
    {
        self.msg.as_str()
    }
}

/// Relies on `std::format!` to splice one number into a message or debug
/// name; nothing is claimed about the resulting text.
#[verifier::external_body]
pub fn format_index_message(prefix: &str, index: usize, suffix: &str) -> String {
    format!("{}{}{}", prefix, index, suffix)
}

/// Relies on `std::format!` to splice two numbers into a message or debug
/// name; nothing is claimed about the resulting text.
#[verifier::external_body]
pub fn format_two_index_message(
    prefix: &str,
    first: usize,
    middle: &str,
    second: usize,
    suffix: &str,
) -> String {
    format!("{}{}{}{}{}", prefix, first, middle, second, suffix)
}

} // verus!

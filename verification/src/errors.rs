//! The closed error type for file operations.

use vstd::prelude::*;

verus! {

/// Why an encrypt or decrypt operation failed.
///
/// `ReadFailure` and `WriteFailure` carry the underlying I/O cause as text;
/// `EmptyPassword` is a validation failure independent of any I/O.
#[derive(Debug, Clone)]
pub enum CryptoError {
    /// The input file could not be read.
    ReadFailure(String),
    /// The output file could not be written.
    WriteFailure(String),
    /// The password was empty, so no keystream can be derived.
    EmptyPassword,
}

} // verus!

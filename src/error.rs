//! The errors that reading a password can end in.

use vstd::prelude::*;

verus! {

/// An I/O error of the standard library, carried through unchanged.
#[verifier::external_type_specification]
#[verifier::external_body]
pub struct ExIoError(std::io::Error);

/// Why a password could not be read.
#[derive(Debug)]
pub enum PasswordError {
    /// The input ended before a line feed terminated the line.
    UnexpectedEndOfInput,
    /// The system call that queries or sets the terminal mode failed, with
    /// the platform's error code.
    OsError(i32),
    /// Reading from or writing to a stream failed.
    Io(std::io::Error),
}

} // verus!

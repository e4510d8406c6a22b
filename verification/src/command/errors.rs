//! What can go wrong when the text that a command prints is fetched.

use std::string::FromUtf8Error;
use vstd::prelude::*;
use vstd::std_specs::convert::FromSpecImpl;

verus! {

/// The standard library's I/O error. The library hands it on unread.
#[verifier::external_type_specification]
#[verifier::external_body]
pub struct ExIoError(std::io::Error);

/// The standard library's error for bytes that are not UTF-8. The library
/// hands it on unread.
#[verifier::external_type_specification]
#[verifier::external_body]
pub struct ExFromUtf8Error(FromUtf8Error);

/// Why the text of a command could not be had: the command could not be run,
/// or what it printed is not UTF-8.
#[derive(Debug)]
pub enum GetCommandStringError {
    IoError(std::io::Error),
    FromUtf8Error(FromUtf8Error),
}

impl From<FromUtf8Error> for GetCommandStringError {
    fn from(err: FromUtf8Error) -> (error: GetCommandStringError) {
        GetCommandStringError::FromUtf8Error(err)
    }
}

impl FromSpecImpl<FromUtf8Error> for GetCommandStringError {
    open spec fn obeys_from_spec() -> bool {
        true
    }

    open spec fn from_spec(err: FromUtf8Error) -> GetCommandStringError {
        GetCommandStringError::FromUtf8Error(err)
    }
}

impl From<std::io::Error> for GetCommandStringError {
    fn from(err: std::io::Error) -> (error: GetCommandStringError) {
        GetCommandStringError::IoError(err)
    }
}

impl FromSpecImpl<std::io::Error> for GetCommandStringError {
    open spec fn obeys_from_spec() -> bool {
        true
    }

    open spec fn from_spec(err: std::io::Error) -> GetCommandStringError {
        GetCommandStringError::IoError(err)
    }
}

/// The text that the standard library gives an I/O error when it is
/// displayed. It may depend on the system, so nothing is claimed of it.
#[verifier::external_body]
fn io_error_text(err: &std::io::Error) -> String {
    format!("{}", err)
}

/// The text that the standard library gives a UTF-8 error when it is
/// displayed. Nothing is claimed of it.
#[verifier::external_body]
fn utf8_error_text(err: &FromUtf8Error) -> String {
    format!("{}", err)
}

impl GetCommandStringError {
    /// The error as text: what the standard library displays for the error
    /// that it holds. That text is the standard library's own and, for an
    /// I/O error, may differ from one system to the next, so nothing is
    /// claimed of it.
    pub fn message(&self) -> String {
        match self {
            GetCommandStringError::IoError(err) => io_error_text(err),
            GetCommandStringError::FromUtf8Error(err) => utf8_error_text(err),
        }
    }
}

} // verus!

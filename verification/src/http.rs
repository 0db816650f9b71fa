//! HTTP messages.

pub mod body;
pub mod header;
pub mod res;
pub mod status;

use vstd::prelude::*;

verus! {

/// The parser's own error, carried as it comes.
#[verifier::external_type_specification]
#[verifier::external_body]
pub struct ExParseError(httparse::Error);

/// Why a message could not be read.
#[derive(Debug)]
pub enum HttpError {
    /// The bytes are no HTTP message.
    Malformed(httparse::Error),
    /// The message ends before its head does.
    Incomplete,
    /// The head was read and held no status code.
    NoStatusCode,
    /// The status code stands for no status known here.
    UnknownStatus(u16),
}

} // verus!

//! The failures that a request can end in.

use std::str::Utf8Error;
use vstd::prelude::*;

verus! {

/// `core::str::Utf8Error`, carried through as an opaque value.
#[verifier::external_type_specification]
#[verifier::external_body]
pub struct ExUtf8Error(Utf8Error);

/// Every way in which an operation of the catalog can fail.
///
/// Failures raised by collaborators outside this library (the command line,
/// the field scanner, the store, the transport) arrive as their rendered
/// message. Failures found by the library itself keep the value that
/// describes them.
#[derive(Debug)]
pub enum ErrorKind {
    /// A failure described only by its message.
    Msg(String),
    /// A formatting failure.
    Fmt(String),
    /// An input or output failure.
    Io(String),
    /// The command line could not be understood.
    Cli(String),
    /// The field scanner rejected its queries or the payload.
    Pikkr(String),
    /// The store failed to open, to query or to transact.
    Mentat(String),
    /// A field of the payload is not UTF-8.
    Str(Utf8Error),
    /// An owned byte string is not UTF-8.
    String(String),
    /// The result count of the payload is not an integer; with the text
    /// that stands in its place.
    Parse(String),
    /// The transport or a mailbox failed.
    Failure(String),
    /// The lock of the shared cache was poisoned.
    Poisoned(String),
}

} // verus!

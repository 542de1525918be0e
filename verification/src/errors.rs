//! The error type shared by the encoder, the printer and the drivers.

use vstd::prelude::*;

verus! {

/// What can go wrong while a document is built or delivered.
#[derive(Debug, PartialEq, Eq)]
pub enum PrinterError {
    /// A parameter lies outside the range the device documents.
    InvalidOption,
    /// A payload breaks the length or character rules of its symbology.
    UnsupportedSymbology,
    /// An encoded payload is longer than its command can carry.
    PayloadTooLarge,
    /// The transport failed; the text says at which step.
    Io(String),
    /// A collaborator that prepares images or symbols failed.
    EncodingFailure,
}

impl PrinterError {
    /// The text carried by an `Io` error, empty for the other kinds.
    pub open spec fn io_text(self) -> Seq<char> {
        match self {
            PrinterError::Io(text) => text@,
            _ => Seq::empty(),
        }
    }

    /// A short description of the error for diagnostics.
    pub fn message(&self) -> (text: String)
        ensures
            text@ == match *self {
                PrinterError::InvalidOption => "invalid option"@,
                PrinterError::UnsupportedSymbology => "unsupported symbology"@,
                PrinterError::PayloadTooLarge => "payload too large"@,
                PrinterError::Io(t) => t@,
                PrinterError::EncodingFailure => "encoding failure"@,
            },
    {
        match self {
            PrinterError::InvalidOption => "invalid option".to_owned(),
            PrinterError::UnsupportedSymbology => "unsupported symbology".to_owned(),
            PrinterError::PayloadTooLarge => "payload too large".to_owned(),
            PrinterError::Io(t) => t.clone(),
            PrinterError::EncodingFailure => "encoding failure".to_owned(),
        }
    }
}

} // verus!

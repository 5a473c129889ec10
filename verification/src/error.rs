//! What can go wrong when the image is written out.

use vstd::prelude::*;
use vstd::std_specs::convert::FromSpecImpl;

verus! {

/// `std::io::Error`, the cause of a failed write. It is carried, never
/// looked into.
#[verifier::external_type_specification]
#[verifier::external_body]
pub struct ExIoError(std::io::Error);

/// How the image file writer failed, as the writer reports it.
#[derive(Debug)]
pub enum ExportFailure {
    /// The caller gave the write up.
    Aborted,
    /// The writer does not support what it was asked to write.
    NotSupported(String),
    /// The image is contradictory or incomplete.
    Invalid(String),
    /// The file could not be opened or written.
    Io(std::io::Error),
}

/// The terminal error of a render.
#[derive(Debug)]
pub enum Error {
    /// The output file could not be opened or written.
    ExrSave(std::io::Error),
    /// The writer failed for a reason of its own.
    ExrOther,
}

impl From<std::io::Error> for Error {
    fn from(error: std::io::Error) -> (e: Error) {
        Error::ExrSave(error)
    }
}

impl FromSpecImpl<std::io::Error> for Error {
    open spec fn obeys_from_spec() -> bool {
        true
    }

    open spec fn from_spec(error: std::io::Error) -> Error {
        Error::ExrSave(error)
    }
}

impl From<ExportFailure> for Error {
    /// An I/O failure keeps its cause; every other failure is folded into
    /// one.
    fn from(failure: ExportFailure) -> (e: Error) {
        match failure {
            ExportFailure::Io(error) => Error::ExrSave(error),
            ExportFailure::Aborted => Error::ExrOther,
            ExportFailure::NotSupported(_) => Error::ExrOther,
            ExportFailure::Invalid(_) => Error::ExrOther,
        }
    }
}

impl FromSpecImpl<ExportFailure> for Error {
    open spec fn obeys_from_spec() -> bool {
        true
    }

    open spec fn from_spec(failure: ExportFailure) -> Error {
        match failure {
            ExportFailure::Io(error) => Error::ExrSave(error),
            _ => Error::ExrOther,
        }
    }
}

/// Renders a `std::io::Error` as text, by its `Display` impl. Nothing is
/// claimed of the text.
#[verifier::external_body]
fn io_error_text(error: &std::io::Error) -> (text: String) {
    format!("{}", error)
}

impl Error {
    /// Whether the error has an I/O cause.
    pub fn is_io(&self) -> (r: bool)
        ensures
            r == (self is ExrSave),
    {
        match self {
            Error::ExrSave(_) => true,
            Error::ExrOther => false,
        }
    }

    /// The error in words: the cause's own words where it has one.
    pub fn message(&self) -> (text: String)
        ensures
            self is ExrOther ==> text@ == "Unhandled EXR error"@,
    {
        match self {
            Error::ExrSave(error) => io_error_text(error),
            Error::ExrOther => "Unhandled EXR error".to_string(),
        }
    }
}

} // verus!

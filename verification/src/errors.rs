//! Failure classification shared by directory reads and file opening.

use vstd::prelude::*;

verus! {

/// Classification of an operating-system failure.
#[derive(Clone, Copy, Debug, PartialEq, Eq, Structural)]
pub enum ErrorKind {
    /// The path does not exist.
    NotFound,
    /// The caller may not read or open the path.
    PermissionDenied,
    /// Any other input/output failure, including "not a directory".
    OtherIo,
}

/// A failure surfaced to the presentation layer.
#[derive(Debug, PartialEq, Eq)]
pub enum Error {
    /// A directory could not be read.
    IoError(ErrorKind),
    /// The file at the given path could not be handed to its default handler.
    OpenFileError(String, ErrorKind),
}

/// Mathematical model of an [`Error`].
pub enum ErrorView {
    IoError(ErrorKind),
    OpenFileError(Seq<char>, ErrorKind),
}

impl View for Error {
    type V = ErrorView;

    open spec fn view(&self) -> ErrorView {
        match *self {
            Error::IoError(kind) => ErrorView::IoError(kind),
            Error::OpenFileError(path, kind) => ErrorView::OpenFileError(path@, kind),
        }
    }
}

impl ErrorView {
    /// The classification carried by the failure.
    pub open spec fn kind(self) -> ErrorKind {
        match self {
            ErrorView::IoError(kind) => kind,
            ErrorView::OpenFileError(_, kind) => kind,
        }
    }
}

impl Error {
    /// The classification carried by the failure.
    pub fn kind(&self) -> (kind: ErrorKind)
        ensures
            kind == self@.kind(),
    {
        match self {
            Error::IoError(kind) => *kind,
            Error::OpenFileError(_, kind) => *kind,
        }
    }
}

} // verus!

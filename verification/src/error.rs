//! The failure kinds an operation can end with.

use vstd::prelude::*;
use vstd::string::StringExecFns;

verus! {

/// What went wrong, as a category.
#[derive(Clone, Copy, Debug, PartialEq, Eq, Structural)]
pub enum ErrorKind {
    /// A request could not be sent, or the server answered with a failure status.
    Network,
    /// A response body did not have the expected shape.
    Parse,
    /// The asset or the executable that was asked for does not exist.
    NotFound,
    /// Reading a chunk of the download failed.
    Stream,
    /// A directory or file operation failed.
    Filesystem,
    /// The downloaded bytes are not a readable archive.
    ArchiveFormat,
    /// The host refused to start the program.
    Launch,
}

/// A terminal failure of one operation: its kind and a message for the user.
#[derive(Debug)]
pub struct InstallError {
    pub kind: ErrorKind,
    pub message: String,
}

/// The mathematical value of an [`InstallError`].
pub struct ErrorView {
    pub kind: ErrorKind,
    pub message: Seq<char>,
}

impl View for InstallError {
    type V = ErrorView;

    open spec fn view(&self) -> ErrorView {
        ErrorView { kind: self.kind, message: self.message@ }
    }
}

/// The outcome of an operation that yields text, as mathematical values.
pub open spec fn outcome(r: Result<String, InstallError>) -> Result<Seq<char>, ErrorView> {
    match r {
        Ok(text) => Ok(text@),
        Err(error) => Err(error@),
    }
}

impl InstallError {
    /// An error of the given kind carrying a copy of `message`.
    pub fn new(kind: ErrorKind, message: &str) -> (e: InstallError)
        ensures
            e@ == (ErrorView { kind, message: message@ }),
    {
        InstallError { kind, message: String::from_str(message) }
    }

    /// The category of this error.
    pub fn kind(&self) -> (k: ErrorKind)
        ensures
            k == self.kind,
    {
        self.kind
    }

    /// The message, as it is shown to the user.
    pub fn to_string(&self) -> (s: String)
        ensures
            s@ == self.message@,
    {
        self.message.clone()
    }
}

} // verus!

use vstd::prelude::*;

verus! {

/// The category of an [`Error`].
#[derive(Clone, Copy, Debug, PartialEq, Eq, Structural)]
pub enum ErrorKind {
    /// The library could not be found by the loader.
    NotFound,
    /// A symbol or ordinal is missing from the library.
    InvalidInput,
    /// Any other failure the loader reported in words.
    Other,
    /// A failure reported by an operating-system error code, kept as it was given.
    Os(i32),
}

/// An error of this library: its kind and the text that describes it.
#[derive(Clone, Debug)]
pub struct Error {
    pub kind: ErrorKind,
    pub message: String,
}

impl View for Error {
    type V = (ErrorKind, Seq<char>);

    open spec fn view(&self) -> (ErrorKind, Seq<char>) {
        (self.kind, self.message@)
    }
}

impl Error {
    /// An error of the given kind and text.
    pub fn new(kind: ErrorKind, message: String) -> (r: Error)
        ensures
            r@ == (kind, message@),
    {
        Error { kind, message }
    }

    /// The kind of this error.
    pub fn kind(&self) -> (r: ErrorKind)
        ensures
            r == self.kind,
    {
        self.kind
    }

    /// The operating-system error code this error carries, if any.
    pub fn raw_os_error(&self) -> (r: Option<i32>)
        ensures
            r == (match self.kind {
                ErrorKind::Os(code) => Some(code),
                _ => None,
            }),
    {
        match self.kind {
            ErrorKind::Os(code) => Some(code),
            _ => None,
        }
    }

    /// The text of this error.
    pub fn to_string(&self) -> (r: String)
        ensures
            r@ == self.message@,
    {
        self.message.clone()
    }
}

} // verus!

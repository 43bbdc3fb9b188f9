use vstd::prelude::*;
use vstd::string::*;

verus! {

/// What went wrong: reading or writing, or the container itself.
#[derive(Clone, Copy, Debug, PartialEq, Eq, Structural)]
pub enum ErrorKind {
    Io,
    Archive,
}

/// A fatal error of a run, with the message of whatever raised it.
#[derive(Clone, Debug)]
pub struct Error {
    pub message: String,
    pub kind: ErrorKind,
}

impl Error {
    /// A container-format error carrying `message`.
    pub fn new(message: &str) -> (r: Error)
        ensures
            r.message@ == message@,
            r.kind == ErrorKind::Archive,
    {
        Error { message: String::from_str(message), kind: ErrorKind::Archive }
    }

    /// An I/O error carrying `message`.
    pub fn io(message: &str) -> (r: Error)
        ensures
            r.message@ == message@,
            r.kind == ErrorKind::Io,
    {
        Error { message: String::from_str(message), kind: ErrorKind::Io }
    }

    /// The line reported when a run aborts on this error.
    pub fn report_line(&self) -> (r: String)
        ensures
            r@ == crate::lines::error_line_of(self.message@),
    {
        crate::lines::error_line(self.message.as_str())
    }
}

} // verus!

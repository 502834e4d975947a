use vstd::prelude::*;

verus! {

/// The one kind of failure: the operating system refused a call.
#[derive(Debug, Clone, Copy, PartialEq, Eq, Structural)]
pub enum Error {
    /// An I/O error, with the error number that the operating system reported.
    Io(i32),
}

impl Error {
    /// The error number that the operating system reported.
    pub open spec fn os_error(self) -> i32 {
        match self {
            Error::Io(code) => code,
        }
    }

    /// The error number that the operating system reported.
    pub fn raw_os_error(&self) -> (code: i32)
        ensures
            code == self.os_error(),
    {
        match self {
            Error::Io(code) => *code,
        }
    }
}

} // verus!

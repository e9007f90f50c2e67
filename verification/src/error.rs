//! The failures an operation can end in.

use vstd::prelude::*;

verus! {

/// Why an operation failed.
#[derive(Clone, Copy, Debug, PartialEq, Eq)]
pub enum Error {
    /// The host reported this code for a native call that failed. Codes are
    /// handed on as the host gave them.
    Os(i32),
    /// The builder has already given its socket away.
    BuilderFinished,
    /// Exactly one address was needed and none was given.
    NoAddress,
    /// Exactly one address was needed and several were given.
    ManyAddresses,
    /// A connection was asked for and there was no address to try.
    NothingToConnect,
    /// The wait for a connection ended with no descriptor ready.
    TimedOut,
    /// The host read a socket option and reported another length for it than
    /// the option has, so that what it read cannot be trusted.
    BadLength,
}

/// The broad class of an [`Error`].
#[derive(Clone, Copy, Debug, PartialEq, Eq)]
pub enum ErrorKind {
    /// Reported by the host, with its code.
    Os,
    /// Raised by this library for a misuse or an unusable argument.
    Other,
    /// The time allowed for the operation ran out.
    TimedOut,
}

impl Error {
    /// The class of this error.
    pub open spec fn kind_spec(self) -> ErrorKind {
        match self {
            Error::Os(_) => ErrorKind::Os,
            Error::TimedOut => ErrorKind::TimedOut,
            _ => ErrorKind::Other,
        }
    }

    /// The host's code, for an error that the host reported.
    pub open spec fn raw_os_error_spec(self) -> Option<i32> {
        match self {
            Error::Os(code) => Some(code),
            _ => None,
        }
    }

    /// The class of this error.
    #[verifier::when_used_as_spec(kind_spec)]
    pub fn kind(self) -> (k: ErrorKind)
        ensures
            k == self.kind_spec(),
    {
        match self {
            Error::Os(_) => ErrorKind::Os,
            Error::TimedOut => ErrorKind::TimedOut,
            _ => ErrorKind::Other,
        }
    }

    /// The host's code, for an error that the host reported; `None` for an
    /// error that this library raised.
    #[verifier::when_used_as_spec(raw_os_error_spec)]
    pub fn raw_os_error(self) -> (code: Option<i32>)
        ensures
            code == self.raw_os_error_spec(),
    {
        match self {
            Error::Os(code) => Some(code),
            _ => None,
        }
    }

    /// A description of the error for people to read.
    pub fn message(self) -> (text: &'static str)
        ensures
            self is Os ==> text@ == "the operating system reported an error"@,
            self is BuilderFinished ==> text@ == "builder has already finished its socket"@,
            self is NoAddress ==> text@ == "no socket addresses could be resolved"@,
            self is ManyAddresses ==> text@ == "more than one address resolved"@,
            self is NothingToConnect ==> text@ == "no socket addresses resolved"@,
            self is TimedOut ==> text@ == "Connection timed out"@,
            self is BadLength ==> text@ == "socket option of unexpected length"@,
    {
        match self {
            Error::Os(_) => "the operating system reported an error",
            Error::BuilderFinished => "builder has already finished its socket",
            Error::NoAddress => "no socket addresses could be resolved",
            Error::ManyAddresses => "more than one address resolved",
            Error::NothingToConnect => "no socket addresses resolved",
            Error::TimedOut => "Connection timed out",
            Error::BadLength => "socket option of unexpected length",
        }
    }
}

} // verus!

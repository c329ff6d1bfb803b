use vstd::prelude::*;
use vstd::string::StringExecFns;

verus! {

/// The failure classes of the playback subsystem.
#[derive(Clone, Copy, Debug, PartialEq, Eq, Structural)]
pub enum ErrorKind {
    /// A lock was not acquired in time, or a handle was present or absent
    /// when the opposite was expected.
    Resource,
    /// A call into the pipeline engine failed.
    Engine,
    /// A command message could not be read or carried an unexpected tag.
    Protocol,
    /// A bounded wait ran out.
    Timeout,
}

/// An error of the playback subsystem: its class and a message for the log.
#[derive(Clone, Debug)]
pub struct AppError {
    kind: ErrorKind,
    error_message: String,
}

impl AppError {
    /// The class of this error.
    pub closed spec fn spec_kind(&self) -> ErrorKind {
        self.kind
    }

    /// The text of this error.
    pub closed spec fn spec_message(&self) -> Seq<char> {
        self.error_message@
    }

    /// An error of class `Resource`: the class of every failure around a
    /// lock or a handle, which is what most callers report.
    pub fn new(error_message: String) -> (e: Self)
        ensures
            e.spec_kind() == ErrorKind::Resource,
            e.spec_message() == error_message@,
    {
        Self { kind: ErrorKind::Resource, error_message }
    }

    /// An error of the given class.
    pub fn with_kind(kind: ErrorKind, error_message: String) -> (e: Self)
        ensures
            e.spec_kind() == kind,
            e.spec_message() == error_message@,
    {
        Self { kind, error_message }
    }

    #[verifier::when_used_as_spec(spec_kind)]
    pub fn kind(&self) -> (k: ErrorKind)
        ensures
            k == self.spec_kind(),
    {
        self.kind
    }

    pub fn message(&self) -> (m: &str)
        ensures
            m@ == self.spec_message(),
    {
        self.error_message.as_str()
    }

    /// The line under which the error is logged: the words
    /// `error_message: ` and then the message.
    pub fn to_text(&self) -> (s: String)
        ensures
            s@ == "error_message: "@ + self.spec_message(),
    {
        String::from_str("error_message: ").concat(self.error_message.as_str())
    }
}

} // verus!

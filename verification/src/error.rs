//! The errors every operation of this crate reports.

use vstd::prelude::*;

verus! {

/// What went wrong, by kind.
#[derive(Clone, Copy, Debug, PartialEq, Eq, Structural, Hash)]
pub enum ErrorKind {
    /// A supplied identifier string is not an identifier.
    MalformedInput,
    /// The round trip to the remote agent failed.
    Transport,
    /// The agent or the plugin rejected the requested transition.
    Lifecycle,
    /// The plugin raised a fault or returned a value of the wrong shape.
    Hypervisor,
    /// A reserved operation was invoked.
    Unimplemented,
    /// A step of the bridge's own sequence failed, or a control call came
    /// at the wrong moment.
    Bridge,
}

/// An error: its kind and a message for the reader.
#[derive(Clone, Debug, PartialEq, Eq)]
pub struct FError {
    pub kind: ErrorKind,
    pub message: String,
}

impl FError {
    /// An error of the given kind with the given message.
    pub fn new(kind: ErrorKind, message: String) -> (e: FError)
        ensures
            e.kind == kind,
            e.message@ == message@,
    {
        FError { kind, message }
    }

    /// The error of every reserved operation.
    pub fn unimplemented() -> (e: FError)
        ensures
            e.kind == ErrorKind::Unimplemented,
            e.message@ == "not implemented"@,
    {
        FError { kind: ErrorKind::Unimplemented, message: "not implemented".to_string() }
    }

    /// The kind of this error.
    pub fn kind(&self) -> (k: ErrorKind)
        ensures
            k == self.kind,
    {
        self.kind
    }

    /// The message, as a string of its own.
    pub fn message(&self) -> (m: String)
        ensures
            m@ == self.message@,
    {
        self.message.clone()
    }
}

} // verus!

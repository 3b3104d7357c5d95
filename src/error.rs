use vstd::prelude::*;

verus! {

/// What went wrong with a lighting request.
#[derive(Clone, Copy, Debug, PartialEq, Eq, Structural)]
pub enum ErrorKind {
    /// An assignment target names no key.
    InvalidKeyName,
    /// A colour is missing, is not six hex digits, or has a channel outside 0..=255.
    MalformedColorLiteral,
    /// Writing a report to the device failed.
    TransportFailure,
}

/// A failure reported to the user: its kind and the text it concerns
/// (the key or the colour value that was at fault).
#[derive(Debug)]
pub struct UserError {
    pub kind: ErrorKind,
    pub subject: String,
}

impl UserError {
    /// An error of kind `kind` about the text `subject`.
    pub fn new(kind: ErrorKind, subject: &str) -> (e: UserError)
        ensures
            e.kind == kind,
            e.subject@ == subject@,
    {
        UserError { kind, subject: subject.to_owned() }
    }
}

} // verus!

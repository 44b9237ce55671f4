use vstd::prelude::*;
use vstd::string::StringExecFns;

verus! {

/// Coarse classification of a failure, for callers that branch on it.
#[derive(PartialEq, Eq, Structural, Clone, Copy, Debug)]
pub enum SequoiaErrorKind {
    Unknown,
    InvalidArgument,
    IoError,
}

/// An error handed to the caller: a kind and a human-readable message.
#[derive(Debug)]
pub struct SequoiaError {
    pub kind: SequoiaErrorKind,
    pub message: String,
}

impl SequoiaError {
    pub fn new(kind: SequoiaErrorKind, message: &str) -> (r: SequoiaError)
        ensures
            r.kind == kind,
            r.message@ == message@,
    {
        SequoiaError { kind, message: String::from_str(message) }
    }

    /// An error whose message is `prefix` followed by `detail`.
    pub fn with_detail(kind: SequoiaErrorKind, prefix: &str, detail: &str) -> (r: SequoiaError)
        ensures
            r.kind == kind,
            r.message@ == prefix@ + detail@,
    {
        let mut message = String::from_str(prefix);
        message.append(detail);
        SequoiaError { kind, message }
    }

    /// Classifies a failure reported by a collaborator: an I/O failure is
    /// `IoError`, anything else `Unknown`. The message is kept verbatim.
    pub fn from_failure(is_io: bool, message: &str) -> (r: SequoiaError)
        ensures
            r.kind == (if is_io { SequoiaErrorKind::IoError } else { SequoiaErrorKind::Unknown }),
            r.message@ == message@,
    {
        let kind = if is_io { SequoiaErrorKind::IoError } else { SequoiaErrorKind::Unknown };
        SequoiaError::new(kind, message)
    }

    pub fn kind(&self) -> (r: SequoiaErrorKind)
        ensures
            r == self.kind,
    {
        self.kind
    }

    pub fn message(&self) -> (r: &str)
        ensures
            r@ == self.message@,
    {
        self.message.as_str()
    }
}

/// Stores `err` into the caller's error slot when the caller supplied one
/// (`slot_supplied`); without a slot the error is dropped and the slot is
/// left as it was.
pub fn set_error_from(err_slot: &mut Option<SequoiaError>, slot_supplied: bool, err: SequoiaError)
    ensures
        slot_supplied ==> *final(err_slot) == Some(err),
        !slot_supplied ==> *final(err_slot) == *old(err_slot),
{
    if slot_supplied {
        *err_slot = Some(err);
    }
}

/// Hands an operation's outcome across the boundary: a value on success;
/// on failure no value, and the error goes to the caller's slot when one
/// was supplied. A value and an error never come back together.
pub fn deliver<T>(r: Result<T, SequoiaError>, err_slot: &mut Option<SequoiaError>, slot_supplied: bool) -> (v: Option<T>)
    ensures
        r is Ok ==> v == Some(r->Ok_0) && *final(err_slot) == *old(err_slot),
        r is Err ==> v is None,
        r is Err && slot_supplied ==> *final(err_slot) == Some(r->Err_0),
        r is Err && !slot_supplied ==> *final(err_slot) == *old(err_slot),
{
    match r {
        Ok(value) => Some(value),
        Err(e) => {
            set_error_from(err_slot, slot_supplied, e);
            None
        },
    }
}

} // verus!

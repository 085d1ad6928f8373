//! The outcome of a refused request: a code for the caller and a message for the reader.

use vstd::prelude::*;

verus! {

/// Why a request was refused.
#[derive(Clone, Copy, Debug, PartialEq, Eq, Structural)]
pub enum Code {
    InvalidArgument,
    DeadlineExceeded,
    NotFound,
    AlreadyExists,
    PermissionDenied,
    ResourceExhausted,
    FailedPrecondition,
    Internal,
    Unavailable,
    Unauthenticated,
}

/// A refusal, with its code and its message.
#[derive(Clone, Debug)]
pub struct Status {
    pub code: Code,
    pub message: String,
}

/// What a `Status` says, with the message as a sequence of characters.
pub struct StatusView {
    pub code: Code,
    pub message: Seq<char>,
}

impl View for Status {
    type V = StatusView;

    open spec fn view(&self) -> StatusView {
        StatusView { code: self.code, message: self.message@ }
    }
}

/// The refusal with the given code and message.
pub open spec fn refusal(code: Code, message: Seq<char>) -> StatusView {
    StatusView { code, message }
}

impl Status {
    /// The refusal with the given code and message.
    pub fn new(code: Code, message: &str) -> (r: Status)
        ensures
            r@ == refusal(code, message@),
    {
        Status { code, message: message.to_string() }
    }

    /// The refusal with the given code, whose message is `prefix` followed by `detail`.
    pub fn with_detail(code: Code, prefix: &str, detail: &str) -> (r: Status)
        ensures
            r@ == refusal(code, prefix@ + detail@),
    {
        let mut message = prefix.to_string();
        message.append(detail);
        Status { code, message }
    }

    /// Why the request was refused.
    pub fn code(&self) -> (r: Code)
        ensures
            r == self@.code,
    {
        self.code
    }

    /// What the reader is told.
    pub fn message(&self) -> (r: &str)
        ensures
            r@ == self@.message,
    {
        self.message.as_str()
    }
}

/// What a fallible step says: its value, or the refusal in view form.
pub open spec fn outcome<T>(r: Result<T, Status>) -> Result<T, StatusView> {
    match r {
        Ok(value) => Ok(value),
        Err(status) => Err(status@),
    }
}

/// What a fallible step says where it was taken: the view of its value, or the refusal in view
/// form.
pub open spec fn seen_if_taken<T: View>(r: Option<Result<T, Status>>) -> Option<
    Result<T::V, StatusView>,
> {
    match r {
        Some(r) => Some(seen(r)),
        None => None,
    }
}

/// What a fallible step says: the view of its value, or the refusal in view form.
pub open spec fn seen<T: View>(r: Result<T, Status>) -> Result<T::V, StatusView> {
    match r {
        Ok(value) => Ok(value@),
        Err(status) => Err(status@),
    }
}

} // verus!

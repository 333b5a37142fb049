use vstd::prelude::*;
use vstd::string::StringExecFns;
use crate::error::{user_facing, Error};

verus! {

/// How taking a screenshot ended, as reported to the user.
#[derive(Debug)]
pub enum Completion {
    /// Saved at this path.
    Captured(String),
    /// The user dismissed the picker; this is not a failure.
    Cancelled,
    /// Failed, with the message for the user.
    Failed(String),
}

/// Whether `c` is how `result` is reported.
pub open spec fn reports(result: Result<String, Error>, c: Completion) -> bool {
    match result {
        Ok(path) => c == Completion::Captured(path),
        Err(Error::PortalCancelled) => c is Cancelled,
        Err(e) => c is Failed && c->Failed_0@ == user_facing(e),
    }
}

/// The notification title for each completion.
pub open spec fn summary_text(c: Completion) -> Seq<char> {
    match c {
        Completion::Captured(_) => "Screenshot captured"@,
        Completion::Cancelled => "Screenshot cancelled"@,
        Completion::Failed(_) => "Screenshot failed"@,
    }
}

/// The notification body for each completion.
pub open spec fn body_text(c: Completion) -> Seq<char> {
    match c {
        Completion::Captured(path) => path@,
        Completion::Cancelled => Seq::empty(),
        Completion::Failed(msg) => msg@,
    }
}

impl Completion {
    pub fn from_result(result: Result<String, Error>) -> (r: Completion)
        ensures
            reports(result, r),
    {
        match result {
            Ok(path) => Completion::Captured(path),
            Err(e) => if e.cancelled() {
                Completion::Cancelled
            } else {
                Completion::Failed(e.to_user_facing())
            },
        }
    }

    pub fn summary(&self) -> (r: &'static str)
        ensures
            r@ == summary_text(*self),
    {
        match self {
            Completion::Captured(_) => "Screenshot captured",
            Completion::Cancelled => "Screenshot cancelled",
            Completion::Failed(_) => "Screenshot failed",
        }
    }

    pub fn body(&self) -> (r: String)
        ensures
            r@ == body_text(*self),
    {
        match self {
            Completion::Captured(path) => path.clone(),
            Completion::Cancelled => String::new(),
            Completion::Failed(msg) => msg.clone(),
        }
    }
}

/// Cancelling is reported apart from every failure: a result is reported as
/// cancelled exactly when its error is the user's cancellation, under a title
/// of its own and never as a failure.
pub proof fn lemma_cancel_is_not_failure(result: Result<String, Error>, c: Completion)
    requires
        reports(result, c),
    ensures
        (c is Cancelled) == (result is Err && result->Err_0 is PortalCancelled),
        (c is Failed) == (result is Err && !(result->Err_0 is PortalCancelled)),
        c is Cancelled ==> summary_text(c) != "Screenshot failed"@ && summary_text(c)
            != "Screenshot captured"@,
{
    reveal_strlit("Screenshot cancelled");
    reveal_strlit("Screenshot failed");
    reveal_strlit("Screenshot captured");
    assert("Screenshot cancelled"@[11] != "Screenshot failed"@[11]);
    assert("Screenshot cancelled"@[13] != "Screenshot captured"@[13]);
}

} // verus!

//! What a guard decides once its protected call has ended: a returned value passes
//! through unchanged, an unwind stops the process. Catching the unwind and aborting
//! are left to the caller; this is the rule between the two.
use vstd::prelude::*;

verus! {

/// How a protected call ended.
pub enum Exit<R> {
    /// It returned this value.
    Returned(R),
    /// It unwound, whatever the payload and however deep it was raised.
    Unwound,
}

/// What the guard does next.
pub enum Resolution<R> {
    /// Hand this value to the caller.
    Return(R),
    /// Abort the process; the caller is never returned to.
    Abort,
}

/// Decides what the guard does with how its call ended.
pub fn resolve<R>(exit: Exit<R>) -> (r: Resolution<R>)
    ensures
        exit matches Exit::Returned(v) ==> r == Resolution::Return(v),
        exit is Unwound ==> r is Abort,
{
    match exit {
        Exit::Returned(v) => Resolution::Return(v),
        Exit::Unwound => Resolution::Abort,
    }
}

/// How the body of an outer guard ends when that body is a call to a function whose
/// own guard decided `inner`: the inner value comes back as returned, and after an
/// abort there is no exit at all, the process having stopped.
pub open spec fn body_exit<R>(inner: Resolution<R>) -> Option<Exit<R>> {
    match inner {
        Resolution::Return(v) => Some(Exit::Returned(v)),
        Resolution::Abort => None,
    }
}

/// An outer guard around a guarded call never sees an unwind, so it never aborts a
/// second time: it sees the very value the inner guard let through, or nothing.
pub proof fn lemma_nested_guard_sees_no_unwind<R>(inner: Resolution<R>)
    ensures
        !(body_exit(inner) matches Some(Exit::Unwound)),
        inner matches Resolution::Return(v) ==> body_exit(inner) == Some(Exit::Returned(v)),
        inner is Abort ==> body_exit(inner) is None,
{
}

} // verus!

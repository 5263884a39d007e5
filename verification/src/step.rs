use vstd::prelude::*;

verus! {

/// What one poll of a resumable operation reports.
#[derive(Debug, PartialEq, Eq, Structural)]
pub enum Step<T> {
    /// Not resolved yet: the task yields and polls again later.
    Suspended,
    /// Resolved with a result; the operation must not be polled again.
    Completed(T),
}

impl<T> Step<T> {
    /// Whether the operation resolved.
    pub fn is_completed(&self) -> (done: bool)
        ensures
            done == (*self is Completed),
    {
        match self {
            Step::Suspended => false,
            Step::Completed(_) => true,
        }
    }
}

} // verus!

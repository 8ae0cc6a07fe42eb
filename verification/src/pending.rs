//! What the store hands out and takes back.

use vstd::prelude::*;

verus! {

/// Something that the store has asked for. Everybody can see what it is, and only the store can
/// make one: what comes back was started by the store and has skipped nothing.
#[derive(Debug, PartialEq, Eq)]
pub struct Pending<T> {
    asked: T,
}

impl<T> View for Pending<T> {
    type V = T;

    closed spec fn view(&self) -> T {
        self.asked
    }
}

/// What was asked for, or why nothing was.
pub open spec fn asked_of<T, E>(pending: Result<Pending<T>, E>) -> Result<T, E> {
    match pending {
        Ok(pending) => Ok(pending@),
        Err(e) => Err(e),
    }
}

impl<T> Pending<T> {
    /// Asks for `asked`.
    pub(crate) fn new(asked: T) -> (pending: Self)
        ensures
            pending@ == asked,
    {
        Pending { asked }
    }

    /// What is asked for.
    pub fn asked(&self) -> (asked: &T)
        ensures
            *asked == self@,
    {
        &self.asked
    }

    /// What is asked for, for good: it cannot be handed back.
    pub fn into_asked(self) -> (asked: T)
        ensures
            asked == self@,
    {
        self.asked
    }
}

} // verus!

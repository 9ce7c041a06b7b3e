//! The outcome of driving a suspending operation once.
use vstd::prelude::*;

verus! {

/// What one drive of a suspending operation reports to the scheduler.
#[derive(Debug, PartialEq, Eq)]
pub enum Progress<T> {
    /// The operation has completed with this value.
    Ready(T),
    /// The operation is not complete yet and has to be driven again.
    Pending,
}

impl<T> Progress<T> {
    /// True exactly for `Ready`.
    pub fn is_ready(&self) -> (ready: bool)
        ensures
            ready == (*self is Ready),
    {
        match self {
            Progress::Ready(_) => true,
            Progress::Pending => false,
        }
    }

    /// True exactly for `Pending`.
    pub fn is_pending(&self) -> (pending: bool)
        ensures
            pending == (*self is Pending),
    {
        match self {
            Progress::Ready(_) => false,
            Progress::Pending => true,
        }
    }
}

} // verus!

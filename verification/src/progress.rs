//! The observer that a download reports its progress to.

use vstd::prelude::*;

verus! {

/// An observer of a download.  The library decides which of these calls is
/// due and with which argument (see [`ProgressCall`]); what the observer
/// does with a call is its own business.
pub trait Progress {
    /// Sets the file size with `size`.
    fn set_file_size(&mut self, size: usize);

    /// Add to the progress with `amount`.
    fn add_to_progress(&mut self, amount: usize);

    /// In the case of corrupted bytes we want to reduce the progress, or
    /// reset it to 0.  The download itself never asks for this.
    fn remove_from_progress(&mut self, bytes: usize);
}

/// The observer that ignores every call; for a download that nobody watches.
#[derive(Clone, Copy, Debug, PartialEq, Eq, Structural)]
pub struct Unobserved;

impl Progress for Unobserved {
    fn set_file_size(&mut self, size: usize)
        ensures
            *final(self) == *old(self),
    {
    }

    fn add_to_progress(&mut self, amount: usize)
        ensures
            *final(self) == *old(self),
    {
    }

    fn remove_from_progress(&mut self, bytes: usize)
        ensures
            *final(self) == *old(self),
    {
    }
}

/// One call on a [`Progress`] observer, as a value.
#[derive(Clone, Copy, Debug, PartialEq, Eq, Structural)]
pub enum ProgressCall {
    /// `set_file_size` with the total number of bytes expected.
    SetFileSize(usize),
    /// `add_to_progress` with the number of bytes just received.
    AddToProgress(usize),
    /// `remove_from_progress` with the number of bytes to take back.
    RemoveFromProgress(usize),
}

impl ProgressCall {
    /// Makes this call on `observer`: the one method of the observer that
    /// this value names runs once, on the observer as it was handed in and
    /// with the argument that this value holds, and the observer is
    /// afterwards as that run left it.  Whatever the observer's method
    /// ensures of such a run therefore holds of the observer afterwards.
    pub fn deliver<P: Progress>(self, observer: &mut P)
        ensures
            self matches ProgressCall::SetFileSize(size) ==> (exists|run: &mut P|
                *run == *old(observer) && *final(run) == *final(observer)
                    && #[trigger] call_ensures(P::set_file_size, (run, size), ())),
            self matches ProgressCall::AddToProgress(amount) ==> (exists|run: &mut P|
                *run == *old(observer) && *final(run) == *final(observer)
                    && #[trigger] call_ensures(P::add_to_progress, (run, amount), ())),
            self matches ProgressCall::RemoveFromProgress(bytes) ==> (exists|run: &mut P|
                *run == *old(observer) && *final(run) == *final(observer)
                    && #[trigger] call_ensures(P::remove_from_progress, (run, bytes), ())),
    {
        match self {
            ProgressCall::SetFileSize(size) => observer.set_file_size(size),
            ProgressCall::AddToProgress(amount) => observer.add_to_progress(amount),
            ProgressCall::RemoveFromProgress(bytes) => observer.remove_from_progress(bytes),
        }
    }
}

} // verus!

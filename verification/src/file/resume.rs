//! Resuming an interrupted transfer. No progress is kept yet: saving and
//! resuming succeed and change nothing.

use crate::Error;
use vstd::prelude::*;

verus! {

/// Keeps the progress of transfers so that they can be taken up again.
pub struct ResumeTransfer {}

impl ResumeTransfer {
    pub fn new() -> ResumeTransfer {
        ResumeTransfer {  }
    }

    /// Notes how far the transfer `transfer_id` has come.
    pub fn save_progress(&self, transfer_id: &str, progress: u64) -> (r: Result<(), Error>)
        ensures
            r is Ok,
    {
        Ok(())
    }

    /// Takes up the transfer `transfer_id` where it stopped.
    pub fn resume(&mut self, transfer_id: &str) -> (r: Result<(), Error>)
        ensures
            r is Ok,
            *final(self) == *old(self),
    {
        Ok(())
    }
}

} // verus!

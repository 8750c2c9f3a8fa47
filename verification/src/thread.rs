//! A handle-owning view of one execution thread.

use vstd::prelude::*;

use crate::errors::Error;
use crate::errors::msg_open_thread_failed;
use crate::handleowner::HandleOwner;
use crate::handleowner::NULL_HANDLE;
use crate::handleowner::PSEUDO_HANDLE;

verus! {

/// A handle-owning view of one thread, opened by thread identifier.
pub struct Thread {
    /// The raw kernel handle this entity exclusively owns.
    pub handle: usize,
}

impl HandleOwner for Thread {
    open spec fn handle_spec(&self) -> usize {
        self.handle
    }

    open spec fn closable_spec(&self) -> bool {
        self.handle != PSEUDO_HANDLE
    }

    fn from_handle(handle: usize) -> (r: Self) {
        Thread { handle }
    }

    fn handle(&self) -> (r: usize) {
        self.handle
    }

    fn is_handle_closable(&self) -> (r: bool) {
        self.handle != PSEUDO_HANDLE
    }
}

impl Thread {
    /// Decides the outcome of opening a thread by id. `opened` is the handle
    /// the open-thread native call returned for the requested thread id,
    /// access mask and inheritance flag: null (zero) signals that the open
    /// failed, and anything else is the handle now exclusively owned by the
    /// result.
    pub fn from_id(opened: usize) -> (r: Result<Thread, Error>)
        ensures
            opened == NULL_HANDLE ==> (r matches Err(e) && e@ == msg_open_thread_failed()),
            opened != NULL_HANDLE ==> (r matches Ok(t) && t.handle == opened),
    {
        if opened == NULL_HANDLE {
            Err(Error::new("OpenThread returned NULL".to_owned()))
        } else {
            Ok(Thread { handle: opened })
        }
    }
}

} // verus!

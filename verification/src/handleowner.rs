//! The handle-ownership capability shared by every entity that owns a
//! closable kernel resource.
//!
//! A handle is an opaque, process-table-scoped value issued by the operating
//! system. The value zero (null) signals failure of an open call and is never
//! owned; the all-ones value is the sentinel the system uses both for the
//! current-process pseudo-handle and for the invalid-snapshot handle, and a
//! pseudo-handle must never be passed to the close primitive.
//!
//! The release path is split in two decisions around the one native call:
//! [`close_plan`] says whether the native close primitive must be invoked and
//! on which handle value, and [`close_outcome`] turns the primitive's return
//! code into the operation's result. Between the two, the surrounding binding
//! performs the native call exactly when the plan demands it.

use vstd::prelude::*;

use crate::errors::Error;
use crate::errors::msg_close_handle_failed;

verus! {

/// The handle value that open calls return to signal failure: no handle was
/// opened and nothing must be released.
pub const NULL_HANDLE: usize = 0;

/// The sentinel handle value (all bits set, -1 as a signed value). The system
/// uses it as the current-process pseudo-handle, which must never be released,
/// and as the invalid-snapshot value that the create-snapshot call returns on
/// failure.
pub const PSEUDO_HANDLE: usize = usize::MAX;

/// The capability of owning a kernel handle: the owner can report the handle,
/// can tell whether the handle requires a native release, and can be built
/// around an existing handle.
///
/// Building an owner with [`HandleOwner::from_handle`] carries an obligation
/// the library cannot check: the handle must be valid and exclusively owned by
/// the new entity from that point on. Two owners must never wrap the same
/// handle value, since each assumes sole release responsibility.
pub trait HandleOwner: Sized {
    /// The raw handle value this entity owns.
    spec fn handle_spec(&self) -> usize;

    /// Whether the handle requires a native release.
    spec fn closable_spec(&self) -> bool;

    /// Wraps an existing handle without validating it; the caller attests
    /// that the handle is valid and exclusively owned by the result.
    fn from_handle(handle: usize) -> (r: Self)
        ensures
            r.handle_spec() == handle,
    ;

    /// Reports the raw handle value.
    fn handle(&self) -> (r: usize)
        ensures
            r == self.handle_spec(),
    ;

    /// Whether releasing this entity must invoke the native close primitive.
    /// False for pseudo-handles, which the system defines as not requiring
    /// release.
    fn is_handle_closable(&self) -> (r: bool)
        ensures
            r == self.closable_spec(),
    ;
}

/// Decides the release of an owned handle: the native close primitive must be
/// invoked exactly when the result carries a handle value, and then on that
/// value. A non-closable owner (a pseudo-handle) yields no call: its release
/// is a guaranteed no-op.
pub fn close_plan<T: HandleOwner>(owner: &T) -> (r: Option<usize>)
    ensures
        owner.closable_spec() ==> r == Some(owner.handle_spec()),
        !owner.closable_spec() ==> r is None,
{
    if owner.is_handle_closable() {
        Some(owner.handle())
    } else {
        None
    }
}

/// Turns the outcome of a release into the operation's result. `plan` is what
/// [`close_plan`] decided; `ret` is the return code of the close-handle
/// native call, zero meaning failure, and is only looked at when the plan
/// demanded the call. A planned no-op always succeeds, whatever `ret` holds.
pub fn close_outcome(plan: Option<usize>, ret: i32) -> (r: Result<(), Error>)
    ensures
        plan is None ==> r is Ok,
        plan is Some && ret != 0 ==> r is Ok,
        plan is Some && ret == 0 ==> (r matches Err(e) && e@ == msg_close_handle_failed()),
{
    match plan {
        None => Ok(()),
        Some(_) => {
            if ret != 0 {
                Ok(())
            } else {
                Err(Error::new("CloseHandle failed".to_owned()))
            }
        },
    }
}

} // verus!

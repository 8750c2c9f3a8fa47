//! Point-in-time enumeration of a process's modules and threads.
//!
//! A snapshot reflects system state strictly at the moment it was taken: the
//! surrounding binding walks the native enumeration once, right after the
//! create-snapshot call, and hands the captured records over as plain values.
//! The captured sequences never change afterwards; observing a later state of
//! the process takes a new snapshot.

use vstd::prelude::*;

use crate::errors::Error;
use crate::errors::msg_create_snapshot_failed;
use crate::flags::SnapshotFlags;
use crate::handleowner::HandleOwner;
use crate::handleowner::PSEUDO_HANDLE;

verus! {

/// Length of the fixed buffer a module record's display name is captured in,
/// as the native module entry defines it.
pub const MODULE_NAME_LEN: usize = 256;

/// A module record captured at snapshot time: a display name in the fixed
/// native buffer (text up to the first zero byte) and the base-address/size
/// descriptor of the loaded image.
#[derive(Clone, Copy)]
pub struct ModuleEntry {
    /// The display name bytes, terminated by the first zero byte.
    pub name: [u8; MODULE_NAME_LEN],
    /// Base address of the module in the target process.
    pub base_address: usize,
    /// Size of the mapped image in bytes.
    pub size: u32,
}

/// A thread record captured at snapshot time: the thread's identifier and the
/// identifier of the process that owns it.
#[derive(Clone, Copy, PartialEq, Eq, Structural, Debug)]
pub struct ThreadEntry {
    /// The thread identifier.
    pub thread_id: u32,
    /// The identifier of the owning process.
    pub owner_process_id: u32,
}

/// A point-in-time capture of a process's modules and threads, together with
/// the enumeration handle it was taken through, the target process id and the
/// categories requested.
pub struct Snapshot {
    /// The native enumeration handle the capture was taken through.
    pub handle: usize,
    /// The process id the snapshot was taken against.
    pub pid: u32,
    /// The categories requested when the snapshot was taken.
    pub flags: SnapshotFlags,
    /// The module records captured, in enumeration order.
    pub modules: Vec<ModuleEntry>,
    /// The thread records captured, in enumeration order.
    pub threads: Vec<ThreadEntry>,
}

impl HandleOwner for Snapshot {
    open spec fn handle_spec(&self) -> usize {
        self.handle
    }

    open spec fn closable_spec(&self) -> bool {
        self.handle != PSEUDO_HANDLE
    }

    fn from_handle(handle: usize) -> (r: Self) {
        Snapshot { handle, pid: 0, flags: SnapshotFlags { bits: 0 }, modules: Vec::new(), threads: Vec::new() }
    }

    fn handle(&self) -> (r: usize) {
        self.handle
    }

    fn is_handle_closable(&self) -> (r: bool) {
        self.handle != PSEUDO_HANDLE
    }
}

impl Snapshot {
    /// Decides the outcome of taking a snapshot of process `pid` with the
    /// requested categories. `created` is the enumeration handle the
    /// create-snapshot native call returned, the invalid-handle sentinel on
    /// failure; `modules` and `threads` are the records the binding captured
    /// through that handle, in enumeration order (empty when the call
    /// failed, since there was nothing to walk).
    pub fn from_pid(
        pid: u32,
        flags: SnapshotFlags,
        created: usize,
        modules: Vec<ModuleEntry>,
        threads: Vec<ThreadEntry>,
    ) -> (r: Result<Snapshot, Error>)
        ensures
            created == PSEUDO_HANDLE ==> (r matches Err(e) && e@ == msg_create_snapshot_failed()),
            created != PSEUDO_HANDLE ==> (r matches Ok(s) && s.handle == created && s.pid == pid
                && s.flags == flags && s.modules@ == modules@ && s.threads@ == threads@),
    {
        if created == PSEUDO_HANDLE {
            Err(Error::new("CreateToolhelp32Snapshot returned INVALID_HANDLE_VALUE".to_owned()))
        } else {
            Ok(Snapshot { handle: created, pid, flags, modules, threads })
        }
    }

    /// The module records captured when the snapshot was taken, in
    /// enumeration order.
    pub fn module_entries(&self) -> (r: &Vec<ModuleEntry>)
        ensures
            r@ == self.modules@,
    {
        &self.modules
    }

    /// The thread records captured when the snapshot was taken, in
    /// enumeration order.
    pub fn thread_entries(&self) -> (r: &Vec<ThreadEntry>)
        ensures
            r@ == self.threads@,
    {
        &self.threads
    }
}

/// Index of the first thread record owned by process `pid`, in enumeration
/// order; the sequence's length when no record is owned by it.
pub open spec fn first_owned_thread(threads: Seq<ThreadEntry>, pid: u32) -> int
    decreases threads.len(),
{
    if threads.len() == 0 {
        0
    } else if threads[0].owner_process_id == pid {
        0
    } else {
        1 + first_owned_thread(threads.drop_first(), pid)
    }
}

/// The first owned thread record is well defined: it lies in range, earlier
/// records are owned by other processes, and the record it points at is owned
/// by `pid`; when it equals the length, no record is owned by `pid`.
pub proof fn lemma_first_owned_thread(threads: Seq<ThreadEntry>, pid: u32)
    ensures
        0 <= first_owned_thread(threads, pid) <= threads.len(),
        forall|j: int|
            0 <= j < first_owned_thread(threads, pid) ==> threads[j].owner_process_id != pid,
        first_owned_thread(threads, pid) < threads.len()
            ==> threads[first_owned_thread(threads, pid)].owner_process_id == pid,
    decreases threads.len(),
{
    if threads.len() > 0 && threads[0].owner_process_id != pid {
        lemma_first_owned_thread(threads.drop_first(), pid);
        assert forall|j: int|
            0 <= j < first_owned_thread(threads, pid) implies threads[j].owner_process_id
            != pid by {
            if j > 0 {
                assert(threads.drop_first()[j - 1] == threads[j]);
            }
        }
    }
}

/// No thread record owned by `pid` means the scan runs off the end: the law
/// behind a main-thread lookup returning nothing on such a snapshot.
pub proof fn lemma_no_owned_thread(threads: Seq<ThreadEntry>, pid: u32)
    requires
        forall|j: int| 0 <= j < threads.len() ==> threads[j].owner_process_id != pid,
    ensures
        first_owned_thread(threads, pid) == threads.len(),
    decreases threads.len(),
{
    if threads.len() > 0 {
        assert(threads[0].owner_process_id != pid);
        lemma_no_owned_thread(threads.drop_first(), pid);
    }
}

} // verus!

//! The central entity: a handle-owning view of one process.
//!
//! A `Process` owns the kernel handle it was built around. Opening,
//! identity queries, memory transfers and protection changes each cross the
//! native surface once; the functions here hold the decision on each side of
//! that crossing. A function taking the outcome of a native call names the
//! call it interprets and trusts nothing about it beyond what it is handed.

use vstd::prelude::*;

use crate::errors::Error;
use crate::errors::msg_get_process_id_failed;
use crate::errors::msg_module_name_decode_failed;
use crate::errors::msg_open_process_failed;
use crate::errors::msg_protect_failed;
use crate::errors::msg_read_empty_buffer;
use crate::errors::msg_read_failed;
use crate::errors::msg_read_null_address;
use crate::errors::msg_write_failed;
use crate::errors::msg_write_null_address;
use crate::errors::msg_create_snapshot_failed;
use crate::flags::ProtectFlag;
use crate::flags::SnapshotFlags;
use crate::handleowner::HandleOwner;
use crate::handleowner::NULL_HANDLE;
use crate::handleowner::PSEUDO_HANDLE;
use crate::modname::decoded_name;
use crate::modname::entry_check;
use crate::modname::entry_matches;
use crate::modname::first_significant;
use crate::modname::lemma_first_significant_eq;
use crate::modname::lemma_none_significant;
use crate::modname::normalized_query;
use crate::modname::significant;
use crate::snapshot::ModuleEntry;
use crate::snapshot::Snapshot;
use crate::snapshot::ThreadEntry;
use crate::snapshot::first_owned_thread;
use crate::snapshot::lemma_first_owned_thread;

verus! {

/// A memory transfer for the binding to perform: which handle to address,
/// where in the target's address space, and how many bytes.
#[derive(Clone, Copy, PartialEq, Eq, Structural, Debug)]
pub struct MemoryOp {
    /// The process handle the native call must be made against.
    pub handle: usize,
    /// The start address in the target process.
    pub address: usize,
    /// The number of bytes to transfer.
    pub len: usize,
}

/// A protection change for the binding to perform on the region
/// `[address, address + size)`.
#[derive(Clone, Copy, PartialEq, Eq, Structural, Debug)]
pub struct ProtectOp {
    /// The process handle the native call must be made against.
    pub handle: usize,
    /// The start address of the region.
    pub address: usize,
    /// The size of the region in bytes.
    pub size: usize,
    /// The requested protection mask.
    pub protect: u32,
}

/// A handle-owning view of one process.
pub struct Process {
    /// The raw kernel handle this entity exclusively owns.
    pub handle: usize,
}

impl HandleOwner for Process {
    open spec fn handle_spec(&self) -> usize {
        self.handle
    }

    open spec fn closable_spec(&self) -> bool {
        self.handle != PSEUDO_HANDLE
    }

    fn from_handle(handle: usize) -> (r: Self) {
        Process { handle }
    }

    fn handle(&self) -> (r: usize) {
        self.handle
    }

    fn is_handle_closable(&self) -> (r: bool) {
        // the all-ones sentinel is the pseudo-handle for the current process
        // and need not be closed
        self.handle != PSEUDO_HANDLE
    }
}

impl Process {
    /// Decides the outcome of opening a process by id. `opened` is the handle
    /// the open-process native call returned for the requested process id,
    /// access mask and inheritance flag: null (zero) signals that the open
    /// failed — in particular, that the id named no live process — and
    /// anything else is the handle now exclusively owned by the result.
    pub fn from_pid(opened: usize) -> (r: Result<Process, Error>)
        ensures
            opened == NULL_HANDLE ==> (r matches Err(e) && e@ == msg_open_process_failed()),
            opened != NULL_HANDLE ==> (r matches Ok(p) && p.handle == opened),
    {
        if opened == NULL_HANDLE {
            Err(Error::new("OpenProcess returned NULL".to_owned()))
        } else {
            Ok(Process { handle: opened })
        }
    }

    /// Wraps the pseudo-handle standing for the calling process. The value is
    /// the sentinel the system documents for it; no native call takes part and
    /// the construction never fails. The result is flagged non-closable, so
    /// its release is always a no-op.
    pub fn from_current() -> (r: Process)
        ensures
            r.handle == PSEUDO_HANDLE,
            !r.closable_spec(),
    {
        Process::from_handle(PSEUDO_HANDLE)
    }

    /// Decides the outcome of the identity query on this process's handle.
    /// `queried` is what the get-process-id native call returned; zero is the
    /// sentinel for failure, never a valid identifier.
    pub fn pid(&self, queried: u32) -> (r: Result<u32, Error>)
        ensures
            queried == 0 ==> (r matches Err(e) && e@ == msg_get_process_id_failed()),
            queried != 0 ==> r == Ok::<u32, Error>(queried),
    {
        if queried == 0 {
            Err(Error::new("GetProcessId returned NULL".to_owned()))
        } else {
            Ok(queried)
        }
    }

    /// Decides the outcome of deriving a snapshot of this process: the
    /// identity query comes first, so its failure wins over a creation
    /// failure. `queried` is what the get-process-id native call returned;
    /// `created` is the enumeration handle the create-snapshot call returned
    /// for that id and the requested categories, and `modules` and `threads`
    /// are the records captured through it (empty when nothing could be
    /// walked).
    pub fn snapshot(
        &self,
        queried: u32,
        flags: SnapshotFlags,
        created: usize,
        modules: Vec<ModuleEntry>,
        threads: Vec<ThreadEntry>,
    ) -> (r: Result<Snapshot, Error>)
        ensures
            queried == 0 ==> (r matches Err(e) && e@ == msg_get_process_id_failed()),
            queried != 0 && created == PSEUDO_HANDLE ==> (r matches Err(e) && e@
                == msg_create_snapshot_failed()),
            queried != 0 && created != PSEUDO_HANDLE ==> (r matches Ok(s) && s.handle == created
                && s.pid == queried && s.flags == flags && s.modules@ == modules@ && s.threads@
                == threads@),
    {
        let pid = match self.pid(queried) {
            Ok(pid) => pid,
            Err(e) => return Err(e),
        };
        Snapshot::from_pid(pid, flags, created, modules, threads)
    }

    /// Validates a write of `data` into this process at `address` and, when
    /// the preconditions hold, produces the one native write the binding must
    /// perform. A null address is rejected before anything is attempted.
    pub fn write_memory(&self, data: &[u8], address: usize) -> (r: Result<MemoryOp, Error>)
        ensures
            address == 0 ==> (r matches Err(e) && e@ == msg_write_null_address()),
            address != 0 ==> (r matches Ok(op) && op.handle == self.handle && op.address == address
                && op.len == data@.len()),
    {
        if address == 0 {
            Err(Error::new("Address to write to is null".to_owned()))
        } else {
            Ok(MemoryOp { handle: self.handle, address, len: data.len() })
        }
    }

    /// Turns the outcome of the write-memory native call into the operation's
    /// result: `ret` zero means the call failed and the count is meaningless;
    /// otherwise `bytes_written` is the number of bytes the call reported
    /// written. A partial write the call itself reports as failure surfaces
    /// as the error, never as a count.
    pub fn write_memory_outcome(ret: i32, bytes_written: usize) -> (r: Result<usize, Error>)
        ensures
            ret == 0 ==> (r matches Err(e) && e@ == msg_write_failed()),
            ret != 0 ==> r == Ok::<usize, Error>(bytes_written),
    {
        if ret == 0 {
            Err(Error::new("WriteProcessMemory failed".to_owned()))
        } else {
            Ok(bytes_written)
        }
    }

    /// Validates a read of `buffer_len` bytes from this process at `address`
    /// and, when the preconditions hold, produces the one native read the
    /// binding must perform. A null address and an empty buffer are each
    /// rejected, in that order, before anything is attempted.
    pub fn read_memory(&self, buffer_len: usize, address: usize) -> (r: Result<MemoryOp, Error>)
        ensures
            address == 0 ==> (r matches Err(e) && e@ == msg_read_null_address()),
            address != 0 && buffer_len == 0 ==> (r matches Err(e) && e@ == msg_read_empty_buffer()),
            address != 0 && buffer_len != 0 ==> (r matches Ok(op) && op.handle == self.handle
                && op.address == address && op.len == buffer_len),
    {
        if address == 0 {
            Err(Error::new("Address to read from is null".to_owned()))
        } else if buffer_len == 0 {
            Err(Error::new("Buffer length is zero".to_owned()))
        } else {
            Ok(MemoryOp { handle: self.handle, address, len: buffer_len })
        }
    }

    /// Turns the outcome of the read-memory native call into the operation's
    /// result, under the same policy as writes: failure surfaces as the
    /// error, success as the number of bytes the call reported read.
    pub fn read_memory_outcome(ret: i32, bytes_read: usize) -> (r: Result<usize, Error>)
        ensures
            ret == 0 ==> (r matches Err(e) && e@ == msg_read_failed()),
            ret != 0 ==> r == Ok::<usize, Error>(bytes_read),
    {
        if ret == 0 {
            Err(Error::new("ReadProcessMemory failed".to_owned()))
        } else {
            Ok(bytes_read)
        }
    }

    /// Produces the protection change the binding must perform on the region
    /// `[address, address + size)` of this process. The native surface takes
    /// any region, so no precondition is checked here.
    pub fn virtual_protect(&self, address: usize, size: usize, protect: ProtectFlag) -> (r:
        ProtectOp)
        ensures
            r.handle == self.handle,
            r.address == address,
            r.size == size,
            r.protect == protect.bits,
    {
        ProtectOp { handle: self.handle, address, size, protect: protect.bits() }
    }

    /// Turns the outcome of the change-memory-protection native call into the
    /// operation's result. On success the value returned is `old_protect`,
    /// the protection the call reported as in effect immediately before it —
    /// never the protection that was requested. The caller is responsible for
    /// restoring it if required.
    pub fn virtual_protect_outcome(ret: i32, old_protect: u32) -> (r: Result<u32, Error>)
        ensures
            ret == 0 ==> (r matches Err(e) && e@ == msg_protect_failed()),
            ret != 0 ==> r == Ok::<u32, Error>(old_protect),
    {
        if ret != 0 {
            Ok(old_protect)
        } else {
            Err(Error::new("VirtualProtectEx returned NULL".to_owned()))
        }
    }

    /// Looks a module up by name in a module-category snapshot of this
    /// process. The query is normalized first — its file name's extension is
    /// forced to the `.dll` style, queries without a file name keep their
    /// text, and everything is lowercased — and the captured records are
    /// scanned in enumeration order for the first whose display name,
    /// decoded as UTF-8 and lowercased, equals the normalized query. A
    /// record whose name is not valid UTF-8 stops the scan with an error;
    /// when the scan runs off the end the module is absent, which is no
    /// error.
    ///
    /// Modules mapped into the process without going through the
    /// loader-visible path are invisible to this lookup, because the
    /// underlying enumeration only sees loader-tracked modules.
    pub fn module_entry_by_name(&self, name: &str, snapshot: &Snapshot) -> (r: Result<
        Option<ModuleEntry>,
        Error,
    >)
        ensures
            ({
                let ms = snapshot.modules@;
                let k = first_significant(name@, ms);
                &&& k == ms.len() ==> r == Ok::<Option<ModuleEntry>, Error>(None)
                &&& k < ms.len() && entry_matches(name@, ms[k].name@) ==> r == Ok::<
                    Option<ModuleEntry>,
                    Error,
                >(Some(ms[k]))
                &&& k < ms.len() && decoded_name(ms[k].name@) is None ==> (r matches Err(e)
                    && e@ == msg_module_name_decode_failed())
            }),
    {
        let norm = normalized_query(name);
        let entries = snapshot.module_entries();
        let n = entries.len();
        let mut i: usize = 0;
        while i < n
            invariant
                norm@ == crate::modname::normalized(name@),
                entries@ == snapshot.modules@,
                n == snapshot.modules@.len(),
                0 <= i <= n,
                forall|j: int| 0 <= j < i ==> !significant(name@, snapshot.modules@[j]),
            decreases n - i,
        {
            let entry = &entries[i];
            match entry_check(&norm, entry) {
                None => {
                    proof {
                        lemma_first_significant_eq(name@, snapshot.modules@, i as int);
                    }
                    return Err(Error::new("Failed to decode module entry name".to_owned()));
                },
                Some(true) => {
                    proof {
                        lemma_first_significant_eq(name@, snapshot.modules@, i as int);
                    }
                    return Ok(Some(*entry));
                },
                Some(false) => {
                    proof {
                        assert(!significant(name@, snapshot.modules@[i as int]));
                    }
                },
            }
            i += 1;
        }
        proof {
            lemma_none_significant(name@, snapshot.modules@);
        }
        Ok(None)
    }

    /// Scans a thread-category snapshot in enumeration order and returns the
    /// first thread record owned by process `pid` (the id previously obtained
    /// for this process), or nothing when no captured record is owned by it.
    ///
    /// Enumeration order carries no "main thread" semantic: the first owned
    /// record need not be the primary thread of the process.
    pub fn main_thread_entry(&self, snapshot: &Snapshot, pid: u32) -> (r: Option<ThreadEntry>)
        ensures
            ({
                let k = first_owned_thread(snapshot.threads@, pid);
                if k == snapshot.threads@.len() {
                    r is None
                } else {
                    r == Some(snapshot.threads@[k])
                }
            }),
    {
        proof {
            lemma_first_owned_thread(snapshot.threads@, pid);
        }
        let threads = snapshot.thread_entries();
        let n = threads.len();
        let mut i: usize = 0;
        while i < n
            invariant
                n == snapshot.threads@.len(),
                threads@ == snapshot.threads@,
                0 <= i <= n,
                forall|j: int| 0 <= j < i ==> snapshot.threads@[j].owner_process_id != pid,
            decreases n - i,
        {
            if threads[i].owner_process_id == pid {
                proof {
                    lemma_first_owned_eq(snapshot.threads@, pid, i as int);
                }
                return Some(threads[i]);
            }
            i += 1;
        }
        proof {
            crate::snapshot::lemma_no_owned_thread(snapshot.threads@, pid);
        }
        None
    }
}

/// Law: a process wrapping the current-process pseudo-handle is never
/// closable, so its close plan demands no native call and its release always
/// succeeds, whatever any return code would have said.
pub proof fn lemma_current_process_release_is_noop(p: Process)
    requires
        p.handle == PSEUDO_HANDLE,
    ensures
        !p.closable_spec(),
{
}

/// When every record before `k` is owned by another process and record `k` is
/// owned by `pid`, the scan stops exactly at `k`.
proof fn lemma_first_owned_eq(threads: Seq<ThreadEntry>, pid: u32, k: int)
    requires
        0 <= k < threads.len(),
        forall|j: int| 0 <= j < k ==> threads[j].owner_process_id != pid,
        threads[k].owner_process_id == pid,
    ensures
        first_owned_thread(threads, pid) == k,
    decreases threads.len(),
{
    if k > 0 {
        assert forall|j: int| 0 <= j < k - 1 implies threads.drop_first()[j].owner_process_id
            != pid by {
            assert(threads.drop_first()[j] == threads[j + 1]);
        }
        assert(threads.drop_first()[k - 1] == threads[k]);
        lemma_first_owned_eq(threads.drop_first(), pid, k - 1);
    }
}

} // verus!

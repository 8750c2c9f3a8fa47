//! Lifecycle-managed access to another process on an operating system that
//! exposes processes as opaque kernel handles.
//!
//! The library is the decision layer of such a tool: every native call is made
//! by the surrounding (unverified) binding, which hands the raw outcome of the
//! call — a handle value, a return code, a captured snapshot record — to the
//! functions here as plain values. The functions here validate preconditions,
//! interpret the native outcome, keep the handle-ownership discipline (a handle
//! is released exactly once, and pseudo-handles are never released), and carry
//! out the pure parts of the work: module-name normalization and lookup, and
//! thread discovery over a captured snapshot.

mod errors;
mod flags;
mod handleowner;
mod modname;
mod process;
mod snapshot;
mod thread;

pub use errors::Error;
pub use errors::msg_close_handle_failed;
pub use errors::msg_create_snapshot_failed;
pub use errors::msg_get_process_id_failed;
pub use errors::msg_module_name_decode_failed;
pub use errors::msg_open_process_failed;
pub use errors::msg_open_thread_failed;
pub use errors::msg_protect_failed;
pub use errors::msg_read_empty_buffer;
pub use errors::msg_read_failed;
pub use errors::msg_read_null_address;
pub use errors::msg_write_failed;
pub use errors::msg_write_null_address;
pub use flags::ProtectFlag;
pub use flags::SnapshotFlags;
pub use flags::TH32CS_SNAPHEAPLIST;
pub use flags::TH32CS_SNAPMODULE;
pub use flags::TH32CS_SNAPMODULE32;
pub use flags::TH32CS_SNAPPROCESS;
pub use flags::TH32CS_SNAPTHREAD;
pub use handleowner::HandleOwner;
pub use modname::decoded_name;
pub use modname::dll_suffix;
pub use modname::effective_len;
pub use modname::entry_matches;
pub use modname::file_start;
pub use modname::first_significant;
pub use modname::is_sep;
pub use modname::lemma_first_significant;
pub use modname::lemma_no_match_is_absent;
pub use modname::lemma_normalized_case_insensitive;
pub use modname::lemma_normalized_dll_suffix;
pub use modname::lemma_result_depends_on_normalized;
pub use modname::lower_char;
pub use modname::lower_seq;
pub use modname::name_len;
pub use modname::normalized;
pub use modname::significant;
pub use modname::stem_end;
pub use handleowner::NULL_HANDLE;
pub use handleowner::PSEUDO_HANDLE;
pub use handleowner::close_outcome;
pub use handleowner::close_plan;
pub use process::MemoryOp;
pub use process::Process;
pub use process::ProtectOp;
pub use process::lemma_current_process_release_is_noop;
pub use snapshot::MODULE_NAME_LEN;
pub use snapshot::ModuleEntry;
pub use snapshot::Snapshot;
pub use snapshot::ThreadEntry;
pub use snapshot::first_owned_thread;
pub use snapshot::lemma_first_owned_thread;
pub use snapshot::lemma_no_owned_thread;
pub use thread::Thread;

//! The uniform failure value of the library.
//!
//! Every fallible operation returns an [`Error`] carrying a human-readable
//! message; call sites are distinguished by message content, never by type.
//! The exact message produced by each operation is part of that operation's
//! contract, stated through the `msg_*` spec functions below.

use vstd::prelude::*;

verus! {

/// A uniform failure value carrying a human-readable message.
#[derive(Debug)]
pub struct Error {
    pub message: String,
}

impl View for Error {
    type V = Seq<char>;

    open spec fn view(&self) -> Seq<char> {
        self.message@
    }
}

impl Error {
    /// Wraps a descriptive message into an error value.
    pub fn new(message: String) -> (r: Error)
        ensures
            r@ == message@,
    {
        Error { message }
    }

    /// The message the error was created with.
    pub fn message(&self) -> (r: &String)
        ensures
            r@ == self@,
    {
        &self.message
    }
}

/// Message of the error returned when the open-process native call hands back
/// a null handle.
pub open spec fn msg_open_process_failed() -> Seq<char> {
    "OpenProcess returned NULL"@
}

/// Message of the error returned when the open-thread native call hands back
/// a null handle.
pub open spec fn msg_open_thread_failed() -> Seq<char> {
    "OpenThread returned NULL"@
}

/// Message of the error returned when the identity query hands back the
/// sentinel "unknown" id, zero.
pub open spec fn msg_get_process_id_failed() -> Seq<char> {
    "GetProcessId returned NULL"@
}

/// Message of the error returned when the create-snapshot native call hands
/// back the invalid-handle sentinel.
pub open spec fn msg_create_snapshot_failed() -> Seq<char> {
    "CreateToolhelp32Snapshot returned INVALID_HANDLE_VALUE"@
}

/// Message of the error returned when the close-handle native call reports
/// failure.
pub open spec fn msg_close_handle_failed() -> Seq<char> {
    "CloseHandle failed"@
}

/// Message of the error returned when a write is requested at the null
/// address.
pub open spec fn msg_write_null_address() -> Seq<char> {
    "Address to write to is null"@
}

/// Message of the error returned when the write-memory native call reports
/// failure.
pub open spec fn msg_write_failed() -> Seq<char> {
    "WriteProcessMemory failed"@
}

/// Message of the error returned when a read is requested at the null
/// address.
pub open spec fn msg_read_null_address() -> Seq<char> {
    "Address to read from is null"@
}

/// Message of the error returned when the read-memory native call reports
/// failure.
pub open spec fn msg_read_failed() -> Seq<char> {
    "ReadProcessMemory failed"@
}

/// Message of the error returned when a read is requested into an empty
/// buffer.
pub open spec fn msg_read_empty_buffer() -> Seq<char> {
    "Buffer length is zero"@
}

/// Message of the error returned when the change-memory-protection native
/// call reports failure.
pub open spec fn msg_protect_failed() -> Seq<char> {
    "VirtualProtectEx returned NULL"@
}

/// Message of the error returned when a module entry's display name cannot be
/// decoded as text.
pub open spec fn msg_module_name_decode_failed() -> Seq<char> {
    "Failed to decode module entry name"@
}

} // verus!

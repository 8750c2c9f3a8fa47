use winapiwrapper::HandleOwner;
use winapiwrapper::ModuleEntry;
use winapiwrapper::Process;
use winapiwrapper::Snapshot;
use winapiwrapper::SnapshotFlags;
use winapiwrapper::TH32CS_SNAPMODULE;
use winapiwrapper::TH32CS_SNAPMODULE32;
use winapiwrapper::TH32CS_SNAPTHREAD;
use winapiwrapper::ThreadEntry;
use winapiwrapper::close_plan;

fn name_buf(s: &str) -> [u8; 256] {
    let mut buf = [0u8; 256];
    let bytes = s.as_bytes();
    let mut i = 0;
    while i < bytes.len() {
        buf[i] = bytes[i];
        i += 1;
    }
    buf
}

fn module(name: &str, base: usize, size: u32) -> ModuleEntry {
    ModuleEntry { name: name_buf(name), base_address: base, size }
}

#[test]
fn snapshot_invalid_handle_fails() {
    let flags = SnapshotFlags::new(TH32CS_SNAPMODULE | TH32CS_SNAPMODULE32);
    let r = Snapshot::from_pid(4242, flags, usize::MAX, Vec::new(), Vec::new());
    assert_eq!(
        r.err().unwrap().message().as_str(),
        "CreateToolhelp32Snapshot returned INVALID_HANDLE_VALUE"
    );
}

#[test]
fn snapshot_keeps_captured_records() {
    let flags = SnapshotFlags::new(TH32CS_SNAPMODULE | TH32CS_SNAPTHREAD);
    let modules = vec![module("kernel32.dll", 0x7ff800000000, 0x1000)];
    let threads = vec![ThreadEntry { thread_id: 9, owner_process_id: 4242 }];
    let snap = Snapshot::from_pid(4242, flags, 33, modules, threads).unwrap();
    assert_eq!(snap.pid, 4242);
    assert_eq!(snap.flags.bits(), TH32CS_SNAPMODULE | TH32CS_SNAPTHREAD);
    assert_eq!(snap.handle, 33);
    assert_eq!(snap.module_entries().len(), 1);
    assert_eq!(snap.module_entries()[0].base_address, 0x7ff800000000);
    assert_eq!(snap.thread_entries().len(), 1);
    assert_eq!(snap.thread_entries()[0], ThreadEntry { thread_id: 9, owner_process_id: 4242 });
}

#[test]
fn snapshots_are_not_live_views() {
    // two snapshots of the same process taken at different moments: each
    // keeps what was captured when it was taken, so they can disagree
    let flags = SnapshotFlags::new(TH32CS_SNAPMODULE);
    let earlier =
        Snapshot::from_pid(4242, flags, 33, vec![module("a.dll", 0x1000, 16)], Vec::new()).unwrap();
    let later = Snapshot::from_pid(
        4242,
        flags,
        34,
        vec![module("a.dll", 0x1000, 16), module("b.dll", 0x2000, 16)],
        Vec::new(),
    )
    .unwrap();
    assert_eq!(earlier.module_entries().len(), 1);
    assert_eq!(later.module_entries().len(), 2);
}

#[test]
fn snapshot_owns_a_closable_handle() {
    let flags = SnapshotFlags::new(TH32CS_SNAPTHREAD);
    let snap = Snapshot::from_pid(4242, flags, 33, Vec::new(), Vec::new()).unwrap();
    assert!(snap.is_handle_closable());
    assert_eq!(close_plan(&snap), Some(33));
}

#[test]
fn process_snapshot_identity_failure_wins() {
    let p = Process::from_pid(77).unwrap();
    let flags = SnapshotFlags::new(TH32CS_SNAPMODULE);
    // both the identity query and the creation failed; the identity query
    // came first, so its error is the one reported
    let r = p.snapshot(0, flags, usize::MAX, Vec::new(), Vec::new());
    assert_eq!(r.err().unwrap().message().as_str(), "GetProcessId returned NULL");
}

#[test]
fn process_snapshot_creation_failure() {
    let p = Process::from_pid(77).unwrap();
    let flags = SnapshotFlags::new(TH32CS_SNAPMODULE);
    let r = p.snapshot(4242, flags, usize::MAX, Vec::new(), Vec::new());
    assert_eq!(
        r.err().unwrap().message().as_str(),
        "CreateToolhelp32Snapshot returned INVALID_HANDLE_VALUE"
    );
}

#[test]
fn process_snapshot_success_keeps_capture() {
    let p = Process::from_pid(77).unwrap();
    let flags = SnapshotFlags::new(TH32CS_SNAPMODULE);
    let modules = vec![module("kernel32.dll", 0x1000, 16)];
    let snap = p.snapshot(4242, flags, 33, modules, Vec::new()).unwrap();
    assert_eq!(snap.pid, 4242);
    assert_eq!(snap.handle, 33);
    assert_eq!(snap.module_entries().len(), 1);
}

#[test]
fn main_thread_entry_takes_first_owned_record() {
    let flags = SnapshotFlags::new(TH32CS_SNAPTHREAD);
    let threads = vec![
        ThreadEntry { thread_id: 10, owner_process_id: 1 },
        ThreadEntry { thread_id: 20, owner_process_id: 4242 },
        ThreadEntry { thread_id: 30, owner_process_id: 4242 },
    ];
    let snap = Snapshot::from_pid(4242, flags, 33, Vec::new(), threads).unwrap();
    let p = Process::from_pid(77).unwrap();
    let entry = p.main_thread_entry(&snap, 4242).unwrap();
    assert_eq!(entry, ThreadEntry { thread_id: 20, owner_process_id: 4242 });
}

#[test]
fn main_thread_entry_none_when_no_record_is_owned() {
    let flags = SnapshotFlags::new(TH32CS_SNAPTHREAD);
    let threads = vec![
        ThreadEntry { thread_id: 10, owner_process_id: 1 },
        ThreadEntry { thread_id: 20, owner_process_id: 2 },
    ];
    let snap = Snapshot::from_pid(4242, flags, 33, Vec::new(), threads).unwrap();
    let p = Process::from_pid(77).unwrap();
    assert!(p.main_thread_entry(&snap, 4242).is_none());
}

#[test]
fn main_thread_entry_none_on_empty_snapshot() {
    let flags = SnapshotFlags::new(TH32CS_SNAPTHREAD);
    let snap = Snapshot::from_pid(4242, flags, 33, Vec::new(), Vec::new()).unwrap();
    let p = Process::from_pid(77).unwrap();
    assert!(p.main_thread_entry(&snap, 4242).is_none());
}

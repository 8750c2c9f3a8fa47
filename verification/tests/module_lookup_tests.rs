use winapiwrapper::ModuleEntry;
use winapiwrapper::Process;
use winapiwrapper::Snapshot;
use winapiwrapper::SnapshotFlags;
use winapiwrapper::TH32CS_SNAPMODULE;
use winapiwrapper::TH32CS_SNAPMODULE32;

fn name_buf(s: &str) -> [u8; 256] {
    let mut buf = [0u8; 256];
    let bytes = s.as_bytes();
    let mut i = 0;
    while i < bytes.len() {
        buf[i] = bytes[i];
        i += 1;
    }
    buf
}

fn module(name: &str, base: usize, size: u32) -> ModuleEntry {
    ModuleEntry { name: name_buf(name), base_address: base, size }
}

fn module_snapshot(pid: u32, modules: Vec<ModuleEntry>) -> Snapshot {
    let flags = SnapshotFlags::new(TH32CS_SNAPMODULE | TH32CS_SNAPMODULE32);
    Snapshot::from_pid(pid, flags, 33, modules, Vec::new()).unwrap()
}

#[test]
fn lookup_finds_loaded_module_and_misses_absent_one() {
    let snap = module_snapshot(
        4242,
        vec![module("ntdll.dll", 0x7ff800000000, 0x1000), module(
            "kernel32.dll",
            0x7ff900000000,
            0x2000,
        )],
    );
    let p = Process::from_pid(77).unwrap();
    let found = p.module_entry_by_name("kernel32", &snap).unwrap().unwrap();
    assert_eq!(found.base_address, 0x7ff900000000);
    assert_eq!(found.size, 0x2000);
    let absent = p.module_entry_by_name("nonexistent", &snap).unwrap();
    assert!(absent.is_none());
}

#[test]
fn lookup_is_case_insensitive_and_forces_extension() {
    let snap = module_snapshot(4242, vec![module("foo.dll", 0x5000, 64)]);
    let p = Process::from_pid(77).unwrap();
    let via_stem = p.module_entry_by_name("foo", &snap).unwrap().unwrap();
    let via_upper = p.module_entry_by_name("FOO.DLL", &snap).unwrap().unwrap();
    assert_eq!(via_stem.base_address, 0x5000);
    assert_eq!(via_upper.base_address, 0x5000);
}

#[test]
fn lookup_matches_uppercase_record_names() {
    let snap = module_snapshot(4242, vec![module("KERNEL32.DLL", 0x9000, 64)]);
    let p = Process::from_pid(77).unwrap();
    let found = p.module_entry_by_name("kernel32", &snap).unwrap().unwrap();
    assert_eq!(found.base_address, 0x9000);
}

#[test]
fn lookup_replaces_a_foreign_extension() {
    let snap = module_snapshot(4242, vec![module("a.dll", 0x5000, 64)]);
    let p = Process::from_pid(77).unwrap();
    let found = p.module_entry_by_name("a.exe", &snap).unwrap().unwrap();
    assert_eq!(found.base_address, 0x5000);
}

#[test]
fn lookup_keeps_dots_inside_the_stem() {
    let snap = module_snapshot(4242, vec![module("a.b.dll", 0x6000, 64)]);
    let p = Process::from_pid(77).unwrap();
    let found = p.module_entry_by_name("a.b.baz", &snap).unwrap().unwrap();
    assert_eq!(found.base_address, 0x6000);
    // "a.b" keeps only "a" as its stem, so it does not name this module
    assert!(p.module_entry_by_name("a.b", &snap).unwrap().is_none());
}

#[test]
fn lookup_treats_leading_dot_as_part_of_the_stem() {
    let snap = module_snapshot(4242, vec![module(".foo.dll", 0x7000, 64)]);
    let p = Process::from_pid(77).unwrap();
    let found = p.module_entry_by_name(".foo", &snap).unwrap().unwrap();
    assert_eq!(found.base_address, 0x7000);
}

#[test]
fn extension_is_forced_on_the_file_name_only() {
    // a dot in a directory component is no extension separator: the query
    // "dir.x/foo" gains its suffix after "foo", so it names neither a module
    // called dir.dll nor one called foo.dll
    let snap = module_snapshot(
        4242,
        vec![module("dir.dll", 0x4000, 64), module("foo.dll", 0x5000, 64)],
    );
    let p = Process::from_pid(77).unwrap();
    assert!(p.module_entry_by_name("dir.x/foo", &snap).unwrap().is_none());
    assert!(p.module_entry_by_name("dir.x\\foo", &snap).unwrap().is_none());
    // with the directory as the file name, its own extension is replaced
    let found = p.module_entry_by_name("dir.x/", &snap).unwrap().unwrap();
    assert_eq!(found.base_address, 0x4000);
}

#[test]
fn lookup_ignores_trailing_separators_and_dot_components() {
    let snap = module_snapshot(4242, vec![module("foo.dll", 0x5000, 64)]);
    let p = Process::from_pid(77).unwrap();
    assert_eq!(p.module_entry_by_name("foo/", &snap).unwrap().unwrap().base_address, 0x5000);
    assert_eq!(p.module_entry_by_name("foo/.", &snap).unwrap().unwrap().base_address, 0x5000);
    // a leading directory stays part of the compared text
    assert!(p.module_entry_by_name("./foo", &snap).unwrap().is_none());
}

#[test]
fn queries_without_a_file_name_keep_their_text() {
    // ".", ".." and "foo/.." name no file, so no suffix is forced onto them
    let snap = module_snapshot(4242, vec![module("kernel32.dll", 0x1000, 16)]);
    let p = Process::from_pid(77).unwrap();
    assert!(p.module_entry_by_name(".", &snap).unwrap().is_none());
    assert!(p.module_entry_by_name("..", &snap).unwrap().is_none());
    assert!(p.module_entry_by_name("foo/..", &snap).unwrap().is_none());
    assert!(p.module_entry_by_name("/", &snap).unwrap().is_none());
}

#[test]
fn utf8_name_is_decoded_and_matched() {
    let snap = module_snapshot(4242, vec![module("tëst.dll", 0x8000, 64)]);
    let p = Process::from_pid(77).unwrap();
    let found = p.module_entry_by_name("tëst", &snap).unwrap().unwrap();
    assert_eq!(found.base_address, 0x8000);
    // case folding touches the twenty-six plain letters only
    assert!(p.module_entry_by_name("TËST", &snap).unwrap().is_none());
}

#[test]
fn lookup_with_no_match_is_none_not_error() {
    let snap = module_snapshot(
        4242,
        vec![module("ntdll.dll", 0x1000, 16), module("user32.dll", 0x2000, 16)],
    );
    let p = Process::from_pid(77).unwrap();
    let r = p.module_entry_by_name("kernel32", &snap);
    assert!(r.is_ok());
    assert!(r.unwrap().is_none());
}

#[test]
fn lookup_on_empty_snapshot_is_none() {
    let snap = module_snapshot(4242, Vec::new());
    let p = Process::from_pid(77).unwrap();
    assert!(p.module_entry_by_name("kernel32", &snap).unwrap().is_none());
}

#[test]
fn empty_query_names_no_module() {
    let snap = module_snapshot(4242, vec![module("kernel32.dll", 0x1000, 16)]);
    let p = Process::from_pid(77).unwrap();
    assert!(p.module_entry_by_name("", &snap).unwrap().is_none());
}

#[test]
fn undecodable_name_before_a_match_is_an_error() {
    let mut bad = name_buf("bad.dll");
    bad[1] = 0xFF;
    let snap = module_snapshot(4242, vec![
        ModuleEntry { name: bad, base_address: 0x1000, size: 16 },
        module("kernel32.dll", 0x2000, 16),
    ]);
    let p = Process::from_pid(77).unwrap();
    let r = p.module_entry_by_name("kernel32", &snap);
    assert_eq!(r.err().unwrap().message().as_str(), "Failed to decode module entry name");
}

#[test]
fn undecodable_name_after_a_match_is_ignored() {
    let mut bad = name_buf("bad.dll");
    bad[1] = 0xFF;
    let snap = module_snapshot(4242, vec![module("kernel32.dll", 0x2000, 16), ModuleEntry {
        name: bad,
        base_address: 0x1000,
        size: 16,
    }]);
    let p = Process::from_pid(77).unwrap();
    let found = p.module_entry_by_name("kernel32", &snap).unwrap().unwrap();
    assert_eq!(found.base_address, 0x2000);
}

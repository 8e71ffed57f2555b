use trading_utils::{
    find_dynamic_library_in_crate, find_dynamic_library_in_dir, select_library, DirEntry,
    Discovery, EntryKind, Platform,
};

fn file(path: &str) -> DirEntry {
    let extension = path.rsplit_once('.').map(|(_, e)| e.to_string());
    DirEntry { path: path.to_string(), extension, kind: EntryKind::File }
}

fn dir(path: &str) -> DirEntry {
    DirEntry { path: path.to_string(), extension: None, kind: EntryKind::Directory }
}

#[test]
fn library_extension_by_platform() {
    assert_eq!(Platform::Windows.library_extension(), "dll");
    assert_eq!(Platform::Unix.library_extension(), "so");
    assert!(file("a.so").is_dynamic_library(Platform::Unix));
    assert!(!file("a.so").is_dynamic_library(Platform::Windows));
    assert!(file("a.dll").is_dynamic_library(Platform::Windows));
    assert!(!file("a.sox").is_dynamic_library(Platform::Unix));
    assert!(!file("so").is_dynamic_library(Platform::Unix));
    let odd = DirEntry { path: "d.so".to_string(), extension: Some("so".to_string()), kind: EntryKind::Directory };
    assert!(!odd.is_dynamic_library(Platform::Unix));
}

#[test]
fn first_library_of_a_directory_is_found() {
    let entries = [file("m/readme.md"), dir("m/x.so"), file("m/libb.so"), file("m/liba.so")];
    assert_eq!(find_dynamic_library_in_dir(&entries, Platform::Unix), Some("m/libb.so"));
    assert_eq!(find_dynamic_library_in_dir(&entries, Platform::Windows), None);
    assert_eq!(find_dynamic_library_in_dir(&[], Platform::Unix), None);
}

#[test]
fn crate_directory_prefers_release_over_debug() {
    let release = [file("c/target/release/libc.so")];
    let debug = [file("c/target/debug/libc.so")];
    assert_eq!(
        find_dynamic_library_in_crate(true, &release, &debug, Platform::Unix),
        Some("c/target/release/libc.so")
    );
    assert_eq!(
        find_dynamic_library_in_crate(true, &[file("c/target/release/x.d")], &debug, Platform::Unix),
        Some("c/target/debug/libc.so")
    );
    assert_eq!(find_dynamic_library_in_crate(true, &[], &[], Platform::Unix), None);
    assert_eq!(find_dynamic_library_in_crate(false, &release, &debug, Platform::Unix), None);
}

#[test]
fn search_rule_for_one_entry() {
    let inside = [file("e/lib_inside.so")];
    let release = [file("e/target/release/lib_release.so")];
    let debug = [file("e/target/debug/lib_debug.so")];
    let library = file("root/direct.so");
    assert_eq!(
        select_library(&library, &inside, &release, &debug, Platform::Unix),
        Discovery::Library("root/direct.so")
    );
    let entry = dir("e");
    assert_eq!(
        select_library(&entry, &inside, &release, &debug, Platform::Unix),
        Discovery::Library("e/lib_inside.so")
    );
    assert_eq!(
        select_library(&entry, &[], &release, &debug, Platform::Unix),
        Discovery::Library("e/target/release/lib_release.so")
    );
    assert_eq!(
        select_library(&entry, &[], &[], &debug, Platform::Unix),
        Discovery::Library("e/target/debug/lib_debug.so")
    );
    assert_eq!(select_library(&entry, &[], &[], &[], Platform::Unix), Discovery::EmptyDirectory);
    assert_eq!(
        select_library(&file("root/notes.txt"), &inside, &release, &debug, Platform::Unix),
        Discovery::NotAnAlgorithm
    );
    let other = DirEntry { path: "root/pipe".to_string(), extension: None, kind: EntryKind::Other };
    assert_eq!(select_library(&other, &inside, &release, &debug, Platform::Unix), Discovery::NotAnAlgorithm);
}

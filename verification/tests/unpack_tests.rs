use arcana_launcher::progress::{InstallPhase, ProgressChannel};
use arcana_launcher::unpack::{resolve_entry_name, unpack, EntryAction, PathResolution, UnpackError};
use std::io::Write;

fn zip_with_files(files: &[(&str, &[u8])], dirs: &[&str]) -> Vec<u8> {
    let mut w = zip::ZipWriter::new(std::io::Cursor::new(Vec::new()));
    let opts = zip::write::SimpleFileOptions::default();
    for d in dirs {
        w.add_directory(*d, opts).unwrap();
    }
    for (name, data) in files {
        w.start_file(*name, opts).unwrap();
        w.write_all(data).unwrap();
    }
    w.finish().unwrap().into_inner()
}

fn components(parts: &[&str]) -> Vec<Vec<u8>> {
    parts.iter().map(|p| p.as_bytes().to_vec()).collect()
}

#[test]
fn resolve_plain_nested_name() {
    match resolve_entry_name(&b"a/b.txt".to_vec()) {
        PathResolution::Components(c) => assert_eq!(c, components(&["a", "b.txt"])),
        _ => panic!("expected components"),
    }
}

#[test]
fn resolve_drops_empty_and_dot_components() {
    match resolve_entry_name(&b"a//./b/".to_vec()) {
        PathResolution::Components(c) => assert_eq!(c, components(&["a", "b"])),
        _ => panic!("expected components"),
    }
}

#[test]
fn resolve_rejects_parent_component() {
    assert!(matches!(resolve_entry_name(&b"../outside.txt".to_vec()), PathResolution::Escape));
    assert!(matches!(resolve_entry_name(&b"a/../b".to_vec()), PathResolution::Escape));
}

#[test]
fn resolve_rejects_absolute_name() {
    assert!(matches!(resolve_entry_name(&b"/etc/shadow".to_vec()), PathResolution::Escape));
    assert!(matches!(resolve_entry_name(&b"//".to_vec()), PathResolution::Escape));
}

#[test]
fn resolve_rejects_backslash_separators() {
    assert!(matches!(resolve_entry_name(&b"a\\..\\b".to_vec()), PathResolution::Escape));
    assert!(matches!(resolve_entry_name(&b"\\windows\\evil".to_vec()), PathResolution::Escape));
    match resolve_entry_name(&b"sub\\file.txt".to_vec()) {
        PathResolution::Components(c) => assert_eq!(c, components(&["sub", "file.txt"])),
        _ => panic!("expected components"),
    }
}

#[test]
fn resolve_skips_drive_and_stream_colons() {
    assert!(matches!(resolve_entry_name(&b"C:\\evil.txt".to_vec()), PathResolution::Malformed));
    assert!(matches!(resolve_entry_name(&b"C:evil.txt".to_vec()), PathResolution::Malformed));
    assert!(matches!(resolve_entry_name(&b"file.txt:stream".to_vec()), PathResolution::Malformed));
}

#[test]
fn unpack_backslash_traversal_fails_with_path_escape() {
    let bytes = zip_with_files(&[("..\\outside.txt", b"x")], &[]);
    let mut ch = ProgressChannel::new();
    let r = unpack(bytes, &mut ch);
    assert!(matches!(r, Err(UnpackError::PathEscape)));
}

#[test]
fn resolve_skips_unresolvable_names() {
    assert!(matches!(resolve_entry_name(&b"".to_vec()), PathResolution::Malformed));
    assert!(matches!(resolve_entry_name(&b".".to_vec()), PathResolution::Malformed));
    assert!(matches!(resolve_entry_name(&b"./.".to_vec()), PathResolution::Malformed));
    assert!(matches!(resolve_entry_name(&b"a\0b".to_vec()), PathResolution::Malformed));
}

#[test]
fn unpack_round_trip_plan_matches_archive() {
    // Two files and one nested directory: the plan holds exactly those
    // paths, with matching byte content.
    let bytes = zip_with_files(
        &[("top.txt", b"hello"), ("nested/inner.txt", b"world!")],
        &["nested/"],
    );
    let mut ch = ProgressChannel::new();
    let plan = unpack(bytes, &mut ch).unwrap();
    assert_eq!(plan.len(), 3);
    match &plan[0] {
        EntryAction::MakeDir { path, .. } => assert_eq!(*path, components(&["nested"])),
        _ => panic!("expected a directory action"),
    }
    match &plan[1] {
        EntryAction::WriteFile { path, data, .. } => {
            assert_eq!(*path, components(&["top.txt"]));
            assert_eq!(data.as_slice(), b"hello");
        },
        _ => panic!("expected a file action"),
    }
    match &plan[2] {
        EntryAction::WriteFile { path, data, .. } => {
            assert_eq!(*path, components(&["nested", "inner.txt"]));
            assert_eq!(data.as_slice(), b"world!");
        },
        _ => panic!("expected a file action"),
    }
}

#[test]
fn unpack_final_phase_is_last_entry_fraction() {
    // Three entries: the last published phase is Extracting(2 / 3).
    let bytes = zip_with_files(
        &[("a.txt", b"a"), ("b.txt", b"b"), ("c.txt", b"c")],
        &[],
    );
    let mut ch = ProgressChannel::new();
    let plan = unpack(bytes, &mut ch).unwrap();
    assert_eq!(plan.len(), 3);
    match ch.get() {
        InstallPhase::Extracting(f) => {
            assert_eq!(f.num, 2);
            assert_eq!(f.den, 3);
        },
        _ => panic!("expected an extracting phase"),
    }
}

#[test]
fn unpack_keeps_stored_permission_bits() {
    let mut w = zip::ZipWriter::new(std::io::Cursor::new(Vec::new()));
    let opts = zip::write::SimpleFileOptions::default().unix_permissions(0o755);
    w.start_file("run.sh", opts).unwrap();
    w.write_all(b"#!/bin/sh\n").unwrap();
    let bytes = w.finish().unwrap().into_inner();
    let mut ch = ProgressChannel::new();
    let plan = unpack(bytes, &mut ch).unwrap();
    match &plan[0] {
        EntryAction::WriteFile { mode, .. } => {
            let m = mode.expect("permissions were stored");
            assert_eq!(m & 0o777, 0o755);
        },
        _ => panic!("expected a file action"),
    }
}

#[test]
fn unpack_escaping_entry_fails_with_path_escape() {
    let bytes = zip_with_files(&[("../outside.txt", b"gotcha")], &[]);
    let mut ch = ProgressChannel::new();
    let r = unpack(bytes, &mut ch);
    assert!(matches!(r, Err(UnpackError::PathEscape)));
}

#[test]
fn unpack_rejects_bytes_that_are_no_archive() {
    let mut ch = ProgressChannel::new();
    let r = unpack(b"this is not a zip file".to_vec(), &mut ch);
    assert!(matches!(r, Err(UnpackError::OpenFailed)));
    assert!(ch.get() == InstallPhase::Idle);
}

#[test]
fn unpack_empty_archive_yields_empty_plan() {
    let w = zip::ZipWriter::new(std::io::Cursor::new(Vec::new()));
    let bytes = w.finish().unwrap().into_inner();
    let mut ch = ProgressChannel::new();
    let plan = unpack(bytes, &mut ch).unwrap();
    assert!(plan.is_empty());
}

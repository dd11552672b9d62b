//! Extraction planning against real zip archives built in memory.

use bootstrapper::archive::{is_safe_path, plan_extraction, ArchiveOpenError, EntryAction};
use std::io::Write;
use zip::write::SimpleFileOptions;

fn build_zip(entries: &[(&str, Option<&[u8]>)]) -> Vec<u8> {
    let mut w = zip::ZipWriter::new(std::io::Cursor::new(Vec::new()));
    let opts = SimpleFileOptions::default();
    for (name, data) in entries {
        match data {
            Some(d) => {
                w.start_file(*name, opts).unwrap();
                w.write_all(d).unwrap();
            }
            None => {
                w.add_directory(*name, opts).unwrap();
            }
        }
    }
    w.finish().unwrap().into_inner()
}

#[test]
fn safe_paths_are_recognised() {
    assert!(is_safe_path(&b"a.txt".to_vec()));
    assert!(is_safe_path(&b"dir/sub/file.bin".to_vec()));
    assert!(is_safe_path(&b"dir/".to_vec()));
    assert!(!is_safe_path(&b"".to_vec()));
    assert!(!is_safe_path(&b"/etc/shadow".to_vec()));
    assert!(!is_safe_path(&b"../evil.txt".to_vec()));
    assert!(!is_safe_path(&b"a/../../b".to_vec()));
    assert!(!is_safe_path(&b"dir/..".to_vec()));
    assert!(!is_safe_path(&b"a\\b".to_vec()));
    assert!(!is_safe_path(&b"a\0b".to_vec()));
    assert!(is_safe_path(&b"not..dots".to_vec()));
    assert!(is_safe_path(&b"..three/dots".to_vec()));
}

#[test]
fn a_clean_archive_is_planned_in_full() {
    let bytes = build_zip(&[
        ("dir/", None),
        ("dir/a.txt", Some(b"hello")),
        ("b.txt", Some(b"world")),
    ]);
    let plan = plan_extraction(bytes).unwrap();
    assert_eq!(plan.report.entries, 3);
    assert_eq!(plan.report.planned, 3);
    assert_eq!(plan.report.skipped, 0);
    assert_eq!(plan.report.write_failures, 0);
    assert_eq!(plan.actions.len(), 3);
    match &plan.actions[0] {
        EntryAction::MakeDir { path } => assert_eq!(path, &b"dir/".to_vec()),
        _ => panic!("expected a directory action"),
    }
    match &plan.actions[1] {
        EntryAction::WriteFile { path, data } => {
            assert_eq!(path, &b"dir/a.txt".to_vec());
            assert_eq!(data, &b"hello".to_vec());
        }
        _ => panic!("expected a file action"),
    }
    match &plan.actions[2] {
        EntryAction::WriteFile { path, data } => {
            assert_eq!(path, &b"b.txt".to_vec());
            assert_eq!(data, &b"world".to_vec());
        }
        _ => panic!("expected a file action"),
    }
}

#[test]
fn one_unsafe_entry_is_skipped_and_isolates_the_rest() {
    let bytes = build_zip(&[
        ("ok1.txt", Some(b"1")),
        ("../evil.txt", Some(b"pwn")),
        ("ok2.txt", Some(b"2")),
        ("sub/ok3.txt", Some(b"3")),
    ]);
    let plan = plan_extraction(bytes).unwrap();
    assert_eq!(plan.report.entries, 4);
    assert_eq!(plan.report.planned, 3);
    assert_eq!(plan.report.skipped, 1);
    assert_eq!(plan.actions.len(), 3);
    for action in &plan.actions {
        match action {
            EntryAction::MakeDir { path } => assert!(is_safe_path(path)),
            EntryAction::WriteFile { path, .. } => assert!(is_safe_path(path)),
        }
    }
}

#[test]
fn a_corrupt_container_cannot_be_opened() {
    assert!(matches!(
        plan_extraction(b"this is not a zip archive".to_vec()),
        Err(ArchiveOpenError)
    ));
    assert!(matches!(plan_extraction(Vec::new()), Err(ArchiveOpenError)));
}

#[test]
fn an_empty_archive_plans_nothing() {
    let bytes = build_zip(&[]);
    let plan = plan_extraction(bytes).unwrap();
    assert_eq!(plan.report.entries, 0);
    assert_eq!(plan.report.planned, 0);
    assert_eq!(plan.report.skipped, 0);
    assert!(plan.actions.is_empty());
}

#[test]
fn write_failures_are_counted_not_fatal() {
    let bytes = build_zip(&[("a.txt", Some(b"x"))]);
    let mut plan = plan_extraction(bytes).unwrap();
    plan.report.note_write_failure();
    assert_eq!(plan.report.write_failures, 1);
    assert_eq!(plan.report.planned, 1);
}

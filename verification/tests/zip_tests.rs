use std::io::{Cursor, Write};

use archive_deploy::zip_extract::{extract_zip, plan_entry_write, PlannedWrite};
use zip::write::SimpleFileOptions;
use zip::ZipWriter;

fn zip_bytes(entries: &[(&str, Option<&[u8]>)]) -> Vec<u8> {
    let mut writer = ZipWriter::new(Cursor::new(Vec::new()));
    let options = SimpleFileOptions::default();
    for (name, contents) in entries {
        match contents {
            Some(bytes) => {
                writer.start_file(*name, options).unwrap();
                writer.write_all(bytes).unwrap();
            },
            None => {
                writer.add_directory(*name, options).unwrap();
            },
        }
    }
    writer.finish().unwrap().into_inner()
}

#[test]
fn zip_round_trip_single_file() {
    let payload: &[u8] = b"round trip payload \xe4\xb8\xad";
    let data = zip_bytes(&[("a/b.txt", Some(payload))]);
    let writes = extract_zip(&data, "D").unwrap();
    assert_eq!(writes.len(), 1);
    match &writes[0] {
        PlannedWrite::File { path, contents } => {
            assert_eq!(path, "D/a/b.txt");
            assert_eq!(contents.as_slice(), payload);
        },
        PlannedWrite::Directory { .. } => panic!("a file entry plans a file write"),
    }
}

#[test]
fn zip_directory_entries_plan_directories() {
    let data = zip_bytes(&[("d", None), ("d/x.bin", Some(b"\x00\x01\x02"))]);
    let writes = extract_zip(&data, "out").unwrap();
    assert_eq!(writes.len(), 2);
    match &writes[0] {
        PlannedWrite::Directory { path } => assert_eq!(path, "out/d/"),
        PlannedWrite::File { .. } => panic!("a directory entry plans a directory"),
    }
    match &writes[1] {
        PlannedWrite::File { path, contents } => {
            assert_eq!(path, "out/d/x.bin");
            assert_eq!(contents.as_slice(), b"\x00\x01\x02");
        },
        PlannedWrite::Directory { .. } => panic!("a file entry plans a file write"),
    }
}

#[test]
fn zip_garbage_is_rejected() {
    let garbage = vec![0u8; 64];
    assert!(extract_zip(&garbage, "D").is_err());
    assert!(extract_zip(&Vec::new(), "D").is_err());
}

#[test]
fn zip_entries_come_from_the_archive_not_its_bytes() {
    let payload: &[u8] = b"inner";
    let data = zip_bytes(&[("f.txt", Some(payload))]);
    let raw = data.clone();
    let writes = extract_zip(&data, "").unwrap();
    match &writes[0] {
        PlannedWrite::File { path, contents } => {
            assert_eq!(path, "f.txt");
            assert_eq!(contents.as_slice(), payload);
            assert_ne!(contents.as_slice(), raw.as_slice());
        },
        PlannedWrite::Directory { .. } => panic!("a file entry plans a file write"),
    }
}

#[test]
fn planned_write_joins_paths() {
    let w = plan_entry_write("D", "a/b.txt", b"x".to_vec());
    match w {
        PlannedWrite::File { path, contents } => {
            assert_eq!(path, "D/a/b.txt");
            assert_eq!(contents, b"x".to_vec());
        },
        PlannedWrite::Directory { .. } => panic!("a file name plans a file write"),
    }
    let w = plan_entry_write("D/", "sub/", Vec::new());
    match w {
        PlannedWrite::Directory { path } => assert_eq!(path, "D/sub/"),
        PlannedWrite::File { .. } => panic!("a slash-terminated name plans a directory"),
    }
    let w = plan_entry_write("", "lone.bin", b"y".to_vec());
    match w {
        PlannedWrite::File { path, .. } => assert_eq!(path, "lone.bin"),
        PlannedWrite::Directory { .. } => panic!("a file name plans a file write"),
    }
}

use std::io::{Cursor, Write};

use aria2c_gui_rs::archive::{
    cache_dir_name, cache_root_name, step_for_entry, EntryOutcome, ExtractStep, Extraction,
    UnzipFailure, INIT_FILE_MODE,
};
use zip::write::FileOptions;
use zip::{CompressionMethod, ZipWriter};

fn build_zip(entries: &[(&str, Option<&[u8]>)]) -> Vec<u8> {
    let mut w = ZipWriter::new(Cursor::new(Vec::new()));
    let options = FileOptions::default().compression_method(CompressionMethod::Stored);
    for (name, data) in entries {
        match data {
            None => w.add_directory(*name, options).unwrap(),
            Some(bytes) => {
                w.start_file(*name, options).unwrap();
                w.write_all(bytes).unwrap();
            }
        }
    }
    w.finish().unwrap().into_inner()
}

/// Takes every entry out, collecting the steps, until extraction ends.
fn extract_all(bytes: &[u8]) -> (Vec<ExtractStep>, Option<UnzipFailure>, Vec<Option<String>>) {
    let mut extraction = match Extraction::open(bytes) {
        Ok(x) => x,
        Err(f) => return (vec![], Some(f), vec![]),
    };
    let mut steps = vec![];
    let mut errors = vec![];
    while let Some(EntryOutcome { read_error, step }) = extraction.next_step() {
        errors.push(read_error);
        match step {
            Ok(s) => steps.push(s),
            Err(f) => {
                assert_eq!(extraction.next_step(), None);
                return (steps, Some(f), errors);
            }
        }
    }
    (steps, None, errors)
}

fn file(name: &str, data: &[u8]) -> ExtractStep {
    ExtractStep::File { name: name.to_string(), data: data.to_vec() }
}

fn dir(name: &str) -> ExtractStep {
    ExtractStep::Directory { name: name.to_string() }
}

#[test]
fn cache_directory_names() {
    assert_eq!(cache_root_name(), ".cache");
    assert_eq!(cache_dir_name("0.1.0"), "aria2c-gui-rs-0.1.0");
    assert_eq!(INIT_FILE_MODE, 0o766);
}

#[test]
fn steps_for_entries() {
    assert_eq!(step_for_entry("static/".to_string(), vec![1]), Some(dir("static/")));
    assert_eq!(step_for_entry("a.txt".to_string(), vec![1, 2]), Some(file("a.txt", &[1, 2])));
    assert_eq!(step_for_entry("".to_string(), vec![]), None);
    assert_eq!(step_for_entry("文件".to_string(), vec![]), None);
    assert_eq!(step_for_entry("目录/".to_string(), vec![]), Some(dir("目录/")));
}

#[test]
fn garbage_is_not_an_archive() {
    let (steps, failure, _) = extract_all(b"not a zip file at all");
    assert_eq!(steps, vec![]);
    assert_eq!(failure, Some(UnzipFailure::InvalidArchive));
}

#[test]
fn archive_is_planned_in_order() {
    let bytes = build_zip(&[
        ("dist", None),
        ("dist/index.html", Some(b"<html></html>")),
        ("dist/empty", Some(b"")),
    ]);
    let (steps, failure, errors) = extract_all(&bytes);
    assert_eq!(failure, None);
    assert_eq!(
        steps,
        vec![dir("dist/"), file("dist/index.html", b"<html></html>"), file("dist/empty", b"")]
    );
    assert_eq!(errors, vec![None, None, None]);
}

#[test]
fn empty_archive_has_no_steps() {
    let (steps, failure, _) = extract_all(&build_zip(&[]));
    assert_eq!(failure, None);
    assert_eq!(steps, vec![]);
}

#[test]
fn unsplittable_name_stops_the_plan() {
    let bytes = build_zip(&[("a", Some(b"1")), ("bé", Some(b"2")), ("c", Some(b"3"))]);
    let (steps, failure, _) = extract_all(&bytes);
    assert_eq!(steps, vec![file("a", b"1")]);
    assert_eq!(failure, Some(UnzipFailure::UnsplittableName { index: 1 }));
}

#[test]
fn unreadable_entry_stops_the_plan() {
    let mut bytes = build_zip(&[("a", Some(b"1")), ("b", Some(b"2"))]);
    // Mark the second entry of the central directory as encrypted.
    let mut seen = 0;
    let mut at = None;
    for i in 0..bytes.len() - 4 {
        if bytes[i..i + 4] == [0x50, 0x4b, 0x01, 0x02] {
            seen += 1;
            if seen == 2 {
                at = Some(i);
            }
        }
    }
    let at = at.unwrap();
    bytes[at + 8] |= 1;
    let (steps, failure, _) = extract_all(&bytes);
    assert_eq!(steps, vec![file("a", b"1")]);
    assert_eq!(failure, Some(UnzipFailure::UnreadableEntry { index: 1 }));
}

/// Finds the central directory header of the entry with this position.
fn central_header(bytes: &[u8], entry: usize) -> usize {
    let mut seen = 0;
    for i in 0..bytes.len() - 4 {
        if bytes[i..i + 4] == [0x50, 0x4b, 0x01, 0x02] {
            if seen == entry {
                return i;
            }
            seen += 1;
        }
    }
    panic!("no such entry")
}

#[test]
fn aes_field_without_encryption_is_unreadable() {
    // An entry whose extra field announces AES while its encrypted flag is
    // clear: the zip crate's `by_index` panics on it, extraction reports it.
    let mut w = ZipWriter::new(Cursor::new(Vec::new()));
    let options = FileOptions::default().compression_method(CompressionMethod::Stored);
    w.start_file("a", options).unwrap();
    w.write_all(b"1").unwrap();
    w.start_file_with_extra_data("b", options).unwrap();
    // A private field of the AES field's shape, relabelled below: the
    // writer refuses to write the AES label itself.
    w.write_all(&[0xfe, 0xca, 0x07, 0x00, 0x02, 0x00, 0x41, 0x45, 0x03, 0x00, 0x00]).unwrap();
    w.end_extra_data().unwrap();
    w.write_all(b"2").unwrap();
    let mut bytes = w.finish().unwrap().into_inner();
    let mut relabelled = 0;
    for i in 0..bytes.len() - 4 {
        if bytes[i..i + 4] == [0xfe, 0xca, 0x07, 0x00] {
            bytes[i] = 0x01;
            bytes[i + 1] = 0x99;
            relabelled += 1;
        }
    }
    assert!(relabelled >= 1);
    let at = central_header(&bytes, 1);
    assert_eq!(bytes[at + 8] & 1, 0);
    let (steps, failure, _) = extract_all(&bytes);
    assert_eq!(steps, vec![file("a", b"1")]);
    assert_eq!(failure, Some(UnzipFailure::UnreadableEntry { index: 1 }));
}

#[test]
fn read_errors_are_reported() {
    // A stored entry whose checksum does not match its bytes reads with an error.
    let mut bytes = build_zip(&[("a", Some(b"hello"))]);
    let at = central_header(&bytes, 0);
    bytes[at + 16] ^= 0xff;
    let local = 0;
    bytes[local + 14] ^= 0xff;
    let (steps, failure, errors) = extract_all(&bytes);
    assert_eq!(failure, None);
    assert_eq!(steps, vec![file("a", b"hello")]);
    assert!(errors[0].is_some());
}

use std::io::Write;

use tabzip::errors::ExtractError;
use tabzip::extract::extract_zip;
use tabzip::filter::{is_directory, is_kept, is_wanted};
use tabzip::paths::dest_path;
use tabzip::plan::{build_plan, descriptors_of, ArchiveEntry, PlannedFile};

/// One entry to put into a test container: a directory name, or a file
/// name with its bytes.
enum TestEntry<'a> {
    Dir(&'a str),
    File(&'a str, &'a [u8]),
}

fn make_archive(entries: &[TestEntry<'_>]) -> Vec<u8> {
    let mut w = zip::ZipWriter::new(std::io::Cursor::new(Vec::new()));
    let opts = zip::write::SimpleFileOptions::default();
    for e in entries {
        match e {
            TestEntry::Dir(name) => {
                w.add_directory(*name, opts).unwrap();
            }
            TestEntry::File(name, data) => {
                w.start_file(*name, opts).unwrap();
                w.write_all(data).unwrap();
            }
        }
    }
    w.finish().unwrap().into_inner()
}

#[test]
fn wanted_suffixes_any_case() {
    assert!(is_wanted("a.csv"));
    assert!(is_wanted("a.CSV"));
    assert!(is_wanted("a.Csv"));
    assert!(is_wanted("a.txt"));
    assert!(is_wanted("a.TXT"));
    assert!(is_wanted("a.tsv"));
    assert!(is_wanted("a.TsV"));
    assert!(is_wanted("reports/2024/jan.csv"));
    assert!(!is_wanted("a.bin"));
    assert!(!is_wanted("a.csv.bak"));
    assert!(!is_wanted("csv"));
    assert!(!is_wanted(".csv.png"));
    assert!(!is_wanted(""));
    assert!(!is_wanted("acsv"));
}

#[test]
fn directory_names() {
    assert!(is_directory("data/"));
    assert!(is_directory("a/b/"));
    assert!(!is_directory("data"));
    assert!(!is_directory(""));
    assert!(!is_kept("data.csv/"));
    assert!(is_kept("data.csv"));
}

#[test]
fn destination_joins_with_one_separator() {
    let p = dest_path("root", "a.csv");
    assert_eq!(p, "root/a.csv");
    let q = dest_path("/tmp/x", "reports/2024/jan.csv");
    assert_eq!(q, "/tmp/x/reports/2024/jan.csv");
}

#[test]
fn plan_on_plain_values() {
    let entries = vec![
        ArchiveEntry { name: String::from("a.csv"), data: vec![1, 2, 3] },
        ArchiveEntry { name: String::from("skip.bin"), data: vec![9] },
        ArchiveEntry { name: String::from("d/"), data: vec![] },
        ArchiveEntry { name: String::from("d/b.TXT"), data: vec![4] },
    ];
    let plan = build_plan(&entries, "r");
    assert_eq!(plan.len(), 2);
    assert_eq!(plan[0].name, "a.csv");
    assert_eq!(plan[0].path, "r/a.csv");
    assert_eq!(plan[0].data, vec![1, 2, 3]);
    assert_eq!(plan[1].name, "d/b.TXT");
    assert_eq!(plan[1].path, "r/d/b.TXT");
    assert_eq!(plan[1].data, vec![4]);
}

#[test]
fn descriptors_carry_name_and_path() {
    let files = vec![
        PlannedFile { name: String::from("a.csv"), path: String::from("r/a.csv"), data: vec![1] },
        PlannedFile { name: String::from("b.tsv"), path: String::from("r/b.tsv"), data: vec![2] },
    ];
    let ds = descriptors_of(&files);
    assert_eq!(ds.len(), 2);
    assert_eq!(ds[0].name, "a.csv");
    assert_eq!(ds[0].path, "r/a.csv");
    assert_eq!(ds[1].name, "b.tsv");
    assert_eq!(ds[1].path, "r/b.tsv");
}

#[test]
fn every_wanted_entry_once_in_order() {
    let data = make_archive(&[
        TestEntry::File("a.csv", b"1,2"),
        TestEntry::File("B.CSV", b"3,4"),
        TestEntry::File("notes.TXT", b"hello"),
        TestEntry::File("t.TsV", b"a\tb"),
        TestEntry::File("image.png", b"\x89PNG"),
        TestEntry::File("archive.bin", b"\x00"),
    ]);
    let out = extract_zip(data).unwrap();
    let names: Vec<&str> = out.files.iter().map(|f| f.name.as_str()).collect();
    assert_eq!(names, vec!["a.csv", "B.CSV", "notes.TXT", "t.TsV"]);
    for f in &out.files {
        assert_eq!(f.path, format!("{}/{}", out.root, f.name));
    }
}

#[test]
fn directory_entries_never_reported() {
    let data = make_archive(&[
        TestEntry::Dir("data/"),
        TestEntry::File("data/x.csv", b"x"),
        TestEntry::Dir("empty/"),
    ]);
    let out = extract_zip(data).unwrap();
    assert_eq!(out.files.len(), 1);
    assert_eq!(out.files[0].name, "data/x.csv");
}

#[test]
fn planned_bytes_match_entry_bytes() {
    let body = b"col1,col2\n1,2\n3,4\n";
    let text = b"plain text body";
    let data = make_archive(&[
        TestEntry::File("table.csv", body),
        TestEntry::File("readme.txt", text),
    ]);
    let out = extract_zip(data).unwrap();
    assert_eq!(out.files.len(), 2);
    assert_eq!(out.files[0].data, body.to_vec());
    assert_eq!(out.files[1].data, text.to_vec());
}

#[test]
fn two_invocations_get_distinct_roots() {
    let data = make_archive(&[TestEntry::File("a.csv", b"1")]);
    let first = extract_zip(data.clone()).unwrap();
    let second = extract_zip(data).unwrap();
    assert_ne!(first.root, second.root);
    assert_ne!(first.files[0].path, second.files[0].path);
}

#[test]
fn no_matching_entries_is_a_quiet_success() {
    let data = make_archive(&[
        TestEntry::File("image.png", b"\x89PNG"),
        TestEntry::Dir("only/"),
    ]);
    let out = extract_zip(data).unwrap();
    assert_eq!(out.files.len(), 0);
}

#[test]
fn empty_archive_is_a_quiet_success() {
    let data = make_archive(&[]);
    let out = extract_zip(data).unwrap();
    assert_eq!(out.files.len(), 0);
}

#[test]
fn corrupt_container_is_rejected() {
    let err = extract_zip(b"this is not a zip container".to_vec()).unwrap_err();
    assert!(matches!(err, ExtractError::CorruptArchive(_)));
}

#[test]
fn damaged_entry_bytes_abort_with_io_failure() {
    let marker = b"MARKER-BYTES-TO-DAMAGE";
    let mut w = zip::ZipWriter::new(std::io::Cursor::new(Vec::new()));
    let opts = zip::write::SimpleFileOptions::default()
        .compression_method(zip::CompressionMethod::Stored);
    w.start_file("a.csv", opts).unwrap();
    w.write_all(marker).unwrap();
    let mut data = w.finish().unwrap().into_inner();
    let at = data
        .windows(marker.len())
        .position(|win| win == marker)
        .unwrap();
    data[at] ^= 0xff;
    let err = extract_zip(data).unwrap_err();
    assert!(matches!(err, ExtractError::IoFailure(_)));
}

#[test]
fn nested_entry_path_reconstructed_beneath_root() {
    let data = make_archive(&[
        TestEntry::Dir("reports/"),
        TestEntry::Dir("reports/2024/"),
        TestEntry::File("reports/2024/jan.csv", b"jan"),
    ]);
    let out = extract_zip(data).unwrap();
    assert_eq!(out.files.len(), 1);
    let f = &out.files[0];
    assert_eq!(f.name, "reports/2024/jan.csv");
    assert!(f.path.ends_with("/reports/2024/jan.csv"));
    assert!(f.path.starts_with(out.root.as_str()));
}

#[test]
fn error_messages_surface_the_carried_text() {
    let io = ExtractError::IoFailure(String::from("disk said no"));
    assert_eq!(io.message(), "disk said no");
    let bad = ExtractError::CorruptArchive(String::from("directory unreadable"));
    assert_eq!(bad.message(), "directory unreadable");
}

use qdrant_dump::timestamp::{format_timestamp, resolve_backup_dir};
use qdrant_dump::models::{
    CollectionInfo, CollectionsResponse, CollectionsResult, SnapshotResponse, SnapshotResult,
};

#[test]
fn format_renders_padded_calendar_fields() {
    assert_eq!(
        format_timestamp(2024, 1, 31, 23, 59, 59),
        b"20240131_235959".to_vec()
    );
    assert_eq!(
        format_timestamp(2026, 10, 2, 0, 0, 0),
        b"20261002_000000".to_vec()
    );
}

#[test]
fn format_pads_small_years_to_four_digits() {
    assert_eq!(format_timestamp(7, 1, 1, 1, 2, 3), b"00070101_010203".to_vec());
    assert_eq!(format_timestamp(987, 12, 5, 10, 20, 30), b"09871205_102030".to_vec());
    assert_eq!(format_timestamp(12345, 6, 7, 8, 9, 10), b"123450607_080910".to_vec());
}

#[test]
fn format_marks_negative_years() {
    assert_eq!(format_timestamp(-1, 1, 1, 0, 0, 0), b"-00010101_000000".to_vec());
}

#[test]
fn without_the_flag_the_directory_is_the_base() {
    assert_eq!(resolve_backup_dir(b"./backups", false), b"./backups".to_vec());
}

#[test]
fn with_the_flag_a_timestamp_subdirectory_is_appended() {
    let dir = resolve_backup_dir(b"./backups", true);
    assert!(dir.starts_with(b"./backups/"));
    let ts = &dir[b"./backups/".len()..];
    assert_eq!(ts.len(), b"YYYYMMDD_HHMMSS".len());
    assert_eq!(ts[8], b'_');
    for (i, b) in ts.iter().enumerate() {
        if i != 8 {
            assert!(b.is_ascii_digit(), "unexpected byte in {:?}", ts);
        }
    }
}

#[test]
fn a_base_with_a_trailing_separator_is_not_doubled() {
    let dir = resolve_backup_dir(b"out/", true);
    assert!(dir.starts_with(b"out/"));
    assert!(!dir.starts_with(b"out//"));
    assert_eq!(dir.len(), b"out/".len() + b"YYYYMMDD_HHMMSS".len());
}

#[test]
fn names_keeps_the_listed_order() {
    let resp = CollectionsResponse {
        result: CollectionsResult {
            collections: vec![
                CollectionInfo { name: String::from("alpha") },
                CollectionInfo { name: String::from("beta") },
                CollectionInfo { name: String::from("gamma") },
            ],
        },
    };
    assert_eq!(
        resp.names(),
        vec![
            String::from("alpha"),
            String::from("beta"),
            String::from("gamma"),
        ]
    );
}

#[test]
fn snapshot_response_carries_the_server_name() {
    let resp = SnapshotResponse { result: SnapshotResult { name: String::from("snap1") } };
    assert_eq!(resp.result.name, "snap1");
}

use aria2_bridge::status::{normalize, FileEntry, FormatError, RawTaskStatus, UriEntry};

fn raw(
    status: Option<&str>,
    connections: u32,
    speed: u64,
    total: u64,
    completed: u64,
    path: &str,
    uri: &str,
) -> RawTaskStatus {
    RawTaskStatus {
        gid: "2089b05ecca3d829".to_string(),
        status: status.map(|s| s.to_string()),
        connections,
        error_code: None,
        error_message: None,
        download_speed: speed,
        total_length: total,
        completed_length: completed,
        files: vec![FileEntry {
            path: path.to_string(),
            uris: vec![UriEntry { uri: uri.to_string() }],
        }],
    }
}

#[test]
fn zero_total_hides_size_fields() {
    let t = normalize(&raw(Some("active"), 1, 100, 0, 0, "/dl/a.bin", "http://x/a.bin")).unwrap();
    assert_eq!(t.size_str, None);
    assert_eq!(t.downloaded_str, None);
    assert_eq!(t.percent_str, None);
    assert_eq!(t.rate_str, "0");
    assert_eq!(t.eta_str, None);
}

#[test]
fn full_download_shows_hundred_percent() {
    let t = normalize(&raw(Some("active"), 1, 0, 2048, 2048, "/dl/a.bin", "http://x/a.bin"))
        .unwrap();
    assert_eq!(t.percent_str.as_deref(), Some("100%"));
}

#[test]
fn partial_download_percent_and_sizes() {
    let t = normalize(&raw(Some("active"), 4, 0, 2048, 512, "/dl/a.bin", "http://x/a.bin"))
        .unwrap();
    assert_eq!(t.percent_str.as_deref(), Some("25%"));
    assert_eq!(t.size_str.as_deref(), Some("2.0 KiB"));
    assert_eq!(t.downloaded_str.as_deref(), Some("512 B"));
    assert_eq!(t.connections_str, "4");
}

#[test]
fn complete_forces_zero_eta() {
    let t = normalize(&raw(Some("complete"), 0, 500, 1000, 500, "/dl/a.bin", "http://x/a.bin"))
        .unwrap();
    assert_eq!(t.eta_str.as_deref(), Some("0s"));
    assert_eq!(t.status_label.as_deref(), Some("complete"));
}

#[test]
fn active_becomes_downloading() {
    let t = normalize(&raw(Some("active"), 1, 0, 10, 0, "/dl/a.bin", "http://x/a.bin")).unwrap();
    assert_eq!(t.status_label.as_deref(), Some("downloading"));
}

#[test]
fn removed_becomes_stopped() {
    let t = normalize(&raw(Some("removed"), 1, 0, 10, 0, "/dl/a.bin", "http://x/a.bin")).unwrap();
    assert_eq!(t.status_label.as_deref(), Some("stopped"));
}

#[test]
fn other_statuses_pass_through() {
    let t = normalize(&raw(Some("waiting"), 1, 0, 10, 0, "/dl/a.bin", "http://x/a.bin")).unwrap();
    assert_eq!(t.status_label.as_deref(), Some("waiting"));
    let t = normalize(&raw(None, 1, 0, 10, 0, "/dl/a.bin", "http://x/a.bin")).unwrap();
    assert_eq!(t.status_label, None);
}

#[test]
fn eta_with_hours_minutes_seconds() {
    // 5000 bytes left at one byte per second: 1h 23m 20s.
    let t = normalize(&raw(Some("active"), 1, 1, 5000, 0, "/dl/a.bin", "http://x/a.bin"))
        .unwrap();
    assert_eq!(t.eta_str.as_deref(), Some("1h23m20s"));
}

#[test]
fn eta_with_seconds_only() {
    let t = normalize(&raw(Some("active"), 1, 1, 45, 0, "/dl/a.bin", "http://x/a.bin")).unwrap();
    assert_eq!(t.eta_str.as_deref(), Some("45s"));
}

#[test]
fn eta_with_minutes_and_seconds() {
    let t = normalize(&raw(Some("active"), 1, 1, 90, 0, "/dl/a.bin", "http://x/a.bin")).unwrap();
    assert_eq!(t.eta_str.as_deref(), Some("1m30s"));
}

#[test]
fn rate_carries_unit_and_suffix() {
    let t = normalize(&raw(Some("active"), 1, 1048576, 1 << 31, 0, "/dl/a.bin", "http://x/a"))
        .unwrap();
    assert_eq!(t.rate_str, "1.0 MiB/s");
    assert_eq!(t.size_str.as_deref(), Some("2.0 GiB"));
}

#[test]
fn file_name_is_final_component() {
    let t = normalize(&raw(Some("active"), 1, 0, 10, 0, "/dl/sub/file.bin", "http://x/f"))
        .unwrap();
    assert_eq!(t.file_name.as_deref(), Some("file.bin"));
    assert_eq!(t.link.as_deref(), Some("http://x/f"));
    assert_eq!(t.gid, "2089b05ecca3d829");
}

#[test]
fn empty_path_leaves_file_name_absent() {
    let t = normalize(&raw(Some("active"), 1, 0, 10, 0, "", "http://x/f")).unwrap();
    assert_eq!(t.file_name, None);
}

#[test]
fn missing_files_is_a_format_error() {
    let mut r = raw(Some("active"), 1, 0, 10, 0, "/dl/a.bin", "http://x/f");
    r.files.clear();
    assert_eq!(normalize(&r), Err(FormatError::NoFiles));
}

#[test]
fn missing_uris_is_a_format_error() {
    let mut r = raw(Some("active"), 1, 0, 10, 0, "/dl/a.bin", "http://x/f");
    r.files[0].uris.clear();
    assert_eq!(normalize(&r), Err(FormatError::NoUris));
}

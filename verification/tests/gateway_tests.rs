use aria2_bridge::gateway::{active_gids_from, pause_outcome, tell_active_from, version_outcome};
use aria2_bridge::status::{FileEntry, FormatError, RawTaskStatus, UriEntry};

fn sample(gid: &str) -> RawTaskStatus {
    RawTaskStatus {
        gid: gid.to_string(),
        status: Some("active".to_string()),
        connections: 2,
        error_code: None,
        error_message: None,
        download_speed: 0,
        total_length: 100,
        completed_length: 50,
        files: vec![FileEntry {
            path: "/dl/a.bin".to_string(),
            uris: vec![UriEntry { uri: "http://x/a.bin".to_string() }],
        }],
    }
}

#[test]
fn connectivity_failure_yields_no_partial_list() {
    let r = tell_active_from(None).unwrap();
    assert_eq!(r.0, None);
    assert_eq!(r.1, None);
}

#[test]
fn all_records_are_converted() {
    let r = tell_active_from(Some(vec![sample("g1"), sample("g2")])).unwrap();
    let gids = r.0.unwrap();
    let tasks = r.1.unwrap();
    assert_eq!(gids, vec!["g1".to_string(), "g2".to_string()]);
    assert_eq!(tasks.len(), 2);
    assert_eq!(tasks[0].status_label.as_deref(), Some("downloading"));
    assert_eq!(tasks[1].percent_str.as_deref(), Some("50%"));
}

#[test]
fn one_bad_record_fails_the_poll() {
    let mut bad = sample("g2");
    bad.files.clear();
    let r = tell_active_from(Some(vec![sample("g1"), bad]));
    assert_eq!(r, Err(FormatError::NoFiles));
}

#[test]
fn version_probe_has_a_sentinel() {
    assert_eq!(version_outcome(None), "did not respond");
    assert_eq!(version_outcome(Some("1.36.0".to_string())), "1.36.0");
}

#[test]
fn pause_outcome_maps_success_and_failure() {
    assert_eq!(pause_outcome(true).as_deref(), Some("Ok"));
    assert_eq!(pause_outcome(false), None);
}

#[test]
fn gid_listing_is_empty_on_failure() {
    assert_eq!(active_gids_from(None), Vec::<String>::new());
    let gids = vec!["a".to_string(), "b".to_string()];
    assert_eq!(active_gids_from(Some(gids.clone())), gids);
}

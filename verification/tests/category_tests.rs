use aria2_bridge::category::find_download_path;

#[test]
fn upper_case_video_extension_is_classified() {
    assert_eq!(find_download_path("video.MP4", "/dl", "yes"), "/dl/Videos");
}

#[test]
fn query_string_is_cut_before_lookup() {
    assert_eq!(find_download_path("a.b?x=1", "/dl", "yes"), "/dl/Other");
}

#[test]
fn disabled_classification_keeps_base_path() {
    assert_eq!(find_download_path("video.mp4", "/dl", "no"), "/dl");
    assert_eq!(find_download_path("song.mp3", "/dl", ""), "/dl");
}

#[test]
fn known_buckets() {
    assert_eq!(find_download_path("song.mp3", "/dl", "yes"), "/dl/Audios");
    assert_eq!(find_download_path("paper.pdf", "/dl", "yes"), "/dl/Documents");
    assert_eq!(find_download_path("bundle.tar.gz", "/dl", "yes"), "/dl/Compressed");
    assert_eq!(find_download_path("data.xyz", "/dl", "yes"), "/dl/Other");
}

#[test]
fn base_path_with_trailing_separator() {
    assert_eq!(find_download_path("song.flac", "/dl/", "yes"), "/dl/Audios");
}

#[test]
fn extension_of_final_component_only() {
    assert_eq!(find_download_path("dir.mp3/track.ogg", "/dl", "yes"), "/dl/Audios");
}

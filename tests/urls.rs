use vid_fetch_core::tools::{launch_failure, tool_file_name, tool_version, uses_search_path, version_report};
use vid_fetch_core::urls::{clean_urls, url_file_content};

#[test]
fn urls_are_trimmed_and_blank_lines_dropped() {
    let v = clean_urls("  https://a \r\n\n\t\nhttps://b\n   ").ok().expect("urls");
    assert_eq!(v, vec!["https://a", "https://b"]);
    assert_eq!(url_file_content(&v), "https://a\nhttps://b\n");
}

#[test]
fn blank_url_list_is_an_error() {
    assert_eq!(clean_urls(" \n\r\n ").err(), Some("No valid URLs provided".to_string()));
    assert_eq!(clean_urls("").err(), Some("No valid URLs provided".to_string()));
}

#[test]
fn tool_names_and_reports() {
    assert_eq!(tool_file_name("windows", "ffmpeg"), "ffmpeg.exe");
    assert_eq!(tool_file_name("linux", "ffprobe"), "ffprobe");
    assert!(uses_search_path("  "));
    assert!(!uses_search_path(" /opt/ff "));
    assert_eq!(tool_version("ffmpeg", true, "6.0", "").ok(), Some("ffmpeg version:\n6.0".to_string()));
    assert_eq!(tool_version("ffprobe", false, "", "bad").err(), Some("ffprobe error: bad".to_string()));
    assert_eq!(launch_failure("ffmpeg", "not found"), "Failed to launch ffmpeg: not found");
    assert_eq!(version_report("a", "b"), "a\nb");
}

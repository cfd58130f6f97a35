use vid_fetch_core::process::{completion, launch_arguments, spawn_failure, wait_failure, OutputStream};

#[test]
fn failed_exit_reports_status() {
    let c = completion(false, "exit status: 1");
    assert_eq!(c.event_payload, "failed");
    let e = c.result.err().expect("failure");
    assert!(e.contains("exit status: 1"));
    assert_eq!(e, "yt-dlp failed with status: exit status: 1");
}

#[test]
fn successful_exit_reports_success() {
    let c = completion(true, "exit status: 0");
    assert_eq!(c.event_payload, "success");
    assert_eq!(c.result, Ok("yt-dlp completed successfully".to_string()));
}

#[test]
fn arguments_are_split_like_a_shell() {
    let args = launch_arguments("-f 'best video' --no-part https://x").ok().expect("well formed");
    assert_eq!(args, vec!["-f", "best video", "--no-part", "https://x"]);
}

#[test]
fn unbalanced_quote_is_rejected() {
    let e = launch_arguments("-o 'unterminated").err().expect("malformed");
    assert_eq!(e, "Invalid command line syntax - failed to parse arguments");
}

#[test]
fn failure_messages() {
    let (event, ret) = spawn_failure("No such file");
    assert_eq!(event, "Failed to spawn yt-dlp: No such file");
    assert_eq!(ret, "Failed to run yt-dlp: No such file");
    assert_eq!(wait_failure("gone"), "Failed to wait for yt-dlp: gone");
}

#[test]
fn stream_event_names() {
    assert_eq!(OutputStream::Stdout.event_name(), "yt-dlp-stdout");
    assert_eq!(OutputStream::Stderr.event_name(), "yt-dlp-stderr");
}

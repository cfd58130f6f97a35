use vstd::prelude::*;

verus! {

/// The words that `shlex::split` makes of a command line, if it is well formed.
pub uninterp spec fn shell_words(line: Seq<char>) -> Option<Seq<Seq<char>>>;

pub open spec fn words_view(v: Seq<String>) -> Seq<Seq<char>> {
    v.map_values(|w: String| w@)
}

/// Relies on `shlex::split`: POSIX-shell-like word splitting, `None` on
/// unbalanced quotes or a trailing escape; a function of the text alone.
#[verifier::external_body]
fn shlex_split(line: &str) -> (r: Option<Vec<String>>)
    ensures
        match r {
            Some(v) => shell_words(line@) == Some(words_view(v@)),
            None => shell_words(line@) is None,
        },
{
    shlex::split(line)
}

/// The two output streams of the child process.
#[derive(Clone, Copy, Debug, PartialEq, Eq, Structural)]
pub enum OutputStream {
    Stdout,
    Stderr,
}

impl OutputStream {
    /// The name of the event that carries this stream's frames.
    pub fn event_name(&self) -> (r: &'static str)
        ensures
            r@ == match self {
                OutputStream::Stdout => "yt-dlp-stdout"@,
                OutputStream::Stderr => "yt-dlp-stderr"@,
            },
    {
        match self {
            OutputStream::Stdout => "yt-dlp-stdout",
            OutputStream::Stderr => "yt-dlp-stderr",
        }
    }
}

/// Name of the event sent right after the child process was spawned.
pub const STARTED_EVENT: &'static str = "yt-dlp-started";

/// Name of the event sent when spawning or waiting fails.
pub const ERROR_EVENT: &'static str = "yt-dlp-error";

/// Name of the event sent once the process has exited and both streams are drained.
pub const COMPLETED_EVENT: &'static str = "yt-dlp-completed";

/// The argument vector of a command line; malformed quoting is an error.
pub fn launch_arguments(command_line: &str) -> (r: Result<Vec<String>, String>)
    ensures
        match r {
            Ok(v) => shell_words(command_line@) == Some(words_view(v@)),
            Err(e) => shell_words(command_line@) is None
                && e@ == "Invalid command line syntax - failed to parse arguments"@,
        },
{
    match shlex_split(command_line) {
        Some(v) => Ok(v),
        None => Err(String::from_str("Invalid command line syntax - failed to parse arguments")),
    }
}

/// What the engine reports once the process has exited: the payload of the
/// completion event, and the value it returns.
pub struct Completion {
    pub event_payload: String,
    pub result: Result<String, String>,
}

/// The completion report for an exit status: success is exit code 0; any
/// other end is a failure whose error carries the status text.
pub fn completion(success: bool, status_text: &str) -> (r: Completion)
    ensures
        success ==> r.event_payload@ == "success"@
            && (r.result matches Ok(m) && m@ == "yt-dlp completed successfully"@),
        !success ==> r.event_payload@ == "failed"@
            && (r.result matches Err(m) && m@ == "yt-dlp failed with status: "@ + status_text@),
{
    if success {
        Completion {
            event_payload: String::from_str("success"),
            result: Ok(String::from_str("yt-dlp completed successfully")),
        }
    } else {
        Completion {
            event_payload: String::from_str("failed"),
            result: Err(String::from_str("yt-dlp failed with status: ").concat(status_text)),
        }
    }
}

/// The payload of the error event and the returned error when spawning fails.
pub fn spawn_failure(reason: &str) -> (r: (String, String))
    ensures
        r.0@ == "Failed to spawn yt-dlp: "@ + reason@,
        r.1@ == "Failed to run yt-dlp: "@ + reason@,
{
    (
        String::from_str("Failed to spawn yt-dlp: ").concat(reason),
        String::from_str("Failed to run yt-dlp: ").concat(reason),
    )
}

/// The payload of the error event, which is also the returned error, when
/// waiting for the process fails.
pub fn wait_failure(reason: &str) -> (r: String)
    ensures
        r@ == "Failed to wait for yt-dlp: "@ + reason@,
{
    String::from_str("Failed to wait for yt-dlp: ").concat(reason)
}

} // verus!

use vstd::prelude::*;
use crate::text::{trim, trimmed};

verus! {

/// The file name of a media tool (`ffmpeg`, `ffprobe`) on an operating system.
pub fn tool_file_name(os: &str, tool: &str) -> (r: String)
    ensures
        r@ == if os@ == "windows"@ {
            tool@ + ".exe"@
        } else {
            tool@
        },
{
    if String::from_str(os) == String::from_str("windows") {
        String::from_str(tool).concat(".exe")
    } else {
        String::from_str(tool)
    }
}

/// Whether the tools are looked up on the search path rather than in `dir`:
/// so it is when `dir` is blank.
pub fn uses_search_path(dir: &str) -> (r: bool)
    ensures
        r == (trimmed(dir@).len() == 0),
{
    let t = trim(dir);
    t.unicode_len() == 0
}

/// The report of one tool's version query: its standard output on success,
/// its standard error otherwise.
pub fn tool_version(tool: &str, success: bool, stdout: &str, stderr: &str) -> (r: Result<String, String>)
    ensures
        success ==> (r matches Ok(m) && m@ == tool@ + " version:\n"@ + stdout@),
        !success ==> (r matches Err(m) && m@ == tool@ + " error: "@ + stderr@),
{
    if success {
        Ok(String::from_str(tool).concat(" version:\n").concat(stdout))
    } else {
        Err(String::from_str(tool).concat(" error: ").concat(stderr))
    }
}

/// The error when a tool cannot be started.
pub fn launch_failure(tool: &str, reason: &str) -> (r: String)
    ensures
        r@ == "Failed to launch "@ + tool@ + ": "@ + reason@,
{
    String::from_str("Failed to launch ").concat(tool).concat(": ").concat(reason)
}

/// Both tools' reports, one after the other.
pub fn version_report(ffmpeg: &str, ffprobe: &str) -> (r: String)
    ensures
        r@ == ffmpeg@ + "\n"@ + ffprobe@,
{
    String::from_str(ffmpeg).concat("\n").concat(ffprobe)
}

} // verus!

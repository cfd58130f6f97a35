//! Core logic of a desktop front end for a command-line media downloader:
//! framing of a child process's console output into line and overwrite
//! frames, per-stream encoding detection, and the decisions of the
//! self-update procedure for the downloader's binary.

pub mod decode;
pub mod framing;
pub mod process;
pub mod release;
pub mod text;
pub mod timestamp;
pub mod tools;
pub mod update;
pub mod urls;

pub use decode::StreamDecoder;
pub use framing::{LineFramer, OutputFrame};

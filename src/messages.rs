//! Fixed messages shown to the user.
use vstd::prelude::*;

verus! {

pub const FFMPEG_NOT_FOUND: &'static str = "FFmpeg not found in PATH. Please install FFmpeg and ensure it's available in your system PATH.";

pub const PROCESSING_STARTED: &'static str = "Starting video processing...";

pub const PROCESSING_COMPLETED: &'static str = "Video processing completed.";

pub const NO_FILES_FOUND: &'static str = "No .mp4 files found in the input directory.";

pub const GRACEFUL_SHUTDOWN: &'static str = "Received shutdown signal. Finishing current tasks...";

} // verus!

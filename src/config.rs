//! Fixed settings of the engine and the application configuration.
use vstd::prelude::*;
use crate::error::{ConfigError, ConfigResult};
use crate::text::string_rows;
use crate::timing::TimeSpan;

pub use crate::exit_codes;
pub use crate::messages;

verus! {

/// Filter graph that turns a landscape video into a vertical short.
pub const FFMPEG_FILTER_COMPLEX: &'static str = "[0:v]scale=2276:1280,boxblur=4[bg];[1:v]scale=720:-1[fg];[bg][fg]overlay=(W-w)/2:(H-h)/2[tmp];[tmp]crop=720:1280:(2276-720)/2:0[out]";

/// Suffix added to the stem of each output file.
pub const OUTPUT_SUFFIX: &'static str = "-short";

/// Longest time one transcoder run may take, in seconds (ten minutes).
pub const FFMPEG_TIMEOUT_SECS: u64 = 600;

/// Largest accepted number of parallel workers.
pub const MAX_THREADS: usize = 32;

/// Pattern of the log file name, in strftime notation.
pub const LOG_FILENAME_PATTERN: &'static str = "shorts-cutter-%Y%m%d-%H%M%S.log";

/// Name of the transcoder executable.
pub const FFMPEG_EXECUTABLE: &'static str = "ffmpeg";

/// Argument that makes the transcoder print its version.
pub const FFMPEG_VERSION_ARG: &'static str = "-version";

/// Buffer size for reading the transcoder's output streams.
pub const FFMPEG_BUFFER_SIZE: usize = 8192;

/// Extension (lower case, without the dot) of the files that are processed.
pub const VIDEO_EXTENSION: &'static str = "mp4";

/// The application configuration.
#[derive(Debug)]
pub struct AppConfig {
    pub ffmpeg_filter_complex: String,
    pub supported_extensions: Vec<String>,
    pub output_suffix: String,
    pub ffmpeg_timeout: TimeSpan,
    pub max_threads: usize,
    pub log_filename_pattern: String,
    pub console_log_level: String,
    pub file_log_level: String,
}

/// Prefix of every log file name.
pub const LOG_FILENAME_PREFIX: &'static str = "shorts-cutter-";

/// Suffix of every log file name.
pub const LOG_FILENAME_SUFFIX: &'static str = ".log";

/// Whether `name` starts with the log-file prefix and ends with its suffix.
pub open spec fn is_log_file_name(name: Seq<char>) -> bool {
    &&& name.len() >= LOG_FILENAME_PREFIX@.len() + LOG_FILENAME_SUFFIX@.len()
    &&& name.take(LOG_FILENAME_PREFIX@.len() as int) == LOG_FILENAME_PREFIX@
    &&& name.skip(name.len() - LOG_FILENAME_SUFFIX@.len()) == LOG_FILENAME_SUFFIX@
}

/// Relies on `chrono::Local::now` and `DateTime::format`: the local time now,
/// written by the strftime `pattern`. Literal text of the pattern is copied
/// as it stands, so the name keeps the pattern's prefix and suffix.
/// Displaying a format with an invalid specifier fails, so only the log-file
/// pattern, which is valid, is admitted.
#[verifier::external_body]
fn local_time_text(pattern: &str) -> (r: String)
    requires
        pattern@ == LOG_FILENAME_PATTERN@,
    ensures
        is_log_file_name(r@),
{
    chrono::Local::now().format(pattern).to_string()
}

impl AppConfig {
    /// The configuration that the engine runs with.
    pub open spec fn is_default(&self) -> bool {
        &&& self.ffmpeg_filter_complex@ == FFMPEG_FILTER_COMPLEX@
        &&& string_rows(self.supported_extensions@) == seq![VIDEO_EXTENSION@]
        &&& self.output_suffix@ == OUTPUT_SUFFIX@
        &&& self.ffmpeg_timeout@ == FFMPEG_TIMEOUT_SECS as nat * 1_000_000_000
        &&& self.max_threads == MAX_THREADS
        &&& self.log_filename_pattern@ == LOG_FILENAME_PATTERN@
        &&& self.console_log_level@ == "info"@
        &&& self.file_log_level@ == "debug"@
    }

    /// The message of the first check that this configuration fails, if any.
    pub open spec fn spec_problem(&self) -> Option<Seq<char>> {
        if self.supported_extensions@.len() == 0 {
            Some("No supported file extensions configured"@)
        } else if self.output_suffix@.len() == 0 {
            Some("Output suffix cannot be empty"@)
        } else if self.ffmpeg_filter_complex@.len() == 0 {
            Some("FFmpeg filter complex cannot be empty"@)
        } else {
            None
        }
    }

    pub fn new() -> (r: Self)
        ensures
            r.is_default(),
    {
        Self::default()
    }

    /// Name of the log file of a run started now.
    pub fn generate_log_filename() -> (r: String)
        ensures
            is_log_file_name(r@),
    {
        local_time_text(LOG_FILENAME_PATTERN)
    }

    /// Checks that the configuration can drive a run.
    pub fn validate(&self) -> (r: ConfigResult<()>)
        ensures
            self.spec_problem() is None ==> r is Ok,
            self.spec_problem() matches Some(m) ==> r matches Err(
                ConfigError::InvalidArgument { message },
            ) && message@ == m,
    {
        if self.supported_extensions.len() == 0 {
            return Err(ConfigError::invalid_arg("No supported file extensions configured"));
        }
        if self.output_suffix.as_str().is_empty() {
            return Err(ConfigError::invalid_arg("Output suffix cannot be empty"));
        }
        if self.ffmpeg_filter_complex.as_str().is_empty() {
            return Err(ConfigError::invalid_arg("FFmpeg filter complex cannot be empty"));
        }
        Ok(())
    }
}

impl Default for AppConfig {
    fn default() -> (r: Self)
        ensures
            r.is_default(),
    {
        let mut exts: Vec<String> = Vec::new();
        exts.push(VIDEO_EXTENSION.to_owned());
        let r = AppConfig {
            ffmpeg_filter_complex: FFMPEG_FILTER_COMPLEX.to_owned(),
            supported_extensions: exts,
            output_suffix: OUTPUT_SUFFIX.to_owned(),
            ffmpeg_timeout: TimeSpan::from_secs(FFMPEG_TIMEOUT_SECS),
            max_threads: MAX_THREADS,
            log_filename_pattern: LOG_FILENAME_PATTERN.to_owned(),
            console_log_level: "info".to_owned(),
            file_log_level: "debug".to_owned(),
        };
        assert(string_rows(r.supported_extensions@) =~= seq![VIDEO_EXTENSION@]);
        r
    }
}

} // verus!

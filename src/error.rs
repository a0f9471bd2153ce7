//! Error taxonomy of the engine, each kind with its human-readable message.
use vstd::prelude::*;
use crate::text::{append_str, decimal, push_decimal, push_signed_decimal, signed_decimal, string_from};

verus! {

#[verifier::external_type_specification]
#[verifier::external_body]
pub struct ExIoError(std::io::Error);

/// Relies on `std::io::Error`'s `Display`; the text may depend on the platform.
#[verifier::external_body]
fn io_error_text(e: &std::io::Error) -> (r: String) {
    e.to_string()
}

/// Top-level error of the application.
#[derive(Debug)]
pub enum ShortsCutterError {
    Config(ConfigError),
    FileSystem(FileSystemError),
    Ffmpeg(FfmpegError),
    Logging(LoggingError),
    Io(std::io::Error),
}

/// Errors in the configuration and in the command-line arguments.
#[derive(Debug, Clone, PartialEq, Eq)]
pub enum ConfigError {
    InputDirectoryNotFound { path: String },
    OutputDirectoryCreationFailed { path: String },
    InvalidThreadCount { count: usize, max: usize },
    FfmpegNotFound,
    InvalidArgument { message: String },
}

/// Errors met on the file system.
#[derive(Debug, Clone, PartialEq, Eq)]
pub enum FileSystemError {
    CannotReadDirectory { path: String },
    CannotAccessFile { path: String },
    FileNotFound { path: String },
    PermissionDenied { path: String },
    InsufficientSpace,
}

/// Errors of one run of the external transcoder.
#[derive(Debug, Clone, PartialEq, Eq)]
pub enum FfmpegError {
    /// The transcoder exited with a failure status `code`; `stderr` holds the
    /// diagnostic condensed from its error stream, `command` its command line.
    ExecutionFailed { code: i32, stderr: String, command: String },
    Timeout { seconds: u64 },
    InvalidInputFormat { path: String },
    CannotSpawnProcess,
    StderrParsingFailed,
}

/// Errors of the logging setup.
#[derive(Debug, Clone, PartialEq, Eq)]
pub enum LoggingError {
    CannotCreateLogFile { path: String },
    CannotWriteToLogFile,
    InitializationFailed,
    FileError,
}

pub type ConfigResult<T> = Result<T, ConfigError>;

pub type FileSystemResult<T> = Result<T, FileSystemError>;

pub type FfmpegResult<T> = Result<T, FfmpegError>;

pub type LoggingResult<T> = Result<T, LoggingError>;

fn text(s: &str) -> (r: Vec<char>)
    ensures
        r@ == s@,
{
    let mut v: Vec<char> = Vec::new();
    append_str(&mut v, s);
    v
}

/// `prefix` followed by `tail`, as a `String`.
fn prefixed(prefix: &str, tail: &str) -> (r: String)
    ensures
        r@ == prefix@ + tail@,
{
    let mut v = text(prefix);
    append_str(&mut v, tail);
    string_from(&v)
}

impl ConfigError {
    pub open spec fn spec_message(&self) -> Seq<char> {
        match self {
            ConfigError::InputDirectoryNotFound { path } => "Input directory does not exist: "@
                + path@,
            ConfigError::OutputDirectoryCreationFailed { path } => "Cannot create output directory: "@
                + path@,
            ConfigError::InvalidThreadCount { count, max } => "Invalid thread count: "@ + decimal(
                *count as nat,
            ) + " (must be > 0 and <= "@ + decimal(*max as nat) + ")"@,
            ConfigError::FfmpegNotFound => "FFmpeg not found in PATH"@,
            ConfigError::InvalidArgument { message } => "Invalid argument: "@ + message@,
        }
    }

    /// The human-readable message of this error.
    pub fn message(&self) -> (r: String)
        ensures
            r@ == self.spec_message(),
    {
        match self {
            ConfigError::InputDirectoryNotFound { path } => prefixed(
                "Input directory does not exist: ",
                path.as_str(),
            ),
            ConfigError::OutputDirectoryCreationFailed { path } => prefixed(
                "Cannot create output directory: ",
                path.as_str(),
            ),
            ConfigError::InvalidThreadCount { count, max } => {
                let mut v = text("Invalid thread count: ");
                push_decimal(&mut v, *count as u64);
                append_str(&mut v, " (must be > 0 and <= ");
                push_decimal(&mut v, *max as u64);
                append_str(&mut v, ")");
                string_from(&v)
            },
            ConfigError::FfmpegNotFound => "FFmpeg not found in PATH".to_owned(),
            ConfigError::InvalidArgument { message } => prefixed(
                "Invalid argument: ",
                message.as_str(),
            ),
        }
    }

    pub fn input_not_found(path: String) -> (r: Self)
        ensures
            r == (ConfigError::InputDirectoryNotFound { path }),
    {
        ConfigError::InputDirectoryNotFound { path }
    }

    pub fn output_creation_failed(path: String) -> (r: Self)
        ensures
            r == (ConfigError::OutputDirectoryCreationFailed { path }),
    {
        ConfigError::OutputDirectoryCreationFailed { path }
    }

    pub fn invalid_threads(count: usize, max: usize) -> (r: Self)
        ensures
            r == (ConfigError::InvalidThreadCount { count, max }),
    {
        ConfigError::InvalidThreadCount { count, max }
    }

    pub fn invalid_arg(message: &str) -> (r: Self)
        ensures
            r matches ConfigError::InvalidArgument { message: m } && m@ == message@,
    {
        ConfigError::InvalidArgument { message: message.to_owned() }
    }
}

impl FileSystemError {
    pub open spec fn spec_message(&self) -> Seq<char> {
        match self {
            FileSystemError::CannotReadDirectory { path } => "Cannot read directory: "@ + path@,
            FileSystemError::CannotAccessFile { path } => "Cannot access file: "@ + path@,
            FileSystemError::FileNotFound { path } => "File not found: "@ + path@,
            FileSystemError::PermissionDenied { path } => "Permission denied for path: "@ + path@,
            FileSystemError::InsufficientSpace => "Disk full or insufficient space for output"@,
        }
    }

    /// The human-readable message of this error.
    pub fn message(&self) -> (r: String)
        ensures
            r@ == self.spec_message(),
    {
        match self {
            FileSystemError::CannotReadDirectory { path } => prefixed(
                "Cannot read directory: ",
                path.as_str(),
            ),
            FileSystemError::CannotAccessFile { path } => prefixed(
                "Cannot access file: ",
                path.as_str(),
            ),
            FileSystemError::FileNotFound { path } => prefixed("File not found: ", path.as_str()),
            FileSystemError::PermissionDenied { path } => prefixed(
                "Permission denied for path: ",
                path.as_str(),
            ),
            FileSystemError::InsufficientSpace => "Disk full or insufficient space for output".to_owned(),
        }
    }

    pub fn cannot_read_dir(path: String) -> (r: Self)
        ensures
            r == (FileSystemError::CannotReadDirectory { path }),
    {
        FileSystemError::CannotReadDirectory { path }
    }

    pub fn cannot_access(path: String) -> (r: Self)
        ensures
            r == (FileSystemError::CannotAccessFile { path }),
    {
        FileSystemError::CannotAccessFile { path }
    }

    pub fn not_found(path: String) -> (r: Self)
        ensures
            r == (FileSystemError::FileNotFound { path }),
    {
        FileSystemError::FileNotFound { path }
    }

    pub fn permission_denied(path: String) -> (r: Self)
        ensures
            r == (FileSystemError::PermissionDenied { path }),
    {
        FileSystemError::PermissionDenied { path }
    }
}

impl FfmpegError {
    pub open spec fn spec_message(&self) -> Seq<char> {
        match self {
            FfmpegError::ExecutionFailed { code, .. } => "FFmpeg execution failed with exit code "@
                + signed_decimal(*code as int),
            FfmpegError::Timeout { seconds } => "FFmpeg process timeout after "@ + decimal(
                *seconds as nat,
            ) + " seconds"@,
            FfmpegError::InvalidInputFormat { path } => "Invalid input file format: "@ + path@,
            FfmpegError::CannotSpawnProcess => "Cannot spawn FFmpeg process"@,
            FfmpegError::StderrParsingFailed => "FFmpeg stderr parsing failed"@,
        }
    }

    /// The human-readable message of this error.
    pub fn message(&self) -> (r: String)
        ensures
            r@ == self.spec_message(),
    {
        match self {
            FfmpegError::ExecutionFailed { code, .. } => {
                let mut v = text("FFmpeg execution failed with exit code ");
                push_signed_decimal(&mut v, *code as i64);
                string_from(&v)
            },
            FfmpegError::Timeout { seconds } => {
                let mut v = text("FFmpeg process timeout after ");
                push_decimal(&mut v, *seconds);
                append_str(&mut v, " seconds");
                string_from(&v)
            },
            FfmpegError::InvalidInputFormat { path } => prefixed(
                "Invalid input file format: ",
                path.as_str(),
            ),
            FfmpegError::CannotSpawnProcess => "Cannot spawn FFmpeg process".to_owned(),
            FfmpegError::StderrParsingFailed => "FFmpeg stderr parsing failed".to_owned(),
        }
    }

    pub fn execution_failed(code: i32, stderr: String, command: String) -> (r: Self)
        ensures
            r == (FfmpegError::ExecutionFailed { code, stderr, command }),
    {
        FfmpegError::ExecutionFailed { code, stderr, command }
    }

    pub fn timeout(seconds: u64) -> (r: Self)
        ensures
            r == (FfmpegError::Timeout { seconds }),
    {
        FfmpegError::Timeout { seconds }
    }

    pub fn invalid_format(path: String) -> (r: Self)
        ensures
            r == (FfmpegError::InvalidInputFormat { path }),
    {
        FfmpegError::InvalidInputFormat { path }
    }
}

impl LoggingError {
    pub open spec fn spec_message(&self) -> Seq<char> {
        match self {
            LoggingError::CannotCreateLogFile { path } => "Cannot create log file: "@ + path@,
            LoggingError::CannotWriteToLogFile => "Cannot write to log file"@,
            LoggingError::InitializationFailed => "Log file initialization failed"@,
            LoggingError::FileError => "Log file error"@,
        }
    }

    /// The human-readable message of this error.
    pub fn message(&self) -> (r: String)
        ensures
            r@ == self.spec_message(),
    {
        match self {
            LoggingError::CannotCreateLogFile { path } => prefixed(
                "Cannot create log file: ",
                path.as_str(),
            ),
            LoggingError::CannotWriteToLogFile => "Cannot write to log file".to_owned(),
            LoggingError::InitializationFailed => "Log file initialization failed".to_owned(),
            LoggingError::FileError => "Log file error".to_owned(),
        }
    }

    pub fn cannot_create_log(path: String) -> (r: Self)
        ensures
            r == (LoggingError::CannotCreateLogFile { path }),
    {
        LoggingError::CannotCreateLogFile { path }
    }
}

impl ShortsCutterError {
    /// The human-readable message of this error: its kind, then the inner message.
    pub fn message(&self) -> (r: String)
        ensures
            self matches ShortsCutterError::Config(e) ==> r@ == "Configuration error: "@
                + e.spec_message(),
            self matches ShortsCutterError::FileSystem(e) ==> r@ == "File system error: "@
                + e.spec_message(),
            self matches ShortsCutterError::Ffmpeg(e) ==> r@ == "FFmpeg error: "@
                + e.spec_message(),
            self matches ShortsCutterError::Logging(e) ==> r@ == "Logging error: "@
                + e.spec_message(),
            self is Io ==> r@.len() >= "IO error: "@.len() && r@.take("IO error: "@.len() as int)
                == "IO error: "@,
    {
        match self {
            ShortsCutterError::Config(e) => prefixed("Configuration error: ", e.message().as_str()),
            ShortsCutterError::FileSystem(e) => prefixed(
                "File system error: ",
                e.message().as_str(),
            ),
            ShortsCutterError::Ffmpeg(e) => prefixed("FFmpeg error: ", e.message().as_str()),
            ShortsCutterError::Logging(e) => prefixed("Logging error: ", e.message().as_str()),
            ShortsCutterError::Io(e) => {
                let r = prefixed("IO error: ", io_error_text(e).as_str());
                assert(r@.take("IO error: "@.len() as int) =~= "IO error: "@);
                r
            },
        }
    }
}

impl From<ConfigError> for ShortsCutterError {
    fn from(e: ConfigError) -> (r: Self) {
        ShortsCutterError::Config(e)
    }
}

impl vstd::std_specs::convert::FromSpecImpl<ConfigError> for ShortsCutterError {
    open spec fn obeys_from_spec() -> bool {
        true
    }

    open spec fn from_spec(e: ConfigError) -> Self {
        ShortsCutterError::Config(e)
    }
}

impl From<FileSystemError> for ShortsCutterError {
    fn from(e: FileSystemError) -> (r: Self) {
        ShortsCutterError::FileSystem(e)
    }
}

impl vstd::std_specs::convert::FromSpecImpl<FileSystemError> for ShortsCutterError {
    open spec fn obeys_from_spec() -> bool {
        true
    }

    open spec fn from_spec(e: FileSystemError) -> Self {
        ShortsCutterError::FileSystem(e)
    }
}

impl From<FfmpegError> for ShortsCutterError {
    fn from(e: FfmpegError) -> (r: Self) {
        ShortsCutterError::Ffmpeg(e)
    }
}

impl vstd::std_specs::convert::FromSpecImpl<FfmpegError> for ShortsCutterError {
    open spec fn obeys_from_spec() -> bool {
        true
    }

    open spec fn from_spec(e: FfmpegError) -> Self {
        ShortsCutterError::Ffmpeg(e)
    }
}

impl From<LoggingError> for ShortsCutterError {
    fn from(e: LoggingError) -> (r: Self) {
        ShortsCutterError::Logging(e)
    }
}

impl vstd::std_specs::convert::FromSpecImpl<LoggingError> for ShortsCutterError {
    open spec fn obeys_from_spec() -> bool {
        true
    }

    open spec fn from_spec(e: LoggingError) -> Self {
        ShortsCutterError::Logging(e)
    }
}

impl From<std::io::Error> for ShortsCutterError {
    fn from(e: std::io::Error) -> (r: Self) {
        ShortsCutterError::Io(e)
    }
}

impl vstd::std_specs::convert::FromSpecImpl<std::io::Error> for ShortsCutterError {
    open spec fn obeys_from_spec() -> bool {
        true
    }

    open spec fn from_spec(e: std::io::Error) -> Self {
        ShortsCutterError::Io(e)
    }
}

} // verus!

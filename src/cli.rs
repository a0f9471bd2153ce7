//! Command-line arguments of the application and their validation.
use vstd::prelude::*;
use crate::config::{is_log_file_name, AppConfig, MAX_THREADS};
use crate::error::{ConfigError, ConfigResult};
use crate::utils::{join_path, join_path_text};

verus! {

/// Arguments as given on the command line.
#[derive(Debug)]
pub struct CliArgs {
    /// Directory that holds the input videos.
    pub input: String,
    /// Directory that receives the processed videos.
    pub output: String,
    /// Number of parallel workers, when given.
    pub threads: Option<usize>,
}

/// Arguments once checked: absolute directories and a worker count.
#[derive(Debug)]
pub struct ValidatedArgs {
    pub input: String,
    pub output: String,
    pub threads: usize,
}

/// The worker count a run uses: a requested count must lie in
/// `1..=MAX_THREADS`; without one, the machine's count `default_count` is
/// brought into that range.
pub open spec fn spec_thread_count(requested: Option<usize>, default_count: usize) -> Result<
    usize,
    (usize, usize),
> {
    match requested {
        Some(n) => if n == 0 || n > MAX_THREADS {
            Err((n, MAX_THREADS))
        } else {
            Ok(n)
        },
        None => Ok(
            if default_count == 0 {
                1
            } else if default_count > MAX_THREADS {
                MAX_THREADS
            } else {
                default_count
            },
        ),
    }
}

/// The worker count of a run, or the error for a requested count out of range.
pub fn resolve_thread_count(requested: Option<usize>, default_count: usize) -> (r: ConfigResult<
    usize,
>)
    ensures
        spec_thread_count(requested, default_count) matches Ok(n) ==> r == Ok::<
            usize,
            ConfigError,
        >(n),
        spec_thread_count(requested, default_count) matches Err((count, max)) ==> r == Err::<
            usize,
            ConfigError,
        >(ConfigError::InvalidThreadCount { count, max }),
{
    match requested {
        Some(count) => {
            if count == 0 || count > MAX_THREADS {
                Err(ConfigError::invalid_threads(count, MAX_THREADS))
            } else {
                Ok(count)
            }
        },
        None => {
            if default_count == 0 {
                Ok(1)
            } else if default_count > MAX_THREADS {
                Ok(MAX_THREADS)
            } else {
                Ok(default_count)
            }
        },
    }
}

impl ValidatedArgs {
    /// The log file of a run started now: a time-stamped name inside the
    /// output directory.
    pub fn log_file_path(&self) -> (r: String)
        ensures
            exists|name: Seq<char>| r@ == join_path(self.output@, name) && is_log_file_name(name),
    {
        let name = AppConfig::generate_log_filename();
        join_path_text(self.output.as_str(), name.as_str())
    }
}

} // verus!

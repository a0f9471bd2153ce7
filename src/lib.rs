//! Batch engine that turns input videos into vertical shorts by running an
//! external transcoder per file, with bounded parallelism, outcome
//! classification and an aggregated exit status.

pub mod cli;
pub mod config;
pub mod error;
pub mod exit_codes;
pub mod ffmpeg;
pub mod logger;
pub mod messages;
pub mod text;
pub mod timing;
pub mod utils;
pub mod worker;

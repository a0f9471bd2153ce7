use shorts_cutter::config::{AppConfig, FFMPEG_FILTER_COMPLEX, FFMPEG_TIMEOUT_SECS};
use shorts_cutter::error::{ConfigError, FfmpegError};
use shorts_cutter::ffmpeg::{
    build_ffmpeg_args, build_ffmpeg_command_string, condense_error_lines, conclude_execution,
    extract_ffmpeg_error, format_duration, is_error_line, validate_input_file, version_line,
    FfmpegCommand, FfmpegExecutionResult, ProcessOutcome,
};
use shorts_cutter::timing::TimeSpan;

#[test]
fn test_build_ffmpeg_args() {
    let input = "input.mp4";
    let output = "output.mp4";

    let args = build_ffmpeg_args(input, output);

    assert!(args.contains(&"-i".to_string()));
    assert!(args.contains(&"input.mp4".to_string()));
    assert!(args.contains(&"output.mp4".to_string()));
    assert!(args.contains(&"-filter_complex".to_string()));
    assert!(args.contains(&FFMPEG_FILTER_COMPLEX.to_string()));
}

#[test]
fn test_ffmpeg_command_creation() {
    let input = "test_input.mp4".to_string();
    let output = "test_output.mp4".to_string();

    let cmd = FfmpegCommand::new(input.clone(), output.clone());

    assert_eq!(cmd.input_path, input);
    assert_eq!(cmd.output_path, output);
    assert!(cmd.command_string.contains("ffmpeg"));
    assert!(cmd.command_string.contains("test_input.mp4"));
    assert!(cmd.command_string.contains("test_output.mp4"));
}

#[test]
fn test_extract_ffmpeg_error() {
    let stderr_with_error = "
Input #0, mov,mp4,m4a,3gp,3g2,mj2, from 'input.mp4':
  Metadata:
    creation_time   : 2023-01-01T00:00:00.000000Z
Error: No such file or directory
av_interleaved_write_frame(): Input/output error
        ";

    let error = extract_ffmpeg_error(stderr_with_error);
    assert!(error.contains("No such file"));
}

#[test]
fn test_format_duration() {
    assert_eq!(format_duration(TimeSpan::from_millis(500)), "0.500s");
    assert_eq!(format_duration(TimeSpan::from_secs(65)), "1m 5.000s");
    assert_eq!(format_duration(TimeSpan::from_secs(125)), "2m 5.000s");
}

#[test]
fn args_have_the_fixed_shape() {
    let args = build_ffmpeg_args("a.mp4", "b.mp4");
    let expected: Vec<String> = vec![
        "-i", "a.mp4", "-i", "a.mp4", "-filter_complex", FFMPEG_FILTER_COMPLEX, "-map", "[out]",
        "-map", "0:a", "-y", "b.mp4",
    ]
    .into_iter()
    .map(|s| s.to_string())
    .collect();
    assert_eq!(args, expected);
    let cmd = FfmpegCommand::new("a.mp4".to_string(), "b.mp4".to_string());
    assert_eq!(cmd.args(), expected);
    assert_eq!(cmd.display_string(), format!("ffmpeg {}", expected.join(" ")));
    assert_eq!(build_ffmpeg_command_string("a.mp4", "b.mp4"), format!("ffmpeg {}", expected.join(" ")));
}

#[test]
fn diagnostic_keeps_error_line_verbatim_among_metadata() {
    let stderr = "ffmpeg version 6.0\n  Metadata:\n    encoder: Lavf\nError: No such file or directory\n  Duration: 00:00:10.00";
    assert_eq!(extract_ffmpeg_error(stderr), "Error: No such file or directory");
}

#[test]
fn diagnostic_joins_all_flagged_lines_in_order() {
    let stderr = "a\nFirst ERROR here\nb\nsecond failed\nc";
    assert_eq!(extract_ffmpeg_error(stderr), "First ERROR here | second failed");
}

#[test]
fn diagnostic_without_error_tokens_is_last_three_lines() {
    let stderr = "line one\nline two\nline three\nline four";
    assert_eq!(extract_ffmpeg_error(stderr), "line two | line three | line four");
    assert_eq!(extract_ffmpeg_error("only\nthis"), "only | this");
    assert_eq!(extract_ffmpeg_error(""), "");
}

#[test]
fn diagnostic_ignores_errors_before_the_last_ten_lines() {
    let mut lines = vec!["fatal error early".to_string()];
    for i in 0..10 {
        lines.push(format!("frame {}", i));
    }
    let stderr = lines.join("\n");
    assert_eq!(extract_ffmpeg_error(&stderr), "frame 7 | frame 8 | frame 9");
}

#[test]
fn diagnostic_handles_crlf_and_directory_pair() {
    let stderr = "x\r\nno such file in this directory\r\ny\r\n";
    assert_eq!(extract_ffmpeg_error(stderr), "no such file in this directory");
    assert_eq!(extract_ffmpeg_error("no such file here\nok"), "no such file here | ok");
}

#[test]
fn error_line_tokens() {
    assert!(is_error_line("error: x"));
    assert!(is_error_line("conversion failed!"));
    assert!(is_error_line("invalid data found"));
    assert!(is_error_line("cannot open"));
    assert!(is_error_line("no such file or directory"));
    assert!(!is_error_line("no such file"));
    assert!(!is_error_line("Error: upper case is not lowered here"));
    assert!(!is_error_line("stream mapping"));
}

#[test]
fn condense_uses_the_lowered_forms() {
    let lines = vec!["A".to_string(), "B".to_string(), "C".to_string(), "D".to_string()];
    let lowered = vec!["a".to_string(), "cannot b".to_string(), "c".to_string(), "d".to_string()];
    assert_eq!(condense_error_lines(&lines, &lowered), "B");
    let plain = vec!["a".to_string(), "b".to_string(), "c".to_string(), "d".to_string()];
    assert_eq!(condense_error_lines(&lines, &plain), "B | C | D");
}

#[test]
fn input_validation() {
    assert_eq!(validate_input_file("dir/clip.mp4", true, true), Ok(()));
    assert_eq!(validate_input_file("dir/clip.MP4", true, true), Ok(()));
    let missing = FfmpegError::InvalidInputFormat { path: "dir/clip.mp4".to_string() };
    assert_eq!(validate_input_file("dir/clip.mp4", false, false), Err(missing.clone()));
    assert_eq!(validate_input_file("dir/clip.mp4", true, false), Err(missing));
    assert_eq!(
        validate_input_file("dir/clip.txt", true, true),
        Err(FfmpegError::InvalidInputFormat { path: "dir/clip.txt".to_string() })
    );
}

fn command() -> FfmpegCommand {
    FfmpegCommand::new("in.mp4".to_string(), "out/in-short.mp4".to_string())
}

#[test]
fn outcome_timeout_is_timeout_error() {
    let cmd = command();
    match conclude_execution(&cmd, ProcessOutcome::TimedOut) {
        Err(e) => assert_eq!(e, FfmpegError::Timeout { seconds: FFMPEG_TIMEOUT_SECS }),
        Ok(_) => panic!("a timed-out run must not succeed"),
    }
}

#[test]
fn outcome_failures_map_to_errors() {
    let cmd = command();
    assert_eq!(
        conclude_execution(&cmd, ProcessOutcome::InputMissing).unwrap_err(),
        FfmpegError::InvalidInputFormat { path: "in.mp4".to_string() }
    );
    for o in [ProcessOutcome::OutputDirUnavailable, ProcessOutcome::SpawnFailed, ProcessOutcome::WaitFailed] {
        assert_eq!(conclude_execution(&cmd, o).unwrap_err(), FfmpegError::CannotSpawnProcess);
    }
    let failed = ProcessOutcome::Exited {
        success: false,
        code: Some(1),
        stdout: String::new(),
        stderr: "frame=1\nConversion failed!\n".to_string(),
        duration: TimeSpan::from_secs(2),
    };
    assert_eq!(
        conclude_execution(&cmd, failed).unwrap_err(),
        FfmpegError::ExecutionFailed {
            code: 1,
            stderr: "Conversion failed!".to_string(),
            command: cmd.command_string.clone(),
        }
    );
    let killed = ProcessOutcome::Exited {
        success: false,
        code: None,
        stdout: String::new(),
        stderr: String::new(),
        duration: TimeSpan::from_secs(2),
    };
    match conclude_execution(&cmd, killed).unwrap_err() {
        FfmpegError::ExecutionFailed { code, .. } => assert_eq!(code, -1),
        other => panic!("unexpected {:?}", other),
    }
}

#[test]
fn outcome_clean_exit_is_result() {
    let cmd = command();
    let done = ProcessOutcome::Exited {
        success: true,
        code: Some(0),
        stdout: "out".to_string(),
        stderr: "log".to_string(),
        duration: TimeSpan::from_secs(3),
    };
    let res = conclude_execution(&cmd, done).unwrap();
    assert!(res.success);
    assert_eq!(res.exit_code, 0);
    assert_eq!(res.stdout, "out");
    assert_eq!(res.stderr, "log");
    assert_eq!(res.duration, TimeSpan::from_secs(3));
    assert_eq!(res.command, cmd.command_string);
}

#[test]
fn execution_result_texts() {
    let ok = FfmpegExecutionResult {
        success: true,
        exit_code: 0,
        stdout: String::new(),
        stderr: String::new(),
        duration: TimeSpan::from_millis(65_250),
        command: "ffmpeg".to_string(),
    };
    assert_eq!(ok.summary(), "Success (1m 5.250s)");
    assert_eq!(ok.error_details(), None);
    let bad = FfmpegExecutionResult {
        success: false,
        exit_code: -9,
        stdout: String::new(),
        stderr: "x\nInvalid argument\n".to_string(),
        duration: TimeSpan::zero(),
        command: "ffmpeg".to_string(),
    };
    assert_eq!(bad.summary(), "Failed (exit code: -9)");
    assert_eq!(bad.error_details(), Some("Invalid argument".to_string()));
}

#[test]
fn version_line_is_first_line() {
    assert_eq!(version_line("ffmpeg version 6.1\nbuilt with gcc"), "ffmpeg version 6.1");
    assert_eq!(version_line(""), "Unknown version");
}

#[test]
fn error_messages() {
    assert_eq!(
        FfmpegError::execution_failed(-2, String::new(), String::new()).message(),
        "FFmpeg execution failed with exit code -2"
    );
    assert_eq!(FfmpegError::timeout(600).message(), "FFmpeg process timeout after 600 seconds");
    assert_eq!(FfmpegError::invalid_format("a.txt".to_string()).message(), "Invalid input file format: a.txt");
    assert_eq!(FfmpegError::CannotSpawnProcess.message(), "Cannot spawn FFmpeg process");
    assert_eq!(FfmpegError::StderrParsingFailed.message(), "FFmpeg stderr parsing failed");
    assert_eq!(
        ConfigError::invalid_threads(0, 32).message(),
        "Invalid thread count: 0 (must be > 0 and <= 32)"
    );
    assert_eq!(ConfigError::input_not_found("/x".to_string()).message(), "Input directory does not exist: /x");
    assert_eq!(
        ConfigError::output_creation_failed("/y".to_string()).message(),
        "Cannot create output directory: /y"
    );
    assert_eq!(ConfigError::FfmpegNotFound.message(), "FFmpeg not found in PATH");
    assert_eq!(ConfigError::invalid_arg("bad").message(), "Invalid argument: bad");
}

#[test]
fn app_config_validation() {
    let config = AppConfig::new();
    assert_eq!(config.validate(), Ok(()));
    assert_eq!(config.max_threads, 32);
    assert_eq!(config.supported_extensions, vec!["mp4".to_string()]);
    assert_eq!(config.ffmpeg_timeout, TimeSpan::from_secs(600));
    let mut no_suffix = AppConfig::default();
    no_suffix.output_suffix = String::new();
    assert_eq!(
        no_suffix.validate(),
        Err(ConfigError::InvalidArgument { message: "Output suffix cannot be empty".to_string() })
    );
    let mut no_ext = AppConfig::default();
    no_ext.supported_extensions.clear();
    no_ext.ffmpeg_filter_complex = String::new();
    assert_eq!(
        no_ext.validate(),
        Err(ConfigError::InvalidArgument { message: "No supported file extensions configured".to_string() })
    );
    let mut no_filter = AppConfig::default();
    no_filter.ffmpeg_filter_complex = String::new();
    assert_eq!(
        no_filter.validate(),
        Err(ConfigError::InvalidArgument { message: "FFmpeg filter complex cannot be empty".to_string() })
    );
}

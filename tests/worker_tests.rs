use std::sync::atomic::{AtomicUsize, Ordering};
use std::sync::Arc;

use shorts_cutter::config::exit_codes;
use shorts_cutter::error::{FfmpegError, FileSystemError};
use shorts_cutter::ffmpeg::{FfmpegCommand, FfmpegExecutionResult, ProcessOutcome};
use shorts_cutter::logger::{format_duration, ProcessingSummary};
use shorts_cutter::timing::TimeSpan;
use shorts_cutter::utils::FileTask;
use shorts_cutter::worker::{
    estimate_remaining, ProcessingResults, ProgressMonitor, TaskResult, WorkerPool,
};

fn ok_result(secs: u64) -> FfmpegExecutionResult {
    FfmpegExecutionResult {
        success: true,
        exit_code: 0,
        stdout: String::new(),
        stderr: String::new(),
        duration: TimeSpan::from_secs(secs),
        command: "ffmpeg...".to_string(),
    }
}

#[test]
fn test_duration_formatting() {
    assert_eq!(format_duration(TimeSpan::from_millis(500)), "500ms");
    assert_eq!(format_duration(TimeSpan::from_secs(5)), "5.000s");
    assert_eq!(format_duration(TimeSpan::from_secs(65)), "1m 5s");
    assert_eq!(format_duration(TimeSpan::from_secs(3665)), "1h 1m 5s");
}

#[test]
fn test_processing_summary() {
    let mut summary = ProcessingSummary::new();

    summary.add_success("test1.mp4".to_string(), "test1-short.mp4".to_string(), TimeSpan::from_secs(10));

    summary.add_failure("test2.mp4".to_string(), "FFmpeg error".to_string());

    summary.set_total_duration(TimeSpan::from_secs(30));

    assert_eq!(summary.successful, 1);
    assert_eq!(summary.failed, 1);
    assert_eq!(summary.total_files, 2);
    assert_eq!(summary.exit_code(), exit_codes::PARTIAL_SUCCESS);
}

#[test]
fn test_worker_pool_creation() {
    let pool = WorkerPool::new(4);
    assert_eq!(pool.max_workers(), 4);
    assert_eq!(pool.available_permits(), 4);
}

#[test]
fn test_processing_results() {
    let successful_result = TaskResult::Success {
        input: "input.mp4".to_string(),
        output: "output.mp4".to_string(),
        duration: TimeSpan::from_secs(10),
        ffmpeg_result: ok_result(10),
    };

    let failed_result = TaskResult::Failure {
        input: "input2.mp4".to_string(),
        error: "Test error".to_string(),
        duration: TimeSpan::from_secs(5),
    };

    let results =
        ProcessingResults::from_task_results(vec![successful_result, failed_result], TimeSpan::from_secs(20));

    assert_eq!(results.total_count(), 2);
    assert_eq!(results.success_count(), 1);
    assert_eq!(results.failure_count(), 1);
    assert_eq!(results.total_duration, TimeSpan::from_secs(20));
}

#[test]
fn test_progress_monitor() {
    let monitor = ProgressMonitor::new(10);
    let percentage = |m: &ProgressMonitor| m.completed_tasks() as f64 / m.total_tasks() as f64 * 100.0;

    assert_eq!(percentage(&monitor), 0.0);

    monitor.increment_completed();
    assert_eq!(percentage(&monitor), 10.0);

    for _ in 0..9 {
        monitor.increment_completed();
    }
    assert_eq!(percentage(&monitor), 100.0);
}

#[test]
fn test_task_result() {
    let result = TaskResult::Success {
        input: "test.mp4".to_string(),
        output: "test-short.mp4".to_string(),
        duration: TimeSpan::from_secs(5),
        ffmpeg_result: ok_result(5),
    };

    assert!(result.is_success());
    assert_eq!(result.duration(), TimeSpan::from_secs(5));
    assert_eq!(result.input_path(), &"test.mp4".to_string());
}

fn failure(name: &str) -> TaskResult {
    TaskResult::Failure { input: name.to_string(), error: "e".to_string(), duration: TimeSpan::zero() }
}

fn success(name: &str) -> TaskResult {
    TaskResult::Success {
        input: name.to_string(),
        output: format!("{}-out", name),
        duration: TimeSpan::from_secs(1),
        ffmpeg_result: ok_result(1),
    }
}

#[test]
fn partition_keeps_every_result_in_order() {
    let results = ProcessingResults::from_task_results(
        vec![failure("a"), success("b"), failure("c"), success("d"), success("e")],
        TimeSpan::from_secs(9),
    );
    assert_eq!(results.successful.len() + results.failed.len(), 5);
    let ok: Vec<&String> = results.successful.iter().map(|r| r.input_path()).collect();
    assert_eq!(ok, vec!["b", "d", "e"]);
    let bad: Vec<&String> = results.failed.iter().map(|r| r.input_path()).collect();
    assert_eq!(bad, vec!["a", "c"]);
    let empty = ProcessingResults::empty();
    assert_eq!(empty.total_count(), 0);
    assert_eq!(empty.total_duration, TimeSpan::zero());
    let none = ProcessingResults::from_task_results(Vec::new(), TimeSpan::zero());
    assert_eq!(none.total_count(), 0);
}

#[test]
fn summary_from_results() {
    let results = ProcessingResults::from_task_results(
        vec![success("a.mp4"), failure("b.mp4"), success("c.mp4")],
        TimeSpan::from_secs(7),
    );
    let summary = results.to_processing_summary();
    assert_eq!(summary.successful, 2);
    assert_eq!(summary.failed, 1);
    assert_eq!(summary.total_files, 3);
    assert_eq!(summary.total_duration, TimeSpan::from_secs(7));
    assert_eq!(
        summary.successful_files[1],
        ("c.mp4".to_string(), "c.mp4-out".to_string(), TimeSpan::from_secs(1))
    );
    assert_eq!(summary.failed_files, vec![("b.mp4".to_string(), "e".to_string())]);
    assert_eq!(summary.exit_code(), exit_codes::PARTIAL_SUCCESS);
}

fn summary_with(ok: usize, bad: usize) -> ProcessingSummary {
    let mut s = ProcessingSummary::default();
    for i in 0..ok {
        s.add_success(format!("{}", i), String::new(), TimeSpan::zero());
    }
    for i in 0..bad {
        s.add_failure(format!("{}", i), String::new());
    }
    s.set_total_duration(TimeSpan::zero());
    s
}

#[test]
fn exit_code_quadrants() {
    assert_eq!(summary_with(3, 0).exit_code(), exit_codes::SUCCESS);
    assert_eq!(summary_with(0, 2).exit_code(), exit_codes::CRITICAL_ERROR);
    assert_eq!(summary_with(2, 1).exit_code(), exit_codes::PARTIAL_SUCCESS);
    assert_eq!(summary_with(0, 0).exit_code(), exit_codes::CRITICAL_ERROR);
    assert_eq!((exit_codes::SUCCESS, exit_codes::CRITICAL_ERROR, exit_codes::PARTIAL_SUCCESS), (0, 1, 2));
}

fn task() -> FileTask {
    FileTask::new("/in/a.mp4".to_string(), "/out/a-short.mp4".to_string())
}

#[test]
fn timed_out_run_is_timeout_failure() {
    let t = task();
    let cmd = FfmpegCommand::new(t.input.clone(), t.output.clone());
    let r = TaskResult::from_process_outcome(t, &cmd, ProcessOutcome::TimedOut, TimeSpan::from_secs(600));
    assert!(!r.is_success());
    match r {
        TaskResult::Failure { input, error, duration } => {
            assert_eq!(input, "/in/a.mp4");
            assert_eq!(error, "FFmpeg error: FFmpeg process timeout after 600 seconds");
            assert_eq!(duration, TimeSpan::from_secs(600));
        }
        TaskResult::Success { .. } => panic!("a timed-out run must not succeed"),
    }
}

#[test]
fn task_outcomes() {
    let t = task();
    let cmd = FfmpegCommand::new(t.input.clone(), t.output.clone());
    let done = ProcessOutcome::Exited {
        success: true,
        code: Some(0),
        stdout: String::new(),
        stderr: String::new(),
        duration: TimeSpan::from_secs(4),
    };
    let r = TaskResult::from_process_outcome(t, &cmd, done, TimeSpan::from_secs(5));
    assert!(r.is_success());
    assert_eq!(r.duration(), TimeSpan::from_secs(5));

    let failed = ProcessOutcome::Exited {
        success: false,
        code: Some(1),
        stdout: String::new(),
        stderr: "x\nConversion failed!".to_string(),
        duration: TimeSpan::from_secs(4),
    };
    match TaskResult::from_process_outcome(task(), &cmd, failed, TimeSpan::from_secs(5)) {
        TaskResult::Failure { error, .. } => assert_eq!(error, "FFmpeg execution failed: Conversion failed!"),
        _ => panic!("expected a failure"),
    }
    match TaskResult::from_execution(task(), Err(FfmpegError::CannotSpawnProcess), TimeSpan::zero()) {
        TaskResult::Failure { error, .. } => assert_eq!(error, "FFmpeg error: Cannot spawn FFmpeg process"),
        _ => panic!("expected a failure"),
    }
    let mut quiet = ok_result(1);
    quiet.success = false;
    match TaskResult::from_execution(task(), Ok(quiet), TimeSpan::zero()) {
        TaskResult::Failure { error, .. } => assert_eq!(error, "FFmpeg execution failed: Unknown error"),
        _ => panic!("expected a failure"),
    }
    match TaskResult::validation_failed(task(), &FileSystemError::not_found("/in/a.mp4".to_string()), TimeSpan::zero()) {
        TaskResult::Failure { error, .. } => assert_eq!(error, "Task validation failed: File not found: /in/a.mp4"),
        _ => panic!("expected a failure"),
    }
    match TaskResult::input_rejected(task(), &FfmpegError::invalid_format("/in/a.mp4".to_string()), TimeSpan::zero()) {
        TaskResult::Failure { error, .. } => {
            assert_eq!(error, "Input file validation failed: Invalid input file format: /in/a.mp4")
        }
        _ => panic!("expected a failure"),
    }
}

#[test]
fn eta_formula() {
    assert_eq!(estimate_remaining(TimeSpan::from_secs(10), 0, 5), None);
    assert_eq!(estimate_remaining(TimeSpan::from_secs(10), 2, 5), Some(TimeSpan::from_secs(15)));
    assert_eq!(estimate_remaining(TimeSpan::from_secs(10), 5, 5), Some(TimeSpan::zero()));
    assert_eq!(estimate_remaining(TimeSpan::from_secs(10), 7, 5), Some(TimeSpan::zero()));
    assert_eq!(estimate_remaining(TimeSpan::from_millis(10), 3, 4), Some(TimeSpan::new(0, 3_333_333)));
    let huge = TimeSpan::new(u64::MAX, 999_999_999);
    assert_eq!(estimate_remaining(huge, 1, usize::MAX), Some(huge));
}

#[test]
fn monitor_counts_and_estimates() {
    let monitor = ProgressMonitor::new(3);
    assert_eq!(monitor.estimated_time_remaining(), None);
    assert_eq!(monitor.increment_completed(), 1);
    assert_eq!(monitor.increment_completed(), 2);
    assert!(monitor.estimated_time_remaining().is_some());
    assert_eq!(monitor.increment_completed(), 3);
    assert_eq!(monitor.estimated_time_remaining(), Some(TimeSpan::zero()));
}

#[test]
fn time_span_parts() {
    let t = TimeSpan::new(1, 2_500_000_000);
    assert_eq!(t.as_secs(), 3);
    assert_eq!(t.subsec_nanos(), 500_000_000);
    assert_eq!(t.subsec_millis(), 500);
    assert_eq!(t.as_nanos(), 3_500_000_000);
    assert_eq!(TimeSpan::from_nanos(1_500), TimeSpan::new(0, 1_500));
    assert_eq!(shorts_cutter::worker::format_duration(TimeSpan::from_secs(3725)), "1h 2m 5s");
    assert_eq!(shorts_cutter::worker::format_duration(TimeSpan::from_secs(59)), "59s");
    assert_eq!(shorts_cutter::worker::format_duration(TimeSpan::from_secs(60)), "1m 0s");
}

#[test]
fn pool_never_exceeds_its_permits() {
    let runtime = tokio::runtime::Builder::new_multi_thread()
        .worker_threads(4)
        .enable_time()
        .build()
        .unwrap();
    let peak = runtime.block_on(async {
        let pool = Arc::new(WorkerPool::new(3));
        let active = Arc::new(AtomicUsize::new(0));
        let peak = Arc::new(AtomicUsize::new(0));
        let mut handles = Vec::new();
        for _ in 0..20 {
            let pool = Arc::clone(&pool);
            let active = Arc::clone(&active);
            let peak = Arc::clone(&peak);
            handles.push(tokio::spawn(async move {
                let _permit = pool.semaphore().acquire().await.unwrap();
                let now = active.fetch_add(1, Ordering::SeqCst) + 1;
                peak.fetch_max(now, Ordering::SeqCst);
                tokio::time::sleep(std::time::Duration::from_millis(5)).await;
                active.fetch_sub(1, Ordering::SeqCst);
            }));
        }
        for h in handles {
            h.await.unwrap();
        }
        assert_eq!(pool.available_permits(), 3);
        peak.load(Ordering::SeqCst)
    });
    assert!(peak >= 1 && peak <= 3);
}

#[test]
fn outcome_result_carries_task_paths() {
    let t = task();
    let cmd = FfmpegCommand::new(t.input.clone(), t.output.clone());
    let done = ProcessOutcome::Exited {
        success: true,
        code: Some(0),
        stdout: String::new(),
        stderr: String::new(),
        duration: TimeSpan::from_secs(1),
    };
    match TaskResult::from_process_outcome(t, &cmd, done, TimeSpan::from_secs(2)) {
        TaskResult::Success { input, output, duration, .. } => {
            assert_eq!(input, "/in/a.mp4");
            assert_eq!(output, "/out/a-short.mp4");
            assert_eq!(duration, TimeSpan::from_secs(2));
        }
        _ => panic!("expected a success"),
    }
    match TaskResult::from_process_outcome(task(), &cmd, ProcessOutcome::SpawnFailed, TimeSpan::from_secs(3)) {
        TaskResult::Failure { input, duration, .. } => {
            assert_eq!(input, "/in/a.mp4");
            assert_eq!(duration, TimeSpan::from_secs(3));
        }
        _ => panic!("expected a failure"),
    }
    let silent = ProcessOutcome::Exited {
        success: false,
        code: Some(1),
        stdout: String::new(),
        stderr: String::new(),
        duration: TimeSpan::from_secs(1),
    };
    match TaskResult::from_process_outcome(task(), &cmd, silent, TimeSpan::zero()) {
        TaskResult::Failure { error, .. } => assert_eq!(error, "FFmpeg execution failed: Unknown error"),
        _ => panic!("expected a failure"),
    }
}

//! Per-task outcomes, their aggregation, the bounded worker pool and the
//! progress monitor.
use vstd::prelude::*;
use std::sync::atomic::{AtomicUsize, Ordering};
use crate::config::FFMPEG_TIMEOUT_SECS;
use crate::error::{FfmpegError, FfmpegResult, FileSystemError};
use crate::ffmpeg::{conclude_execution, diagnostic, FfmpegCommand, FfmpegExecutionResult, ProcessOutcome};
use crate::logger::ProcessingSummary;
use crate::text::{append_str, decimal, push_decimal, string_from};
use crate::timing::{instant_now, max_span_nanos, TimeSpan, NANOS_PER_SEC};
use crate::utils::FileTask;

verus! {

/// The outcome of one task.
#[derive(Debug)]
pub enum TaskResult {
    Success {
        input: String,
        output: String,
        duration: TimeSpan,
        ffmpeg_result: FfmpegExecutionResult,
    },
    Failure { input: String, error: String, duration: TimeSpan },
}

/// Message of a task whose transcoder run failed, with its diagnostic.
pub open spec fn execution_failure_text(detail: Seq<char>) -> Seq<char> {
    "FFmpeg execution failed: "@ + if detail.len() > 0 {
        detail
    } else {
        "Unknown error"@
    }
}

impl TaskResult {
    /// The input of the task.
    pub fn input_path(&self) -> (r: &String)
        ensures
            self matches TaskResult::Success { input, .. } ==> r == input,
            self matches TaskResult::Failure { input, .. } ==> r == input,
    {
        match self {
            TaskResult::Success { input, .. } => input,
            TaskResult::Failure { input, .. } => input,
        }
    }

    /// How long the task took.
    pub fn duration(&self) -> (r: TimeSpan)
        ensures
            self matches TaskResult::Success { duration, .. } ==> r == duration,
            self matches TaskResult::Failure { duration, .. } ==> r == duration,
    {
        match self {
            TaskResult::Success { duration, .. } => *duration,
            TaskResult::Failure { duration, .. } => *duration,
        }
    }

    /// Whether the task succeeded.
    pub fn is_success(&self) -> (r: bool)
        ensures
            r == (self is Success),
    {
        match self {
            TaskResult::Success { .. } => true,
            TaskResult::Failure { .. } => false,
        }
    }

    /// The failure of a task refused by its checks.
    pub fn validation_failed(task: FileTask, error: &FileSystemError, duration: TimeSpan) -> (r:
        TaskResult)
        ensures
            r matches TaskResult::Failure { input, error: m, duration: d } && input == task.input
                && m@ == "Task validation failed: "@ + error.spec_message() && d == duration,
    {
        let mut v: Vec<char> = Vec::new();
        append_str(&mut v, "Task validation failed: ");
        append_str(&mut v, error.message().as_str());
        TaskResult::Failure { input: task.input, error: string_from(&v), duration }
    }

    /// The failure of a task whose input the transcoder cannot take.
    pub fn input_rejected(task: FileTask, error: &FfmpegError, duration: TimeSpan) -> (r:
        TaskResult)
        ensures
            r matches TaskResult::Failure { input, error: m, duration: d } && input == task.input
                && m@ == "Input file validation failed: "@ + error.spec_message() && d == duration,
    {
        let mut v: Vec<char> = Vec::new();
        append_str(&mut v, "Input file validation failed: ");
        append_str(&mut v, error.message().as_str());
        TaskResult::Failure { input: task.input, error: string_from(&v), duration }
    }

    /// The outcome of a task once its transcoder run is classified: a
    /// successful run is a success; a run that exited with a failure status
    /// is a failure that carries the run's condensed diagnostic; any other
    /// error is a failure that carries the error's message.
    pub fn from_execution(
        task: FileTask,
        execution: FfmpegResult<FfmpegExecutionResult>,
        duration: TimeSpan,
    ) -> (r: TaskResult)
        ensures
            execution matches Ok(res) ==> (if res.success {
                r matches TaskResult::Success { input, output, duration: d, ffmpeg_result }
                    && input == task.input && output == task.output && d == duration
                    && ffmpeg_result == res
            } else {
                r matches TaskResult::Failure { input, error, duration: d } && input == task.input
                    && d == duration && error@ == execution_failure_text(
                    if res.stderr@.len() > 0 {
                        diagnostic(res.stderr@)
                    } else {
                        Seq::empty()
                    },
                )
            }),
            execution matches Err(e) ==> (r matches TaskResult::Failure { input, error, duration: d }
                && input == task.input && d == duration && error@ == if e is ExecutionFailed {
                execution_failure_text(e->stderr@)
            } else {
                "FFmpeg error: "@ + e.spec_message()
            }),
    {
        match execution {
            Ok(res) => {
                if res.success {
                    TaskResult::Success {
                        input: task.input,
                        output: task.output,
                        duration,
                        ffmpeg_result: res,
                    }
                } else {
                    let mut v: Vec<char> = Vec::new();
                    append_str(&mut v, "FFmpeg execution failed: ");
                    match res.error_details() {
                        Some(d) => {
                            if d.as_str().is_empty() {
                                append_str(&mut v, "Unknown error");
                            } else {
                                append_str(&mut v, d.as_str());
                            }
                        },
                        None => append_str(&mut v, "Unknown error"),
                    }
                    TaskResult::Failure { input: task.input, error: string_from(&v), duration }
                }
            },
            Err(e) => {
                let mut v: Vec<char> = Vec::new();
                match &e {
                    FfmpegError::ExecutionFailed { stderr, .. } => {
                        append_str(&mut v, "FFmpeg execution failed: ");
                        if stderr.as_str().is_empty() {
                            append_str(&mut v, "Unknown error");
                        } else {
                            append_str(&mut v, stderr.as_str());
                        }
                    },
                    _ => {
                        append_str(&mut v, "FFmpeg error: ");
                        append_str(&mut v, e.message().as_str());
                    },
                }
                TaskResult::Failure { input: task.input, error: string_from(&v), duration }
            },
        }
    }

    /// The outcome of a task from what its transcoder run reported. Only a
    /// clean exit makes a success; a failed exit is reported with the
    /// condensed diagnostic of its error stream; a run past the time limit
    /// is a timeout failure. The result carries the task's input, its output
    /// on success, and the given duration.
    pub fn from_process_outcome(
        task: FileTask,
        cmd: &FfmpegCommand,
        outcome: ProcessOutcome,
        duration: TimeSpan,
    ) -> (r: TaskResult)
        ensures
            r is Success <==> (outcome matches ProcessOutcome::Exited { success, .. } && success),
            r matches TaskResult::Success { input, output, duration: d, .. } ==> input == task.input
                && output == task.output && d == duration,
            r matches TaskResult::Failure { input, duration: d, .. } ==> input == task.input && d
                == duration,
            outcome matches ProcessOutcome::Exited { success, stderr, .. } ==> (success || (r matches TaskResult::Failure {
                error,
                ..
            } && error@ == execution_failure_text(diagnostic(stderr@)))),
            outcome is TimedOut ==> (r matches TaskResult::Failure { input, error, duration: d }
                && input == task.input && d == duration && error@ == "FFmpeg error: "@ + (
            FfmpegError::Timeout { seconds: FFMPEG_TIMEOUT_SECS }).spec_message()),
    {
        let execution = conclude_execution(cmd, outcome);
        TaskResult::from_execution(task, execution, duration)
    }
}

/// The successful results, in order.
pub open spec fn successes(rs: Seq<TaskResult>) -> Seq<TaskResult> {
    rs.filter(|r: TaskResult| r is Success)
}

/// The failed results, in order.
pub open spec fn failures(rs: Seq<TaskResult>) -> Seq<TaskResult> {
    rs.filter(|r: TaskResult| r is Failure)
}

/// Splitting results into successes and failures keeps every one of them.
pub proof fn lemma_partition_count(rs: Seq<TaskResult>)
    ensures
        successes(rs).len() + failures(rs).len() == rs.len(),
    decreases rs.len(),
{
    reveal(Seq::filter);
    if rs.len() > 0 {
        lemma_partition_count(rs.drop_last());
    }
}

/// Input, output and duration of each success, in order.
pub open spec fn success_rows(rs: Seq<TaskResult>) -> Seq<(String, String, TimeSpan)>
    decreases rs.len(),
{
    if rs.len() == 0 {
        seq![]
    } else {
        let rest = success_rows(rs.drop_last());
        match rs.last() {
            TaskResult::Success { input, output, duration, .. } => rest.push(
                (input, output, duration),
            ),
            TaskResult::Failure { .. } => rest,
        }
    }
}

/// Input and error message of each failure, in order.
pub open spec fn failure_rows(rs: Seq<TaskResult>) -> Seq<(String, String)>
    decreases rs.len(),
{
    if rs.len() == 0 {
        seq![]
    } else {
        let rest = failure_rows(rs.drop_last());
        match rs.last() {
            TaskResult::Failure { input, error, .. } => rest.push((input, error)),
            TaskResult::Success { .. } => rest,
        }
    }
}

/// The results of all tasks of a run.
#[derive(Debug)]
pub struct ProcessingResults {
    pub successful: Vec<TaskResult>,
    pub failed: Vec<TaskResult>,
    pub total_duration: TimeSpan,
}

impl ProcessingResults {
    /// The results of a run without tasks.
    pub fn empty() -> (r: Self)
        ensures
            r.successful@.len() == 0,
            r.failed@.len() == 0,
            r.total_duration@ == 0,
    {
        ProcessingResults {
            successful: Vec::new(),
            failed: Vec::new(),
            total_duration: TimeSpan::zero(),
        }
    }

    /// Sorts the results into successes and failures, keeping their order.
    pub fn from_task_results(results: Vec<TaskResult>, total_duration: TimeSpan) -> (r: Self)
        ensures
            r.successful@ == successes(results@),
            r.failed@ == failures(results@),
            r.successful@.len() + r.failed@.len() == results@.len(),
            r.total_duration == total_duration,
    {
        let ghost rs = results@;
        let mut successful: Vec<TaskResult> = Vec::new();
        let mut failed: Vec<TaskResult> = Vec::new();
        for result in it: results
            invariant
                it.seq() == rs,
                successful@ == successes(rs.take(it.index() as int)),
                failed@ == failures(rs.take(it.index() as int)),
        {
            let ghost i = it.index();
            proof {
                reveal(Seq::filter);
                assert(rs.take(i + 1).drop_last() =~= rs.take(i as int));
                assert(rs.take(i + 1).last() == result);
            }
            if result.is_success() {
                successful.push(result);
            } else {
                failed.push(result);
            }
        }
        proof {
            assert(rs.take(rs.len() as int) =~= rs);
            lemma_partition_count(rs);
        }
        ProcessingResults { successful, failed, total_duration }
    }

    /// How many tasks the run had.
    pub fn total_count(&self) -> (r: usize)
        requires
            self.successful.len() + self.failed.len() <= usize::MAX,
        ensures
            r == self.successful.len() + self.failed.len(),
    {
        self.successful.len() + self.failed.len()
    }

    pub fn success_count(&self) -> (r: usize)
        ensures
            r == self.successful.len(),
    {
        self.successful.len()
    }

    pub fn failure_count(&self) -> (r: usize)
        ensures
            r == self.failed.len(),
    {
        self.failed.len()
    }

    /// The summary for the final report: each success with its paths and
    /// duration, each failure with its message, and the run's duration.
    pub fn to_processing_summary(&self) -> (r: ProcessingSummary)
        requires
            self.successful.len() + self.failed.len() <= usize::MAX,
        ensures
            r.successful_files@ == success_rows(self.successful@),
            r.failed_files@ == failure_rows(self.failed@),
            r.successful == success_rows(self.successful@).len(),
            r.failed == failure_rows(self.failed@).len(),
            r.total_files == r.successful + r.failed,
            r.total_duration == self.total_duration,
    {
        let mut summary = ProcessingSummary::new();
        let mut i: usize = 0;
        while i < self.successful.len()
            invariant
                i <= self.successful.len(),
                summary.successful == success_rows(self.successful@.take(i as int)).len(),
                summary.successful_files@ == success_rows(self.successful@.take(i as int)),
                summary.successful <= i,
                summary.failed == 0,
                summary.failed_files@.len() == 0,
            decreases self.successful.len() - i,
        {
            proof {
                assert(self.successful@.take(i + 1).drop_last() =~= self.successful@.take(
                    i as int,
                ));
            }
            match &self.successful[i] {
                TaskResult::Success { input, output, duration, .. } => {
                    summary.add_success(input.clone(), output.clone(), *duration);
                },
                TaskResult::Failure { .. } => {},
            }
            i = i + 1;
        }
        proof {
            assert(self.successful@.take(i as int) =~= self.successful@);
        }
        let mut j: usize = 0;
        while j < self.failed.len()
            invariant
                j <= self.failed.len(),
                self.successful.len() + self.failed.len() <= usize::MAX,
                summary.successful == success_rows(self.successful@).len(),
                summary.successful_files@ == success_rows(self.successful@),
                summary.successful <= self.successful.len(),
                summary.failed == failure_rows(self.failed@.take(j as int)).len(),
                summary.failed_files@ == failure_rows(self.failed@.take(j as int)),
                summary.failed <= j,
            decreases self.failed.len() - j,
        {
            proof {
                assert(self.failed@.take(j + 1).drop_last() =~= self.failed@.take(j as int));
            }
            match &self.failed[j] {
                TaskResult::Failure { input, error, .. } => {
                    summary.add_failure(input.clone(), error.clone());
                },
                TaskResult::Success { .. } => {},
            }
            j = j + 1;
        }
        proof {
            assert(self.failed@.take(j as int) =~= self.failed@);
        }
        summary.set_total_duration(self.total_duration);
        summary
    }
}

#[verifier::external_type_specification]
#[verifier::external_body]
pub struct ExSemaphore(tokio::sync::Semaphore);

/// Most permits a tokio semaphore can hold (`Semaphore::MAX_PERMITS`).
pub const MAX_POOL_PERMITS: usize = usize::MAX >> 3;

/// Relies on `tokio::sync::Semaphore::new`, which panics above
/// `Semaphore::MAX_PERMITS`, that is `usize::MAX >> 3`.
pub assume_specification[ tokio::sync::Semaphore::new ](permits: usize) -> tokio::sync::Semaphore
    requires
        permits <= usize::MAX >> 3,
;

/// Relies on `tokio::sync::Semaphore::available_permits`; the count moves as
/// permits are taken and given back.
pub assume_specification[ tokio::sync::Semaphore::available_permits ](
    s: &tokio::sync::Semaphore,
) -> usize;

/// Bounds how many tasks run their transcoder at the same time.
pub struct WorkerPool {
    semaphore: tokio::sync::Semaphore,
    max_workers: usize,
}

impl WorkerPool {
    pub closed spec fn spec_max_workers(&self) -> usize {
        self.max_workers
    }

    /// A pool with `max_workers` permits.
    pub fn new(max_workers: usize) -> (r: Self)
        requires
            0 < max_workers <= MAX_POOL_PERMITS,
        ensures
            r.spec_max_workers() == max_workers,
    {
        WorkerPool { semaphore: tokio::sync::Semaphore::new(max_workers), max_workers }
    }

    /// The permits not taken at this moment.
    pub fn available_permits(&self) -> usize {
        self.semaphore.available_permits()
    }

    /// How many tasks may run at the same time.
    pub fn max_workers(&self) -> (r: usize)
        ensures
            r == self.spec_max_workers(),
    {
        self.max_workers
    }

    /// The semaphore whose permits each task holds while its transcoder runs.
    pub fn semaphore(&self) -> &tokio::sync::Semaphore {
        &self.semaphore
    }
}

/// Text of a span in whole units: hours, minutes and seconds from an hour on,
/// minutes and seconds from a minute on, else seconds.
pub open spec fn whole_span_text(nanos: nat) -> Seq<char> {
    let total = nanos / NANOS_PER_SEC as nat;
    let hours = total / 3600;
    let minutes = (total % 3600) / 60;
    let seconds = total % 60;
    if hours > 0 {
        decimal(hours) + "h "@ + decimal(minutes) + "m "@ + decimal(seconds) + "s"@
    } else if minutes > 0 {
        decimal(minutes) + "m "@ + decimal(seconds) + "s"@
    } else {
        decimal(seconds) + "s"@
    }
}

/// A span in whole hours, minutes and seconds.
pub fn format_duration(duration: TimeSpan) -> (r: String)
    ensures
        r@ == whole_span_text(duration@),
{
    let total = duration.as_secs();
    let hours = total / 3600;
    let minutes = (total % 3600) / 60;
    let seconds = total % 60;
    let mut v: Vec<char> = Vec::new();
    if hours > 0 {
        push_decimal(&mut v, hours);
        append_str(&mut v, "h ");
    }
    if hours > 0 || minutes > 0 {
        push_decimal(&mut v, minutes);
        append_str(&mut v, "m ");
    }
    push_decimal(&mut v, seconds);
    append_str(&mut v, "s");
    string_from(&v)
}

/// Expected time left: the mean time per completed task times the tasks
/// left, capped at the longest span; unknown before any task completed.
pub open spec fn eta_nanos(elapsed: nat, completed: nat, total: nat) -> Option<nat> {
    if completed == 0 {
        None
    } else {
        let remaining: nat = if total > completed {
            (total - completed) as nat
        } else {
            0
        };
        let product = (elapsed / completed) * remaining;
        Some(
            if product > max_span_nanos() {
                max_span_nanos()
            } else {
                product
            },
        )
    }
}

/// The length in nanoseconds of an optional span.
pub open spec fn opt_nanos(r: Option<TimeSpan>) -> Option<nat> {
    match r {
        Some(t) => Some(t@),
        None => None,
    }
}

/// Expected time left after `completed` of `total` tasks took `elapsed`.
pub fn estimate_remaining(elapsed: TimeSpan, completed: usize, total: usize) -> (r: Option<
    TimeSpan,
>)
    ensures
        eta_nanos(elapsed@, completed as nat, total as nat) is None ==> r is None,
        eta_nanos(elapsed@, completed as nat, total as nat) matches Some(n) ==> (r matches Some(
            t,
        ) && t@ == n),
{
    if completed == 0 {
        return None;
    }
    let remaining: usize = if total > completed {
        total - completed
    } else {
        0
    };
    if remaining == 0 {
        return Some(TimeSpan::zero());
    }
    let average = elapsed.as_nanos() / (completed as u128);
    let cap: u128 = 18_446_744_073_709_551_615u128 * 1_000_000_000u128 + 999_999_999u128;
    assert(cap == max_span_nanos());
    if average > cap / (remaining as u128) {
        assert(average * remaining > max_span_nanos()) by (nonlinear_arith)
            requires
                average > cap / remaining as u128,
                remaining > 0,
                cap == max_span_nanos(),
        ;
        Some(TimeSpan::from_nanos(cap))
    } else {
        assert(average * remaining <= cap) by (nonlinear_arith)
            requires
                average <= cap / remaining as u128,
                remaining > 0,
        ;
        let product = average * (remaining as u128);
        Some(TimeSpan::from_nanos(product))
    }
}

/// Counts completed tasks of a run, for progress and time-left estimates.
pub struct ProgressMonitor {
    total_tasks: usize,
    completed_tasks: AtomicUsize,
    start_time: std::time::Instant,
}

impl ProgressMonitor {
    pub closed spec fn spec_total_tasks(&self) -> usize {
        self.total_tasks
    }

    /// A monitor for a run of `total_tasks` tasks, starting now.
    pub fn new(total_tasks: usize) -> (r: Self)
        ensures
            r.spec_total_tasks() == total_tasks,
    {
        ProgressMonitor {
            total_tasks,
            completed_tasks: AtomicUsize::new(0),
            start_time: instant_now(),
        }
    }

    /// Counts one more completed task and returns the new count; other
    /// threads may count at the same time.
    pub fn increment_completed(&self) -> usize {
        self.completed_tasks.fetch_add(1, Ordering::Relaxed).wrapping_add(1)
    }

    /// The tasks counted as completed so far.
    pub fn completed_tasks(&self) -> usize {
        self.completed_tasks.load(Ordering::Relaxed)
    }

    /// The number of tasks of the run.
    pub fn total_tasks(&self) -> (r: usize)
        ensures
            r == self.spec_total_tasks(),
    {
        self.total_tasks
    }

    /// Expected time left, from the time since the start and the count of
    /// completed tasks at this moment.
    pub fn estimated_time_remaining(&self) -> (r: Option<TimeSpan>)
        ensures
            exists|elapsed: nat, completed: nat|
                opt_nanos(r) == eta_nanos(elapsed, completed, self.spec_total_tasks() as nat),
    {
        let completed = self.completed_tasks.load(Ordering::Relaxed);
        let elapsed = TimeSpan::since(&self.start_time);
        let r = estimate_remaining(elapsed, completed, self.total_tasks);
        assert(opt_nanos(r) == eta_nanos(elapsed@, completed as nat, self.spec_total_tasks() as nat));
        r
    }
}

} // verus!

//! One run of the external transcoder: its command line, how its outcome is
//! classified, and how a diagnostic is drawn from its error stream.
use vstd::prelude::*;
use crate::config::{FFMPEG_EXECUTABLE, FFMPEG_FILTER_COMPLEX, FFMPEG_TIMEOUT_SECS};
use crate::error::{FfmpegError, FfmpegResult};
use crate::text::{
    append_chars, append_str, char_rows, chars_of, contains_str, decimal, has_infix, join,
    join_chars, last_n, lines_of, lower_of, lowercase, padded_decimal, push_decimal, push_padded3,
    push_signed_decimal, signed_decimal, split_lines, string_from, string_rows,
};
use crate::timing::{TimeSpan, NANOS_PER_SEC};
use crate::utils::{is_supported_video_file, is_video_path};

verus! {

/// Arguments handed to the transcoder: the same source twice, the filter
/// graph, the stream mappings, the overwrite flag and the output.
pub open spec fn ffmpeg_args(input: Seq<char>, output: Seq<char>) -> Seq<Seq<char>> {
    seq![
        "-i"@,
        input,
        "-i"@,
        input,
        "-filter_complex"@,
        FFMPEG_FILTER_COMPLEX@,
        "-map"@,
        "[out]"@,
        "-map"@,
        "0:a"@,
        "-y"@,
        output,
    ]
}

/// The command line shown for a run: executable and arguments, space separated.
pub open spec fn command_line(input: Seq<char>, output: Seq<char>) -> Seq<char> {
    FFMPEG_EXECUTABLE@ + " "@ + join(ffmpeg_args(input, output), " "@)
}

/// A transcoder invocation for one input and one output.
#[derive(Debug)]
pub struct FfmpegCommand {
    pub input_path: String,
    pub output_path: String,
    pub command_string: String,
}

fn arg_rows(input: &str, output: &str) -> (r: Vec<Vec<char>>)
    ensures
        char_rows(r@) == ffmpeg_args(input@, output@),
{
    let mut r: Vec<Vec<char>> = Vec::new();
    r.push(chars_of("-i"));
    r.push(chars_of(input));
    r.push(chars_of("-i"));
    r.push(chars_of(input));
    r.push(chars_of("-filter_complex"));
    r.push(chars_of(FFMPEG_FILTER_COMPLEX));
    r.push(chars_of("-map"));
    r.push(chars_of("[out]"));
    r.push(chars_of("-map"));
    r.push(chars_of("0:a"));
    r.push(chars_of("-y"));
    r.push(chars_of(output));
    assert(char_rows(r@) =~= ffmpeg_args(input@, output@));
    r
}

/// The argument vector of the transcoder for `input_path` and `output_path`.
pub fn build_ffmpeg_args(input_path: &str, output_path: &str) -> (r: Vec<String>)
    ensures
        string_rows(r@) == ffmpeg_args(input_path@, output_path@),
{
    let rows = arg_rows(input_path, output_path);
    let mut out: Vec<String> = Vec::new();
    let mut i: usize = 0;
    while i < rows.len()
        invariant
            i <= rows.len(),
            string_rows(out@) == char_rows(rows@).take(i as int),
        decreases rows.len() - i,
    {
        let ghost before = string_rows(out@);
        let s = string_from(&rows[i]);
        assert(s@ == char_rows(rows@)[i as int]);
        out.push(s);
        assert(string_rows(out@) =~= before.push(s@));
        assert(char_rows(rows@).take(i + 1) =~= char_rows(rows@).take(i as int).push(s@));
        i = i + 1;
    }
    assert(char_rows(rows@).take(i as int) =~= char_rows(rows@));
    out
}

/// The command line of the transcoder, for display and logging.
pub fn build_ffmpeg_command_string(input_path: &str, output_path: &str) -> (r: String)
    ensures
        r@ == command_line(input_path@, output_path@),
{
    let rows = arg_rows(input_path, output_path);
    let mut line = chars_of(FFMPEG_EXECUTABLE);
    append_str(&mut line, " ");
    let joined = join_chars(&rows, " ");
    append_chars(&mut line, &joined);
    string_from(&line)
}

impl FfmpegCommand {
    pub fn new(input_path: String, output_path: String) -> (r: Self)
        ensures
            r.input_path == input_path,
            r.output_path == output_path,
            r.command_string@ == command_line(input_path@, output_path@),
    {
        let command_string = build_ffmpeg_command_string(
            input_path.as_str(),
            output_path.as_str(),
        );
        FfmpegCommand { input_path, output_path, command_string }
    }

    /// The argument vector of this invocation.
    pub fn args(&self) -> (r: Vec<String>)
        ensures
            string_rows(r@) == ffmpeg_args(self.input_path@, self.output_path@),
    {
        build_ffmpeg_args(self.input_path.as_str(), self.output_path.as_str())
    }

    /// The command line of this invocation.
    pub fn display_string(&self) -> (r: &str)
        ensures
            r@ == self.command_string@,
    {
        self.command_string.as_str()
    }
}

/// How many of the last lines of the error stream are searched for errors.
pub const ERROR_SCAN_LINES: usize = 10;

/// How many last lines stand in for the diagnostic when none mentions an error.
pub const FALLBACK_LINES: usize = 3;

/// Separator between the lines of a diagnostic.
pub const DIAGNOSTIC_SEPARATOR: &'static str = " | ";

/// Whether a lower-cased line reports an error.
pub open spec fn mentions_error(lower: Seq<char>) -> bool {
    ||| has_infix(lower, "error"@)
    ||| has_infix(lower, "failed"@)
    ||| has_infix(lower, "invalid"@)
    ||| has_infix(lower, "cannot"@)
    ||| (has_infix(lower, "no such file"@) && has_infix(lower, "directory"@))
}

/// First index of the lines that are searched for errors.
pub open spec fn scan_start(n: nat) -> int {
    if n > ERROR_SCAN_LINES {
        n - ERROR_SCAN_LINES
    } else {
        0
    }
}

/// The lines at positions `start..end` whose lower-cased form reports an
/// error, in their order.
pub open spec fn flagged_lines(
    lines: Seq<Seq<char>>,
    lowered: Seq<Seq<char>>,
    start: int,
    end: int,
) -> Seq<Seq<char>>
    decreases end - start,
{
    if end <= start {
        seq![]
    } else {
        let rest = flagged_lines(lines, lowered, start, end - 1);
        if mentions_error(lowered[end - 1]) {
            rest.push(lines[end - 1])
        } else {
            rest
        }
    }
}

/// The diagnostic of an error stream split into `lines`, where `lowered`
/// holds each line in lower case: the lines among the last ten that report
/// an error, or else the last three lines, joined by the separator.
pub open spec fn condensed(lines: Seq<Seq<char>>, lowered: Seq<Seq<char>>) -> Seq<char> {
    let picked = flagged_lines(lines, lowered, scan_start(lines.len()), lines.len() as int);
    if picked.len() > 0 {
        join(picked, DIAGNOSTIC_SEPARATOR@)
    } else {
        join(last_n(lines, FALLBACK_LINES as nat), DIAGNOSTIC_SEPARATOR@)
    }
}

/// Each line in lower case.
pub open spec fn lowered_lines(lines: Seq<Seq<char>>) -> Seq<Seq<char>> {
    lines.map_values(|l: Seq<char>| lower_of(l))
}

/// The diagnostic drawn from a whole error stream.
pub open spec fn diagnostic(stderr: Seq<char>) -> Seq<char> {
    condensed(lines_of(stderr), lowered_lines(lines_of(stderr)))
}

/// Whether a lower-cased line reports an error.
pub fn is_error_line(lowered: &str) -> (r: bool)
    ensures
        r == mentions_error(lowered@),
{
    let v = chars_of(lowered);
    contains_str(&v, "error") || contains_str(&v, "failed") || contains_str(&v, "invalid")
        || contains_str(&v, "cannot") || (contains_str(&v, "no such file") && contains_str(
        &v,
        "directory",
    ))
}

/// The diagnostic of an error stream given as its lines and, for each line,
/// its lower-cased form.
pub fn condense_error_lines(lines: &Vec<String>, lowered: &Vec<String>) -> (r: String)
    requires
        lines.len() == lowered.len(),
    ensures
        r@ == condensed(string_rows(lines@), string_rows(lowered@)),
{
    let ghost ls = string_rows(lines@);
    let ghost ws = string_rows(lowered@);
    let n = lines.len();
    let start: usize = if n > ERROR_SCAN_LINES {
        n - ERROR_SCAN_LINES
    } else {
        0
    };
    let mut picked: Vec<Vec<char>> = Vec::new();
    let mut i: usize = start;
    while i < n
        invariant
            n == lines.len() == lowered.len(),
            ls == string_rows(lines@),
            ws == string_rows(lowered@),
            start == scan_start(n as nat),
            start <= i <= n,
            char_rows(picked@) == flagged_lines(ls, ws, start as int, i as int),
        decreases n - i,
    {
        if is_error_line(lowered[i].as_str()) {
            let ghost before = char_rows(picked@);
            picked.push(chars_of(lines[i].as_str()));
            assert(char_rows(picked@) =~= before.push(ls[i as int]));
        }
        i = i + 1;
    }
    if picked.len() > 0 {
        let joined = join_chars(&picked, DIAGNOSTIC_SEPARATOR);
        return string_from(&joined);
    }
    let first: usize = if n > FALLBACK_LINES {
        n - FALLBACK_LINES
    } else {
        0
    };
    let mut tail: Vec<Vec<char>> = Vec::new();
    let mut k: usize = first;
    while k < n
        invariant
            n == lines.len(),
            ls == string_rows(lines@),
            first <= k <= n,
            char_rows(tail@) == ls.subrange(first as int, k as int),
        decreases n - k,
    {
        let ghost before = char_rows(tail@);
        let row = chars_of(lines[k].as_str());
        assert(row@ == ls[k as int]);
        tail.push(row);
        assert(char_rows(tail@) =~= before.push(row@));
        assert(ls.subrange(first as int, k + 1) =~= ls.subrange(first as int, k as int).push(row@));
        k = k + 1;
    }
    assert(ls.subrange(first as int, n as int) =~= last_n(ls, FALLBACK_LINES as nat));
    let joined = join_chars(&tail, DIAGNOSTIC_SEPARATOR);
    string_from(&joined)
}

/// A short diagnostic drawn from the transcoder's error stream.
pub fn extract_ffmpeg_error(stderr: &str) -> (r: String)
    ensures
        r@ == diagnostic(stderr@),
{
    let text = chars_of(stderr);
    let rows = split_lines(&text);
    let ghost ls = lines_of(stderr@);
    let mut lines: Vec<String> = Vec::new();
    let mut lowered: Vec<String> = Vec::new();
    let mut i: usize = 0;
    while i < rows.len()
        invariant
            i <= rows.len(),
            char_rows(rows@) == ls,
            lines.len() == i,
            lowered.len() == i,
            string_rows(lines@) == ls.take(i as int),
            string_rows(lowered@) == lowered_lines(ls).take(i as int),
        decreases rows.len() - i,
    {
        let line = string_from(&rows[i]);
        let low = lowercase(line.as_str());
        lines.push(line);
        lowered.push(low);
        i = i + 1;
        assert(string_rows(lines@) =~= ls.take(i as int));
        assert(string_rows(lowered@) =~= lowered_lines(ls).take(i as int));
    }
    assert(ls.take(i as int) =~= ls);
    assert(lowered_lines(ls).take(i as int) =~= lowered_lines(ls));
    condense_error_lines(&lines, &lowered)
}

/// An infix of a text stays an infix once more text follows.
proof fn lemma_infix_extend(a: Seq<char>, b: Seq<char>, needle: Seq<char>)
    requires
        has_infix(a, needle),
    ensures
        has_infix(a + b, needle),
{
    let i = choose|i: int|
        0 <= i && i + needle.len() <= a.len() && #[trigger] a.subrange(i, i + needle.len())
            == needle;
    assert((a + b).subrange(i, i + needle.len()) =~= a.subrange(i, i + needle.len()));
}

/// Every part of a joined text occurs in it.
proof fn lemma_join_has_part(parts: Seq<Seq<char>>, sep: Seq<char>, k: int)
    requires
        0 <= k < parts.len(),
    ensures
        has_infix(join(parts, sep), parts[k]),
    decreases parts.len(),
{
    if parts.len() == 1 {
        assert(join(parts, sep).subrange(0, 0 + parts[k].len() as int) =~= parts[k]);
    } else {
        let front = join(parts.drop_last(), sep);
        let whole = join(parts, sep);
        assert(whole == front + sep + parts.last());
        if k == parts.len() - 1 {
            let at: int = front.len() as int + sep.len() as int;
            assert(whole.subrange(at, at + parts[k].len() as int) =~= parts[k]);
        } else {
            lemma_join_has_part(parts.drop_last(), sep, k);
            lemma_infix_extend(front, sep + parts.last(), parts[k]);
            assert(front + sep + parts.last() =~= front + (sep + parts.last()));
        }
    }
}

/// A line in the range that reports an error is among the flagged lines.
proof fn lemma_flagged_holds(
    lines: Seq<Seq<char>>,
    lowered: Seq<Seq<char>>,
    start: int,
    end: int,
    i: int,
)
    requires
        start <= i < end,
        mentions_error(lowered[i]),
    ensures
        exists|k: int|
            0 <= k < flagged_lines(lines, lowered, start, end).len() && #[trigger] flagged_lines(
                lines,
                lowered,
                start,
                end,
            )[k] == lines[i],
    decreases end - start,
{
    let f = flagged_lines(lines, lowered, start, end);
    let rest = flagged_lines(lines, lowered, start, end - 1);
    if i == end - 1 {
        assert(f[f.len() - 1] == lines[i]);
    } else {
        lemma_flagged_holds(lines, lowered, start, end - 1, i);
        let k = choose|k: int| 0 <= k < rest.len() && #[trigger] rest[k] == lines[i];
        assert(f[k] == lines[i]);
    }
}

/// No line in the range reports an error: nothing is flagged.
proof fn lemma_flagged_none(lines: Seq<Seq<char>>, lowered: Seq<Seq<char>>, start: int, end: int)
    requires
        forall|j: int| start <= j < end ==> !mentions_error(#[trigger] lowered[j]),
    ensures
        flagged_lines(lines, lowered, start, end).len() == 0,
    decreases end - start,
{
    if end > start {
        lemma_flagged_none(lines, lowered, start, end - 1);
    }
}

/// A line among the last ten of an error stream whose lower-cased form
/// reports an error appears, unchanged, in the diagnostic.
pub proof fn lemma_error_line_kept(stderr: Seq<char>, i: int)
    requires
        scan_start(lines_of(stderr).len()) <= i < lines_of(stderr).len(),
        mentions_error(lower_of(lines_of(stderr)[i])),
    ensures
        has_infix(diagnostic(stderr), lines_of(stderr)[i]),
{
    let ls = lines_of(stderr);
    let ws = lowered_lines(ls);
    let picked = flagged_lines(ls, ws, scan_start(ls.len()), ls.len() as int);
    lemma_flagged_holds(ls, ws, scan_start(ls.len()), ls.len() as int, i);
    let k = choose|k: int| 0 <= k < picked.len() && #[trigger] picked[k] == ls[i];
    lemma_join_has_part(picked, DIAGNOSTIC_SEPARATOR@, k);
}

/// When none of the last ten lines of an error stream reports an error, the
/// diagnostic is exactly its last three lines, in order, joined by the
/// separator.
pub proof fn lemma_fallback_to_last_lines(stderr: Seq<char>)
    requires
        forall|j: int|
            scan_start(lines_of(stderr).len()) <= j < lines_of(stderr).len() ==> !mentions_error(
                lower_of(#[trigger] lines_of(stderr)[j]),
            ),
    ensures
        diagnostic(stderr) == join(last_n(lines_of(stderr), FALLBACK_LINES as nat), DIAGNOSTIC_SEPARATOR@),
{
    let ls = lines_of(stderr);
    let ws = lowered_lines(ls);
    assert forall|j: int| scan_start(ls.len()) <= j < ls.len() implies !mentions_error(
        #[trigger] ws[j],
    ) by {
        assert(ws[j] == lower_of(ls[j]));
    }
    lemma_flagged_none(ls, ws, scan_start(ls.len()), ls.len() as int);
}

/// Text of a span as minutes, seconds and milliseconds: `{m}m {s}.{ms}s`, or
/// `{s}.{ms}s` under a minute, milliseconds on three digits.
pub open spec fn clock_text(nanos: nat) -> Seq<char> {
    let total = nanos / NANOS_PER_SEC as nat;
    let minutes = total / 60;
    let seconds = total % 60;
    let millis = (nanos % NANOS_PER_SEC as nat) / 1_000_000;
    if minutes > 0 {
        decimal(minutes) + "m "@ + decimal(seconds) + "."@ + padded_decimal(millis, 3) + "s"@
    } else {
        decimal(seconds) + "."@ + padded_decimal(millis, 3) + "s"@
    }
}

/// A span as minutes, seconds and milliseconds.
pub fn format_duration(duration: TimeSpan) -> (r: String)
    ensures
        r@ == clock_text(duration@),
{
    let total = duration.as_secs();
    let minutes = total / 60;
    let seconds = total % 60;
    let millis = duration.subsec_millis();
    let mut v: Vec<char> = Vec::new();
    if minutes > 0 {
        push_decimal(&mut v, minutes);
        append_str(&mut v, "m ");
    }
    push_decimal(&mut v, seconds);
    append_str(&mut v, ".");
    push_padded3(&mut v, millis as u64);
    append_str(&mut v, "s");
    string_from(&v)
}

/// Checks an input before a run. `present` and `is_file` report what the file
/// system says of the path: that it exists, and that it is a regular file.
pub fn validate_input_file(path: &str, present: bool, is_file: bool) -> (r: FfmpegResult<()>)
    ensures
        present && is_file && is_video_path(path@) ==> r is Ok,
        !(present && is_file && is_video_path(path@)) ==> (r matches Err(
            FfmpegError::InvalidInputFormat { path: p },
        ) && p@ == path@),
{
    if !present || !is_file || !is_supported_video_file(path) {
        return Err(FfmpegError::invalid_format(path.to_owned()));
    }
    Ok(())
}

/// What a completed transcoder run produced.
#[derive(Debug)]
pub struct FfmpegExecutionResult {
    pub success: bool,
    pub exit_code: i32,
    pub stdout: String,
    pub stderr: String,
    pub duration: TimeSpan,
    pub command: String,
}

impl FfmpegExecutionResult {
    pub open spec fn spec_summary(&self) -> Seq<char> {
        if self.success {
            "Success ("@ + clock_text(self.duration@) + ")"@
        } else {
            "Failed (exit code: "@ + signed_decimal(self.exit_code as int) + ")"@
        }
    }

    /// One line describing the run.
    pub fn summary(&self) -> (r: String)
        ensures
            r@ == self.spec_summary(),
    {
        let mut v: Vec<char> = Vec::new();
        if self.success {
            append_str(&mut v, "Success (");
            let d = format_duration(self.duration);
            append_str(&mut v, d.as_str());
        } else {
            append_str(&mut v, "Failed (exit code: ");
            push_signed_decimal(&mut v, self.exit_code as i64);
        }
        append_str(&mut v, ")");
        string_from(&v)
    }

    /// The diagnostic of a failed run that wrote to its error stream.
    pub fn error_details(&self) -> (r: Option<String>)
        ensures
            !self.success && self.stderr@.len() > 0 ==> (r matches Some(d) && d@ == diagnostic(
                self.stderr@,
            )),
            self.success || self.stderr@.len() == 0 ==> r is None,
    {
        if !self.success && !self.stderr.as_str().is_empty() {
            Some(extract_ffmpeg_error(self.stderr.as_str()))
        } else {
            None
        }
    }
}

/// What happened when a run was attempted, as the process layer reports it.
#[derive(Debug)]
pub enum ProcessOutcome {
    /// The input file does not exist.
    InputMissing,
    /// The directory of the output could not be created.
    OutputDirUnavailable,
    /// The transcoder could not be started.
    SpawnFailed,
    /// Waiting for the transcoder failed.
    WaitFailed,
    /// The transcoder did not finish within the time limit.
    TimedOut,
    /// The transcoder finished; `code` is its exit code when it has one.
    Exited { success: bool, code: Option<i32>, stdout: String, stderr: String, duration: TimeSpan },
}

/// Classifies an attempted run of `cmd`: a clean exit is a result, anything
/// else is the matching error; a failed exit carries its condensed diagnostic.
pub fn conclude_execution(cmd: &FfmpegCommand, outcome: ProcessOutcome) -> (r: FfmpegResult<
    FfmpegExecutionResult,
>)
    ensures
        outcome is InputMissing ==> (r matches Err(FfmpegError::InvalidInputFormat { path })
            && path@ == cmd.input_path@),
        outcome is OutputDirUnavailable || outcome is SpawnFailed || outcome is WaitFailed ==> r
            == Err::<FfmpegExecutionResult, FfmpegError>(FfmpegError::CannotSpawnProcess),
        outcome is TimedOut ==> r == Err::<FfmpegExecutionResult, FfmpegError>(
            FfmpegError::Timeout { seconds: FFMPEG_TIMEOUT_SECS },
        ),
        outcome matches ProcessOutcome::Exited { success, code, stdout, stderr, duration } ==> (
        if success {
            r matches Ok(res) && res.success && res.exit_code == (match code {
                Some(c) => c,
                None => 0,
            }) && res.stdout == stdout && res.stderr == stderr && res.duration == duration
                && res.command@ == cmd.command_string@
        } else {
            r matches Err(FfmpegError::ExecutionFailed { code: c, stderr: d, command })
                && c == (match code {
                Some(c) => c,
                None => -1i32,
            }) && d@ == diagnostic(stderr@) && command@ == cmd.command_string@
        }),
{
    match outcome {
        ProcessOutcome::InputMissing => Err(FfmpegError::invalid_format(cmd.input_path.clone())),
        ProcessOutcome::OutputDirUnavailable => Err(FfmpegError::CannotSpawnProcess),
        ProcessOutcome::SpawnFailed => Err(FfmpegError::CannotSpawnProcess),
        ProcessOutcome::WaitFailed => Err(FfmpegError::CannotSpawnProcess),
        ProcessOutcome::TimedOut => Err(FfmpegError::timeout(FFMPEG_TIMEOUT_SECS)),
        ProcessOutcome::Exited { success, code, stdout, stderr, duration } => {
            if success {
                let exit_code = match code {
                    Some(c) => c,
                    None => 0,
                };
                Ok(
                    FfmpegExecutionResult {
                        success: true,
                        exit_code,
                        stdout,
                        stderr,
                        duration,
                        command: cmd.command_string.clone(),
                    },
                )
            } else {
                let exit_code = match code {
                    Some(c) => c,
                    None => -1,
                };
                let details = extract_ffmpeg_error(stderr.as_str());
                Err(FfmpegError::execution_failed(exit_code, details, cmd.command_string.clone()))
            }
        },
    }
}

/// The first line of the transcoder's version output, or `Unknown version`.
pub fn version_line(stdout: &str) -> (r: String)
    ensures
        lines_of(stdout@).len() > 0 ==> r@ == lines_of(stdout@)[0],
        lines_of(stdout@).len() == 0 ==> r@ == "Unknown version"@,
{
    let text = chars_of(stdout);
    let rows = split_lines(&text);
    if rows.len() > 0 {
        string_from(&rows[0])
    } else {
        "Unknown version".to_owned()
    }
}

} // verus!

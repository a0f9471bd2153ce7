//! The final summary of a run and the exit status it leads to.
use vstd::prelude::*;
use crate::exit_codes::{CRITICAL_ERROR, PARTIAL_SUCCESS, SUCCESS};
use crate::text::{append_str, decimal, padded_decimal, push_decimal, push_padded3, string_from};
use crate::timing::{TimeSpan, NANOS_PER_SEC};

verus! {

/// Exit status for a run with `successful` processed and `failed` failed
/// inputs: nothing processed or everything failed is a critical error, all
/// processed is success, a mix is partial success.
pub open spec fn exit_code_for(successful: nat, failed: nat) -> i32 {
    if successful == 0 && failed == 0 {
        CRITICAL_ERROR
    } else if failed == 0 {
        SUCCESS
    } else if successful == 0 {
        CRITICAL_ERROR
    } else {
        PARTIAL_SUCCESS
    }
}

/// The exit status table, quadrant by quadrant.
pub proof fn lemma_exit_code_table(successful: nat, failed: nat)
    ensures
        successful == 0 && failed == 0 ==> exit_code_for(successful, failed) == CRITICAL_ERROR,
        successful > 0 && failed == 0 ==> exit_code_for(successful, failed) == SUCCESS,
        successful == 0 && failed > 0 ==> exit_code_for(successful, failed) == CRITICAL_ERROR,
        successful > 0 && failed > 0 ==> exit_code_for(successful, failed) == PARTIAL_SUCCESS,
        exit_code_for(successful, failed) == SUCCESS || exit_code_for(successful, failed)
            == CRITICAL_ERROR || exit_code_for(successful, failed) == PARTIAL_SUCCESS,
{
}

/// Totals of a run, with the processed and the failed files listed.
#[derive(Debug)]
pub struct ProcessingSummary {
    pub total_files: usize,
    pub successful: usize,
    pub failed: usize,
    pub total_duration: TimeSpan,
    pub successful_files: Vec<(String, String, TimeSpan)>,
    pub failed_files: Vec<(String, String)>,
}

impl ProcessingSummary {
    pub fn new() -> (r: Self)
        ensures
            r.total_files == 0,
            r.successful == 0,
            r.failed == 0,
            r.total_duration@ == 0,
            r.successful_files@ == Seq::<(String, String, TimeSpan)>::empty(),
            r.failed_files@ == Seq::<(String, String)>::empty(),
    {
        ProcessingSummary {
            total_files: 0,
            successful: 0,
            failed: 0,
            total_duration: TimeSpan::zero(),
            successful_files: Vec::new(),
            failed_files: Vec::new(),
        }
    }

    /// Records a processed file.
    pub fn add_success(&mut self, input: String, output: String, duration: TimeSpan)
        requires
            old(self).successful < usize::MAX,
        ensures
            final(self).successful == old(self).successful + 1,
            final(self).successful_files@ == old(self).successful_files@.push((input, output, duration)),
            final(self).failed == old(self).failed,
            final(self).failed_files@ == old(self).failed_files@,
            final(self).total_files == old(self).total_files,
            final(self).total_duration == old(self).total_duration,
    {
        self.successful = self.successful + 1;
        self.successful_files.push((input, output, duration));
    }

    /// Records a failed file with its error message.
    pub fn add_failure(&mut self, input: String, error_message: String)
        requires
            old(self).failed < usize::MAX,
        ensures
            final(self).failed == old(self).failed + 1,
            final(self).failed_files@ == old(self).failed_files@.push((input, error_message)),
            final(self).successful == old(self).successful,
            final(self).successful_files@ == old(self).successful_files@,
            final(self).total_files == old(self).total_files,
            final(self).total_duration == old(self).total_duration,
    {
        self.failed = self.failed + 1;
        self.failed_files.push((input, error_message));
    }

    /// Sets the duration of the whole run and closes the file total.
    pub fn set_total_duration(&mut self, duration: TimeSpan)
        requires
            old(self).successful + old(self).failed <= usize::MAX,
        ensures
            final(self).total_duration == duration,
            final(self).total_files == old(self).successful + old(self).failed,
            final(self).successful == old(self).successful,
            final(self).failed == old(self).failed,
            final(self).successful_files@ == old(self).successful_files@,
            final(self).failed_files@ == old(self).failed_files@,
    {
        self.total_duration = duration;
        self.total_files = self.successful + self.failed;
    }

    /// The exit status of the run.
    pub fn exit_code(&self) -> (r: i32)
        ensures
            r == exit_code_for(self.successful as nat, self.failed as nat),
    {
        if self.successful == 0 && self.failed == 0 {
            CRITICAL_ERROR
        } else if self.failed == 0 {
            SUCCESS
        } else if self.successful == 0 {
            CRITICAL_ERROR
        } else {
            PARTIAL_SUCCESS
        }
    }
}

impl Default for ProcessingSummary {
    fn default() -> (r: Self)
        ensures
            r.total_files == 0,
            r.successful == 0,
            r.failed == 0,
            r.total_duration@ == 0,
            r.successful_files@.len() == 0,
            r.failed_files@.len() == 0,
    {
        Self::new()
    }
}

/// Text of a span for reports: hours, minutes and seconds from an hour on,
/// minutes and seconds from a minute on, seconds with milliseconds from a
/// second on, else milliseconds.
pub open spec fn span_text(nanos: nat) -> Seq<char> {
    let total = nanos / NANOS_PER_SEC as nat;
    let hours = total / 3600;
    let minutes = (total % 3600) / 60;
    let seconds = total % 60;
    let millis = (nanos % NANOS_PER_SEC as nat) / 1_000_000;
    if hours > 0 {
        decimal(hours) + "h "@ + decimal(minutes) + "m "@ + decimal(seconds) + "s"@
    } else if minutes > 0 {
        decimal(minutes) + "m "@ + decimal(seconds) + "s"@
    } else if seconds > 0 {
        decimal(seconds) + "."@ + padded_decimal(millis, 3) + "s"@
    } else {
        decimal(millis) + "ms"@
    }
}

/// A span as text for reports.
pub fn format_duration(duration: TimeSpan) -> (r: String)
    ensures
        r@ == span_text(duration@),
{
    let total = duration.as_secs();
    let hours = total / 3600;
    let minutes = (total % 3600) / 60;
    let seconds = total % 60;
    let millis = duration.subsec_millis();
    let mut v: Vec<char> = Vec::new();
    if hours > 0 {
        push_decimal(&mut v, hours);
        append_str(&mut v, "h ");
        push_decimal(&mut v, minutes);
        append_str(&mut v, "m ");
        push_decimal(&mut v, seconds);
        append_str(&mut v, "s");
    } else if minutes > 0 {
        push_decimal(&mut v, minutes);
        append_str(&mut v, "m ");
        push_decimal(&mut v, seconds);
        append_str(&mut v, "s");
    } else if seconds > 0 {
        push_decimal(&mut v, seconds);
        append_str(&mut v, ".");
        push_padded3(&mut v, millis as u64);
        append_str(&mut v, "s");
    } else {
        push_decimal(&mut v, millis as u64);
        append_str(&mut v, "ms");
    }
    string_from(&v)
}

} // verus!

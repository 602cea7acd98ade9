//! The statistics of a run, and the report of a batch of runs.

use crate::clock::{add_durations, duration_nanos, max_duration_nanos, nanos, zero_duration};
use crate::error::PipelineError;
use std::time::Duration;
use vstd::prelude::*;

verus! {

/// What one run, or a batch of runs, did with its records.
#[derive(Debug)]
pub struct ProcessingStats {
    /// Records consumed.
    pub total_records: usize,
    /// Records whose projection was written.
    pub processed_records: usize,
    /// Records skipped.
    pub error_records: usize,
    /// Time the run took.
    pub processing_time: Duration,
    /// Where the output array went.
    pub output_file: String,
}

/// One input of a batch whose run failed.
#[derive(Debug)]
pub struct FileFailure {
    /// The name of the input.
    pub file_name: String,
    /// Why its run failed.
    pub error: PipelineError,
}

/// What a batch of runs amounts to: the sum of the statistics of the runs
/// that finished, and each failed run against the name of its input.
#[derive(Debug)]
pub struct BatchReport {
    /// The sum over the runs that finished.
    pub totals: ProcessingStats,
    /// The runs that failed, in the order they were recorded.
    pub failures: Vec<FileFailure>,
}

impl ProcessingStats {
    /// Whether every record is counted once: as processed or as skipped.
    pub open spec fn is_consistent(&self) -> bool {
        self.total_records == self.processed_records + self.error_records
    }

    /// Whether the sums that absorbing `run` calls for fit their fields.
    pub open spec fn can_absorb(&self, run: ProcessingStats) -> bool {
        &&& self.total_records + run.total_records <= usize::MAX
        &&& self.processed_records + run.processed_records <= usize::MAX
        &&& self.error_records + run.error_records <= usize::MAX
        &&& nanos(self.processing_time) + nanos(run.processing_time) <= max_duration_nanos()
    }

    /// The statistics of no run at all: nothing counted, no time, no output.
    pub fn empty() -> (stats: ProcessingStats)
        ensures
            stats.total_records == 0,
            stats.processed_records == 0,
            stats.error_records == 0,
            nanos(stats.processing_time) == 0,
            stats.output_file@ == Seq::<char>::empty(),
            stats.is_consistent(),
    {
        ProcessingStats {
            total_records: 0,
            processed_records: 0,
            error_records: 0,
            processing_time: zero_duration(),
            output_file: String::new(),
        }
    }

    /// The processing time in nanoseconds.
    pub fn processing_nanos(&self) -> (n: u128)
        ensures
            n == nanos(self.processing_time),
    {
        duration_nanos(&self.processing_time)
    }

    /// Adds the statistics of a finished run to a total: its three counters
    /// and its time. The output path of the total is never touched. A total
    /// in which every record is counted once stays so when such a run is
    /// added. Where a sum does not fit, nothing changes and the result is
    /// `false`.
    pub fn absorb(&mut self, run: &ProcessingStats) -> (absorbed: bool)
        ensures
            absorbed == old(self).can_absorb(*run),
            !absorbed ==> *final(self) == *old(self),
            final(self).output_file == old(self).output_file,
            absorbed ==> {
                &&& final(self).total_records == old(self).total_records + run.total_records
                &&& final(self).processed_records == old(self).processed_records
                    + run.processed_records
                &&& final(self).error_records == old(self).error_records + run.error_records
                &&& nanos(final(self).processing_time) == nanos(old(self).processing_time) + nanos(
                    run.processing_time,
                )
            },
            old(self).is_consistent() && run.is_consistent() ==> final(self).is_consistent(),
    {
        let total = self.total_records.checked_add(run.total_records);
        let processed = self.processed_records.checked_add(run.processed_records);
        let errors = self.error_records.checked_add(run.error_records);
        let time = add_durations(&self.processing_time, &run.processing_time);
        match (total, processed, errors, time) {
            (Some(total), Some(processed), Some(errors), Some(time)) => {
                self.total_records = total;
                self.processed_records = processed;
                self.error_records = errors;
                self.processing_time = time;
                true
            },
            _ => false,
        }
    }
}

impl BatchReport {
    /// The report of a batch before its first run.
    pub fn new() -> (report: BatchReport)
        ensures
            report.totals.total_records == 0,
            report.totals.processed_records == 0,
            report.totals.error_records == 0,
            nanos(report.totals.processing_time) == 0,
            report.totals.output_file@ == Seq::<char>::empty(),
            report.failures@ == Seq::<FileFailure>::empty(),
    {
        BatchReport { totals: ProcessingStats::empty(), failures: Vec::new() }
    }

    /// Takes the outcome of the run on the input `file_name` into the
    /// report. A run that finished is added to the totals and leaves the
    /// failures as they are. A run that failed is recorded against the name
    /// of its input and leaves the totals as they are, so that the totals
    /// still count every record once. The result is `false`, and nothing
    /// changes, only where a finished run's sums do not fit the totals.
    pub fn record(
        &mut self,
        file_name: String,
        run: Result<ProcessingStats, PipelineError>,
    ) -> (recorded: bool)
        ensures
            match run {
                Ok(stats) => {
                    &&& recorded == old(self).totals.can_absorb(stats)
                    &&& final(self).failures == old(self).failures
                    &&& !recorded ==> final(self).totals == old(self).totals
                    &&& final(self).totals.output_file == old(self).totals.output_file
                    &&& recorded ==> {
                        &&& final(self).totals.total_records == old(self).totals.total_records
                            + stats.total_records
                        &&& final(self).totals.processed_records == old(
                            self,
                        ).totals.processed_records + stats.processed_records
                        &&& final(self).totals.error_records == old(self).totals.error_records
                            + stats.error_records
                        &&& nanos(final(self).totals.processing_time) == nanos(
                            old(self).totals.processing_time,
                        ) + nanos(stats.processing_time)
                    }
                },
                Err(error) => {
                    &&& recorded
                    &&& final(self).totals == old(self).totals
                    &&& final(self).failures@ == old(self).failures@.push(
                        FileFailure { file_name, error },
                    )
                },
            },
            old(self).totals.is_consistent() && (run matches Ok(stats) ==> stats.is_consistent())
                ==> final(self).totals.is_consistent(),
    {
        match run {
            Ok(stats) => self.totals.absorb(&stats),
            Err(error) => {
                self.failures.push(FileFailure { file_name, error });
                true
            },
        }
    }
}

} // verus!

//! The run as a state machine: guard, sniff, one record after another,
//! finalise. The machine decides and counts on plain values; whoever drives
//! it reads the input, hands over one outcome per record and appends each
//! piece of text it gets back to the sink.

use crate::clock::{elapsed_since, start_timer};
use crate::error::PipelineError;
use crate::guard::{check_size, oversized, whole_megabytes};
use crate::record::{
    all_encodable, lemma_counts_add_up, lemma_push_outcome, skipped, written_texts, OutcomeView,
    RecordOutcome, SkipReason,
};
use crate::stats::ProcessingStats;
use crate::writer::{array_text, emitted_text, separator, BatchWriter, WriterPhase};
use std::time::Instant;
use vstd::prelude::*;

verus! {

/// How the input is read.
#[derive(Debug, Clone, Copy, PartialEq, Eq, Structural)]
pub enum Mode {
    /// The input is one JSON array; its elements are the records.
    Array,
    /// The input is a sequence of JSON values, one after another; each is a
    /// record.
    Stream,
}

/// Where a run stands.
#[derive(Debug, Clone, Copy, PartialEq, Eq, Structural)]
pub enum Stage {
    /// The size of the input has yet to be checked.
    Guarding,
    /// The input passed the guard; its format has yet to be found.
    Sniffing,
    /// Records are taken from one decoded array.
    ArrayMode,
    /// Records are decoded one by one from a stream of values.
    StreamMode,
    /// The last record is consumed and the array closed; the sink has yet to
    /// be flushed.
    Finalizing,
    /// The run is over and its statistics are handed out.
    Done,
    /// The run was given up.
    Failed,
}

/// What the driver does after it handed over one record.
#[derive(Debug, Clone, PartialEq, Eq)]
pub enum Step {
    /// Append this text to the sink.
    Write(String),
    /// Write nothing: the record at `index` was skipped.
    Skip { index: usize, reason: SkipReason },
}

/// Whether a run at stage `from` may be at stage `to` after one operation: a
/// run moves forward from guarding to sniffing, on to one of the two
/// reading modes, where it stays while records come, then to finalising and
/// to done; and it may fail from wherever it stands.
pub open spec fn leads_to(from: Stage, to: Stage) -> bool {
    ||| to == Stage::Failed
    ||| from == Stage::Guarding && to == Stage::Sniffing
    ||| from == Stage::Sniffing && (to == Stage::ArrayMode || to == Stage::StreamMode)
    ||| from == Stage::ArrayMode && (to == Stage::ArrayMode || to == Stage::Finalizing)
    ||| from == Stage::StreamMode && (to == Stage::StreamMode || to == Stage::Finalizing)
    ||| from == Stage::Finalizing && to == Stage::Done
}

/// The phase the writer is in at each stage of a run that has not failed.
pub open spec fn phase_at(stage: Stage) -> WriterPhase {
    match stage {
        Stage::Guarding | Stage::Sniffing => WriterPhase::Created,
        Stage::ArrayMode | Stage::StreamMode => WriterPhase::Open,
        _ => WriterPhase::Closed,
    }
}

/// The stage in which records of an input in `mode` are read.
pub open spec fn reading_stage(mode: Mode) -> Stage {
    match mode {
        Mode::Array => Stage::ArrayMode,
        Mode::Stream => Stage::StreamMode,
    }
}

/// One run of the pipeline. Its timer starts when the run is made and stops
/// when the statistics are handed out.
pub struct Pipeline {
    timer: Instant,
    stage: Stage,
    writer: BatchWriter,
    processed: usize,
    errors: usize,
    seen: Ghost<Seq<OutcomeView>>,
}

impl Pipeline {
    /// The invariant of a run: the counters and the writer agree with the
    /// records seen, and the writer is in the phase that goes with the
    /// stage.
    pub closed spec fn wf(&self) -> bool {
        &&& all_encodable(self.seen@)
        &&& self.seen@.len() <= usize::MAX
        &&& self.processed == written_texts(self.seen@).len()
        &&& self.errors == skipped(self.seen@)
        &&& self.writer.items() == written_texts(self.seen@)
        &&& self.stage != Stage::Failed ==> self.writer.phase_spec() == phase_at(self.stage)
        &&& (self.stage == Stage::Guarding || self.stage == Stage::Sniffing) ==> self.seen@.len()
            == 0
    }

    /// The stage of the run.
    pub closed spec fn stage_spec(&self) -> Stage {
        self.stage
    }

    /// The outcomes of the records counted so far, in order.
    pub closed spec fn seen(&self) -> Seq<OutcomeView> {
        self.seen@
    }

    /// All text handed out so far, which is what the sink holds.
    pub closed spec fn emitted(&self) -> Seq<char> {
        self.writer.emitted()
    }

    /// The number of records written.
    pub closed spec fn processed_spec(&self) -> usize {
        self.processed
    }

    /// The number of records skipped.
    pub closed spec fn errors_spec(&self) -> usize {
        self.errors
    }

    /// Whether the run is at a stage in which records are handed over.
    pub open spec fn is_reading(&self) -> bool {
        self.stage_spec() == Stage::ArrayMode || self.stage_spec() == Stage::StreamMode
    }

    /// What the invariant says in terms of the records seen: the written
    /// projections are counted as processed, the skipped records as errors,
    /// every record is one or the other, and until a failure the sink holds
    /// the array of the written projections as far as the stage has brought
    /// it.
    pub proof fn lemma_accounting(&self)
        requires
            self.wf(),
        ensures
            all_encodable(self.seen()),
            self.processed_spec() == written_texts(self.seen()).len(),
            self.errors_spec() == skipped(self.seen()),
            self.processed_spec() + self.errors_spec() == self.seen().len(),
            self.seen().len() <= usize::MAX,
            self.stage_spec() != Stage::Failed ==> self.emitted() == emitted_text(
                phase_at(self.stage_spec()),
                written_texts(self.seen()),
            ),
    {
        lemma_counts_add_up(self.seen@);
    }

    /// A run that has yet to look at its input.
    pub fn new() -> (p: Pipeline)
        ensures
            p.wf(),
            p.stage_spec() == Stage::Guarding,
            p.seen() == Seq::<OutcomeView>::empty(),
            p.emitted() == Seq::<char>::empty(),
            p.processed_spec() == 0,
            p.errors_spec() == 0,
    {
        Pipeline {
            timer: start_timer(),
            stage: Stage::Guarding,
            writer: BatchWriter::new(),
            processed: 0,
            errors: 0,
            seen: Ghost(Seq::empty()),
        }
    }

    /// The stage of the run.
    #[verifier::when_used_as_spec(stage_spec)]
    pub fn stage(&self) -> (s: Stage)
        ensures
            s == self.stage_spec(),
    {
        self.stage
    }

    /// The number of records written.
    #[verifier::when_used_as_spec(processed_spec)]
    pub fn processed(&self) -> (n: usize)
        ensures
            n == self.processed_spec(),
    {
        self.processed
    }

    /// The number of records skipped.
    #[verifier::when_used_as_spec(errors_spec)]
    pub fn errors(&self) -> (n: usize)
        ensures
            n == self.errors_spec(),
    {
        self.errors
    }

    /// Checks the size of the input. An input within the limit moves the run
    /// on to sniffing; an oversized one fails it, before anything is
    /// emitted.
    pub fn guard(&mut self, size_bytes: u64, max_mb: usize) -> (r: Result<(), PipelineError>)
        requires
            old(self).wf(),
            old(self).stage_spec() == Stage::Guarding,
        ensures
            final(self).wf(),
            leads_to(old(self).stage_spec(), final(self).stage_spec()),
            r is Err <==> oversized(size_bytes, max_mb),
            r is Err ==> r == Err::<(), PipelineError>(
                PipelineError::InputTooLarge { max_mb, actual_mb: whole_megabytes(size_bytes) },
            ),
            final(self).stage_spec() == if r is Ok {
                Stage::Sniffing
            } else {
                Stage::Failed
            },
            final(self).seen() == old(self).seen(),
            final(self).emitted() == old(self).emitted(),
            final(self).processed_spec() == old(self).processed_spec(),
            final(self).errors_spec() == old(self).errors_spec(),
    {
        let checked = check_size(size_bytes, max_mb);
        match checked {
            Ok(()) => {
                self.stage = Stage::Sniffing;
            },
            Err(_) => {
                self.stage = Stage::Failed;
            },
        }
        checked
    }

    /// Records the format found and opens the array: hands back the opening
    /// bracket.
    pub fn begin(&mut self, mode: Mode) -> (chunk: String)
        requires
            old(self).wf(),
            old(self).stage_spec() == Stage::Sniffing,
        ensures
            final(self).wf(),
            leads_to(old(self).stage_spec(), final(self).stage_spec()),
            chunk@ == seq!['['],
            final(self).stage_spec() == reading_stage(mode),
            final(self).seen() == old(self).seen(),
            final(self).emitted() == old(self).emitted() + chunk@,
            final(self).processed_spec() == old(self).processed_spec(),
            final(self).errors_spec() == old(self).errors_spec(),
    {
        let chunk = self.writer.open();
        self.stage = match mode {
            Mode::Array => Stage::ArrayMode,
            Mode::Stream => Stage::StreamMode,
        };
        chunk
    }

    /// Takes in the outcome of the next record.
    ///
    /// A projection is written: the text handed back is the projection, with
    /// a comma in front unless it is the first one written, however many
    /// records were skipped before it. A record without the key, or one that
    /// is no JSON value, is skipped and counted as an error; the run goes
    /// on. A projection that could not be serialised fails the run and
    /// changes nothing else. The index reported is the record's position in
    /// the input.
    pub fn record(&mut self, outcome: RecordOutcome) -> (r: Result<Step, PipelineError>)
        requires
            old(self).wf(),
            old(self).is_reading(),
            old(self).processed_spec() + old(self).errors_spec() < usize::MAX,
        ensures
            final(self).wf(),
            leads_to(old(self).stage_spec(), final(self).stage_spec()),
            match outcome@ {
                OutcomeView::Projected(text) => {
                    &&& r matches Ok(Step::Write(chunk))
                    &&& chunk@ == separator(old(self).processed_spec() as int) + text
                    &&& final(self).emitted() == old(self).emitted() + chunk@
                    &&& final(self).processed_spec() == old(self).processed_spec() + 1
                    &&& final(self).errors_spec() == old(self).errors_spec()
                },
                OutcomeView::MissingKey => {
                    &&& r == Ok::<Step, PipelineError>(
                        Step::Skip {
                            index: old(self).seen().len() as usize,
                            reason: SkipReason::MissingKey,
                        },
                    )
                    &&& final(self).emitted() == old(self).emitted()
                    &&& final(self).processed_spec() == old(self).processed_spec()
                    &&& final(self).errors_spec() == old(self).errors_spec() + 1
                },
                OutcomeView::Undecodable => {
                    &&& r == Ok::<Step, PipelineError>(
                        Step::Skip {
                            index: old(self).seen().len() as usize,
                            reason: SkipReason::Undecodable,
                        },
                    )
                    &&& final(self).emitted() == old(self).emitted()
                    &&& final(self).processed_spec() == old(self).processed_spec()
                    &&& final(self).errors_spec() == old(self).errors_spec() + 1
                },
                OutcomeView::Unencodable => {
                    &&& r == Err::<Step, PipelineError>(
                        PipelineError::Serialization { index: old(self).seen().len() as usize },
                    )
                    &&& final(self).emitted() == old(self).emitted()
                    &&& final(self).processed_spec() == old(self).processed_spec()
                    &&& final(self).errors_spec() == old(self).errors_spec()
                },
            },
            final(self).stage_spec() == if outcome@ is Unencodable {
                Stage::Failed
            } else {
                old(self).stage_spec()
            },
            final(self).seen() == if outcome@ is Unencodable {
                old(self).seen()
            } else {
                old(self).seen().push(outcome@)
            },
    {
        proof {
            lemma_counts_add_up(self.seen@);
            lemma_push_outcome(self.seen@, outcome@);
        }
        let index: usize = self.processed + self.errors;
        match outcome {
            RecordOutcome::Projected(text) => {
                let chunk = self.writer.item(text.as_str());
                self.processed = self.processed + 1;
                self.seen = Ghost(self.seen@.push(OutcomeView::Projected(text@)));
                Ok(Step::Write(chunk))
            },
            RecordOutcome::MissingKey => {
                self.errors = self.errors + 1;
                self.seen = Ghost(self.seen@.push(OutcomeView::MissingKey));
                Ok(Step::Skip { index, reason: SkipReason::MissingKey })
            },
            RecordOutcome::Undecodable => {
                self.errors = self.errors + 1;
                self.seen = Ghost(self.seen@.push(OutcomeView::Undecodable));
                Ok(Step::Skip { index, reason: SkipReason::Undecodable })
            },
            RecordOutcome::Unencodable => {
                self.stage = Stage::Failed;
                Err(PipelineError::Serialization { index })
            },
        }
    }

    /// Closes the array once no record is left: hands back the closing
    /// bracket. The sink then holds the whole array of the projections
    /// written.
    pub fn end_of_input(&mut self) -> (chunk: String)
        requires
            old(self).wf(),
            old(self).is_reading(),
        ensures
            final(self).wf(),
            leads_to(old(self).stage_spec(), final(self).stage_spec()),
            chunk@ == seq![']'],
            final(self).stage_spec() == Stage::Finalizing,
            final(self).seen() == old(self).seen(),
            final(self).emitted() == old(self).emitted() + chunk@,
            final(self).emitted() == array_text(written_texts(old(self).seen())),
            final(self).processed_spec() == old(self).processed_spec(),
            final(self).errors_spec() == old(self).errors_spec(),
    {
        let chunk = self.writer.close();
        self.stage = Stage::Finalizing;
        chunk
    }

    /// Ends the run after the sink is flushed: stops the timer and hands out
    /// the statistics, with the time the run took and the output path as
    /// given.
    pub fn complete(&mut self, output_file: String) -> (stats: ProcessingStats)
        requires
            old(self).wf(),
            old(self).stage_spec() == Stage::Finalizing,
        ensures
            final(self).wf(),
            leads_to(old(self).stage_spec(), final(self).stage_spec()),
            final(self).stage_spec() == Stage::Done,
            final(self).seen() == old(self).seen(),
            final(self).emitted() == old(self).emitted(),
            final(self).processed_spec() == old(self).processed_spec(),
            final(self).errors_spec() == old(self).errors_spec(),
            stats.is_consistent(),
            stats.total_records == old(self).seen().len(),
            stats.processed_records == old(self).processed_spec(),
            stats.error_records == old(self).errors_spec(),
            stats.output_file == output_file,
    {
        proof {
            lemma_counts_add_up(self.seen@);
        }
        self.stage = Stage::Done;
        ProcessingStats {
            total_records: self.processed + self.errors,
            processed_records: self.processed,
            error_records: self.errors,
            processing_time: elapsed_since(&self.timer),
            output_file,
        }
    }

    /// Gives the run up, from any stage: for a failure of the input or of
    /// the sink. What was emitted stays as it is.
    pub fn abort(&mut self)
        requires
            old(self).wf(),
        ensures
            final(self).wf(),
            leads_to(old(self).stage_spec(), final(self).stage_spec()),
            final(self).stage_spec() == Stage::Failed,
            final(self).seen() == old(self).seen(),
            final(self).emitted() == old(self).emitted(),
            final(self).processed_spec() == old(self).processed_spec(),
            final(self).errors_spec() == old(self).errors_spec(),
    {
        self.stage = Stage::Failed;
    }
}

} // verus!

//! The whole run on an input held as text: guard, sniff, every record
//! through the projector and the writer, statistics at the end.

use crate::config::AppConfig;
use crate::error::PipelineError;
use crate::guard::{oversized, whole_megabytes};
use crate::pipeline::{Mode, Pipeline, Step};
use crate::record::{skipped, written_texts, OutcomeView};
use crate::source::{mode_of, outcome_of, outcomes_of, records_of, RecordSource};
use crate::stats::ProcessingStats;
use crate::writer::array_text;
use vstd::prelude::*;
use vstd::string::StringExecFns;

verus! {

/// The key whose value is projected out of each record of an event log.
pub const TARGET_KEY: &'static str = "actor";

/// The name of the output file for each mode. The two modes never share a
/// file.
pub open spec fn output_name(mode: Mode) -> Seq<char> {
    match mode {
        Mode::Array => "actors-stream.json"@,
        Mode::Stream => "actors.json"@,
    }
}

/// The outcomes of all records of `text` under `key`, in order.
pub open spec fn run_outcomes(text: Seq<char>, key: Seq<char>) -> Seq<OutcomeView> {
    outcomes_of(records_of(text), key)
}

/// What a finished run hands back.
#[derive(Debug)]
pub struct Extraction {
    /// The output array, complete.
    pub output: String,
    /// The mode in which the input was read.
    pub mode: Mode,
    /// The statistics of the run.
    pub stats: ProcessingStats,
}

/// The name of the output file for `mode`.
pub fn output_file_name(mode: Mode) -> (name: &'static str)
    ensures
        name@ == output_name(mode),
{
    match mode {
        Mode::Array => "actors-stream.json",
        Mode::Stream => "actors.json",
    }
}

/// The path of the output file for `mode` in the directory `dir`, which is
/// taken to end in a separator.
pub fn output_path(dir: &str, mode: Mode) -> (path: String)
    ensures
        path@ == dir@ + output_name(mode),
{
    let mut path = String::from_str(dir);
    path.append(output_file_name(mode));
    path
}

/// The path at which an output is written before it is moved to `path`: an
/// output stands at its own path only once it is complete.
pub fn staging_path(path: &str) -> (staged: String)
    ensures
        staged@ == path@ + ".tmp"@,
{
    let mut staged = String::from_str(path);
    staged.append(".tmp");
    staged
}

/// Feeds every record left in `source` to `pipeline` and appends what the
/// pipeline hands back to `sink`, until the source is empty. The projection
/// of a record can always be serialised, so the pipeline has no failure to
/// pass on.
pub fn drain(
    source: &mut RecordSource<'_>,
    pipeline: &mut Pipeline,
    key: &str,
    sink: &mut String,
) -> (r: Result<(), PipelineError>)
    requires
        old(source).wf(),
        old(pipeline).wf(),
        old(pipeline).is_reading(),
        old(sink)@ == old(pipeline).emitted(),
        old(pipeline).seen().len() + old(source).remaining().len() <= usize::MAX,
    ensures
        r is Ok,
        final(source).wf(),
        final(source).mode_spec() == old(source).mode_spec(),
        final(source).remaining().len() == 0,
        final(pipeline).wf(),
        final(pipeline).stage_spec() == old(pipeline).stage_spec(),
        final(pipeline).seen() == old(pipeline).seen() + outcomes_of(
            old(source).remaining(),
            key@,
        ),
        final(sink)@ == final(pipeline).emitted(),
{
    let ghost base = pipeline.seen();
    let ghost all = outcomes_of(source.remaining(), key@);
    let ghost mut done: int = 0;
    proof {
        assert(base + all.take(0) =~= base);
        assert(all.skip(0) =~= all);
    }
    loop
        invariant
            source.wf(),
            source.mode_spec() == old(source).mode_spec(),
            pipeline.wf(),
            pipeline.is_reading(),
            pipeline.stage_spec() == old(pipeline).stage_spec(),
            sink@ == pipeline.emitted(),
            base == old(pipeline).seen(),
            all == outcomes_of(old(source).remaining(), key@),
            base.len() + all.len() <= usize::MAX,
            0 <= done <= all.len(),
            pipeline.seen() == base + all.take(done),
            outcomes_of(source.remaining(), key@) == all.skip(done),
        decreases source.remaining().len(),
    {
        let ghost before = source.remaining();
        let next = source.next_outcome(key);
        match next {
            None => {
                proof {
                    assert(all.skip(done).len() == 0);
                    assert(all.take(done) =~= all);
                }
                return Ok(());
            },
            Some(outcome) => {
                proof {
                    pipeline.lemma_accounting();
                    assert(outcomes_of(before, key@).len() == before.len());
                    assert(outcomes_of(before, key@)[0] == outcome_of(before[0], key@));
                    assert(all.skip(done)[0] == all[done]);
                    assert(all[done] == outcome@);
                    assert(all.take(done).push(outcome@) =~= all.take(done + 1));
                    assert(base + all.take(done + 1) =~= (base + all.take(done)).push(outcome@));
                    assert(outcomes_of(before.drop_first(), key@) =~= outcomes_of(
                        before,
                        key@,
                    ).drop_first());
                    assert(all.skip(done).drop_first() =~= all.skip(done + 1));
                }
                match pipeline.record(outcome) {
                    Ok(Step::Write(chunk)) => {
                        sink.append(chunk.as_str());
                    },
                    Ok(Step::Skip { .. }) => {},
                    Err(error) => {
                        return Err(error);
                    },
                }
                proof {
                    done = done + 1;
                }
            },
        }
    }
}

/// Whether `r` is what a run on `text`, of `size_bytes` bytes, hands back
/// under `key`, with a limit of `max_mb` megabytes and its output in
/// `output_dir`.
///
/// An oversized input gives `InputTooLarge`, whatever it holds. Every other
/// run succeeds: the output is the array of the projections in the order of
/// their records, each record is counted once, and the output file is named
/// after the mode. Nothing is said of the processing time.
pub open spec fn is_run_result(
    size_bytes: u64,
    text: Seq<char>,
    key: Seq<char>,
    max_mb: usize,
    output_dir: Seq<char>,
    r: Result<Extraction, PipelineError>,
) -> bool {
    let outcomes = run_outcomes(text, key);
    match r {
        Ok(done) => {
            &&& !oversized(size_bytes, max_mb)
            &&& done.mode == mode_of(text)
            &&& done.output@ == array_text(written_texts(outcomes))
            &&& done.stats.total_records == outcomes.len()
            &&& done.stats.processed_records == written_texts(outcomes).len()
            &&& done.stats.error_records == skipped(outcomes)
            &&& done.stats.output_file@ == output_dir + output_name(mode_of(text))
        },
        Err(error) => {
            &&& oversized(size_bytes, max_mb)
            &&& error == (PipelineError::InputTooLarge {
                max_mb,
                actual_mb: whole_megabytes(size_bytes),
            })
        },
    }
}

/// Runs the pipeline on `text`: projects the value under `key` out of each
/// record and builds the array of the projections.
///
/// The run fails, before anything is parsed, where the text holds more
/// whole megabytes than `max_mb`. On every other input it succeeds, whatever
/// the text holds and whatever the number of records skipped.
pub fn run(text: &str, key: &str, max_mb: usize, output_dir: &str) -> (r: Result<
    Extraction,
    PipelineError,
>)
    ensures
        is_run_result(text.len() as u64, text@, key@, max_mb, output_dir@, r),
        r is Ok <==> !oversized(text.len() as u64, max_mb),
        r matches Ok(done) ==> done.stats.is_consistent(),
{
    let mut pipeline = Pipeline::new();
    match pipeline.guard(text.len() as u64, max_mb) {
        Err(error) => {
            return Err(error);
        },
        Ok(()) => {},
    }
    let mut source = RecordSource::sniff(text);
    let mode = source.mode();
    let mut output = pipeline.begin(mode);
    let ghost outcomes = run_outcomes(text@, key@);
    proof {
        assert(Seq::<char>::empty() + output@ =~= output@);
        assert(outcomes.len() == source.remaining().len());
        assert(pipeline.seen().len() == 0);
    }
    match drain(&mut source, &mut pipeline, key, &mut output) {
        Err(error) => {
            return Err(error);
        },
        Ok(()) => {},
    }
    proof {
        assert(Seq::<OutcomeView>::empty() + outcomes =~= outcomes);
    }
    let closing = pipeline.end_of_input();
    output.append(closing.as_str());
    let stats = pipeline.complete(output_path(output_dir, mode));
    proof {
        pipeline.lemma_accounting();
    }
    Ok(Extraction { output, mode, stats })
}

/// Runs the pipeline on the text of one event log: projects the `actor` of
/// each record, with the output named after the mode in the configured
/// `json_dir`.
pub fn process_large_json_stream(config: &AppConfig, text: &str, max_file_size_mb: usize) -> (r:
    Result<Extraction, PipelineError>)
    ensures
        is_run_result(
            text.len() as u64,
            text@,
            TARGET_KEY@,
            max_file_size_mb,
            config.json_dir@,
            r,
        ),
        r is Ok <==> !oversized(text.len() as u64, max_file_size_mb),
        r matches Ok(done) ==> done.stats.is_consistent(),
{
    run(text, TARGET_KEY, max_file_size_mb, config.json_dir.as_str())
}

} // verus!

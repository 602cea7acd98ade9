//! What holds of every run, stated over the models the contracts use.

use crate::error::PipelineError;
use crate::extract::{is_run_result, Extraction};
use crate::guard::{lemma_oversized_by_a_megabyte, oversized, whole_megabytes, BYTES_PER_MB};
use crate::json::{array_items, encoding, member, stream_items};
use crate::pipeline::Mode;
use crate::record::{lemma_push_outcome, skipped, written_texts, OutcomeView};
use crate::source::{decoded, mode_of, outcome_of, outcomes_of, records_of};
use crate::writer::{array_text, joined, separator};
use serde_json::Value;
use vstd::prelude::*;

verus! {

/// Whether a record was decoded and holds `key` at its top level.
pub open spec fn holds_key(record: Option<Value>, key: Seq<char>) -> bool {
    record matches Some(value) && member(value, key) is Some
}

/// The serialised value under `key` of a record that holds it.
pub open spec fn projection_text(record: Option<Value>, key: Seq<char>) -> Seq<char> {
    encoding(member(record->0, key)->0)
}

/// The records that hold `key`, in their order among all records.
pub open spec fn key_holders(records: Seq<Option<Value>>, key: Seq<char>) -> Seq<Option<Value>> {
    records.filter(|record: Option<Value>| holds_key(record, key))
}

/// The serialised projections of the records that hold `key`, in the order
/// of those records.
pub open spec fn projection_texts(records: Seq<Option<Value>>, key: Seq<char>) -> Seq<Seq<char>> {
    key_holders(records, key).map_values(|record: Option<Value>| projection_text(record, key))
}

/// Two sequences of items joined one after the other are joined by exactly
/// one comma where both have items, and by nothing where either is empty:
/// no separator leads, trails or doubles.
pub proof fn lemma_joined_concat(a: Seq<Seq<char>>, b: Seq<Seq<char>>)
    ensures
        joined(a + b) == joined(a) + if a.len() > 0 && b.len() > 0 {
            seq![',']
        } else {
            Seq::<char>::empty()
        } + joined(b),
    decreases b.len(),
{
    if b.len() == 0 {
        assert(a + b =~= a);
        assert(joined(a) + Seq::<char>::empty() + joined(b) =~= joined(a));
    } else {
        let front = b.drop_last();
        assert((a + b).drop_last() =~= a + front);
        assert((a + b).last() == b.last());
        lemma_joined_concat(a, front);
        if front.len() == 0 {
            assert(a + front =~= a);
            assert(joined(b) =~= b.last());
            assert(joined(a + b) =~= joined(a) + separator(a.len() as int) + b.last());
        } else {
            assert(joined(a + b) =~= joined(a + front) + seq![','] + b.last());
            assert(joined(b) =~= joined(front) + seq![','] + b.last());
        }
        assert(joined(a + b) =~= joined(a) + if a.len() > 0 && b.len() > 0 {
            seq![',']
        } else {
            Seq::<char>::empty()
        } + joined(b));
    }
}

/// The array of no item is `[]`, of one item `[X]`, of two `[X,Y]`.
pub proof fn lemma_small_arrays(x: Seq<char>, y: Seq<char>)
    ensures
        array_text(Seq::<Seq<char>>::empty()) == seq!['[', ']'],
        array_text(seq![x]) == seq!['['] + x + seq![']'],
        array_text(seq![x, y]) == seq!['['] + x + seq![','] + y + seq![']'],
{
    let none = Seq::<Seq<char>>::empty();
    assert(joined(none) =~= Seq::<char>::empty());
    assert(array_text(none) =~= seq!['[', ']']);
    assert(seq![x].drop_last() =~= none);
    assert(joined(seq![x]) =~= x);
    assert(array_text(seq![x]) =~= seq!['['] + x + seq![']']);
    assert(seq![x, y].drop_last() =~= seq![x]);
    assert(joined(seq![x, y]) =~= x + seq![','] + y);
    assert(array_text(seq![x, y]) =~= seq!['['] + x + seq![','] + y + seq![']']);
}

/// The texts written are the projections of exactly the records that hold
/// the key, in the order of those records, and the skipped records are all
/// the others.
pub proof fn lemma_written_in_record_order(records: Seq<Option<Value>>, key: Seq<char>)
    ensures
        written_texts(outcomes_of(records, key)) == projection_texts(records, key),
        skipped(outcomes_of(records, key)) == records.len() - key_holders(records, key).len(),
        key_holders(records, key).len() <= records.len(),
    decreases records.len(),
{
    reveal(Seq::filter);
    let holds = |record: Option<Value>| holds_key(record, key);
    let text = |record: Option<Value>| projection_text(record, key);
    if records.len() == 0 {
        assert(outcomes_of(records, key) =~= Seq::<OutcomeView>::empty());
        assert(projection_texts(records, key) =~= Seq::<Seq<char>>::empty());
    } else {
        let before = records.drop_last();
        let last = records.last();
        assert(outcomes_of(records, key) =~= outcomes_of(before, key).push(outcome_of(last, key)));
        lemma_push_outcome(outcomes_of(before, key), outcome_of(last, key));
        lemma_written_in_record_order(before, key);
        if holds_key(last, key) {
            assert(records.filter(holds) == before.filter(holds).push(last));
            assert(before.filter(holds).push(last).map_values(text) =~= before.filter(
                holds,
            ).map_values(text).push(text(last)));
        } else {
            assert(records.filter(holds) == before.filter(holds));
        }
    }
}

/// Of a JSON array of N records of which M hold the key at their top
/// level, and which is within the size limit, the run succeeds: it counts N
/// records in all, M as processed and N - M as errors, and its output is the
/// array of those M projections in the order of their records.
pub proof fn lemma_array_run(
    size_bytes: u64,
    text: Seq<char>,
    key: Seq<char>,
    max_mb: usize,
    output_dir: Seq<char>,
    items: Seq<Value>,
    r: Result<Extraction, PipelineError>,
)
    requires
        array_items(text) == Some(items),
        !oversized(size_bytes, max_mb),
        is_run_result(size_bytes, text, key, max_mb, output_dir, r),
    ensures
        r matches Ok(done) && {
            &&& done.mode == Mode::Array
            &&& done.stats.total_records == items.len()
            &&& done.stats.processed_records == key_holders(decoded(items), key).len()
            &&& done.stats.error_records == items.len() - key_holders(decoded(items), key).len()
            &&& done.output@ == array_text(projection_texts(decoded(items), key))
        },
{
    lemma_written_in_record_order(decoded(items), key);
}

/// An input that reaches one full megabyte past the limit is turned away
/// with `InputTooLarge`, whatever it holds; no output comes of the run.
pub proof fn lemma_oversized_run(
    size_bytes: u64,
    text: Seq<char>,
    key: Seq<char>,
    max_mb: usize,
    output_dir: Seq<char>,
    r: Result<Extraction, PipelineError>,
)
    requires
        size_bytes >= (max_mb + 1) * BYTES_PER_MB,
        is_run_result(size_bytes, text, key, max_mb, output_dir, r),
    ensures
        r == Err::<Extraction, PipelineError>(
            PipelineError::InputTooLarge { max_mb, actual_mb: whole_megabytes(size_bytes) },
        ),
{
    lemma_oversized_by_a_megabyte(size_bytes, max_mb);
}

/// Two runs on the same input under the same settings end alike: both
/// succeed or both fail with the same error, and where they succeed their
/// outputs are the same text, their counters, mode and output file the
/// same. Only the processing time may differ.
pub proof fn lemma_rerun_is_identical(
    size_bytes: u64,
    text: Seq<char>,
    key: Seq<char>,
    max_mb: usize,
    output_dir: Seq<char>,
    first: Result<Extraction, PipelineError>,
    second: Result<Extraction, PipelineError>,
)
    requires
        is_run_result(size_bytes, text, key, max_mb, output_dir, first),
        is_run_result(size_bytes, text, key, max_mb, output_dir, second),
    ensures
        first is Ok <==> second is Ok,
        first matches Err(a) ==> second == Err::<Extraction, PipelineError>(a),
        first matches Ok(a) ==> {
            &&& second matches Ok(b)
            &&& a.output@ == b.output@
            &&& a.mode == b.mode
            &&& a.stats.total_records == b.stats.total_records
            &&& a.stats.processed_records == b.stats.processed_records
            &&& a.stats.error_records == b.stats.error_records
            &&& a.stats.output_file@ == b.stats.output_file@
        },
{
}

/// The mode is decided by the array decoding alone: an input that decodes
/// as one array is read in array mode and its records are the elements of
/// that array; every other input is read in stream mode and its records are
/// the values of the stream.
pub proof fn lemma_mode_by_array_decoding(text: Seq<char>)
    ensures
        mode_of(text) == Mode::Array <==> array_items(text) is Some,
        mode_of(text) == Mode::Stream <==> array_items(text) is None,
        array_items(text) matches Some(items) ==> records_of(text) == decoded(items),
        array_items(text) is None ==> records_of(text) == stream_items(text),
{
}

/// An input read in stream mode whose values are the elements of an array
/// gives what the array gives: both runs succeed within the size limit, with
/// the same output and the same counts. The two runs differ in their mode
/// and in the name of their output file.
pub proof fn lemma_stream_as_array(
    stream_text: Seq<char>,
    stream_size: u64,
    array_input: Seq<char>,
    array_size: u64,
    items: Seq<Value>,
    key: Seq<char>,
    max_mb: usize,
    output_dir: Seq<char>,
    from_stream: Result<Extraction, PipelineError>,
    from_array: Result<Extraction, PipelineError>,
)
    requires
        array_items(stream_text) is None,
        stream_items(stream_text) == decoded(items),
        array_items(array_input) == Some(items),
        !oversized(stream_size, max_mb),
        !oversized(array_size, max_mb),
        is_run_result(stream_size, stream_text, key, max_mb, output_dir, from_stream),
        is_run_result(array_size, array_input, key, max_mb, output_dir, from_array),
    ensures
        from_stream matches Ok(a) && from_array matches Ok(b) && {
            &&& a.mode == Mode::Stream
            &&& b.mode == Mode::Array
            &&& a.output@ == b.output@
            &&& a.stats.total_records == b.stats.total_records
            &&& a.stats.processed_records == b.stats.processed_records
            &&& a.stats.error_records == b.stats.error_records
        },
{
}

} // verus!

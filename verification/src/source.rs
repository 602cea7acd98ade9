//! The records of an input: the format sniffer, and the projector that
//! turns each record into an outcome.

use crate::json::{
    array_items, decode_array, encode, encoding, field, member, next_item, open_stream, pending,
    stream_items,
};
use crate::pipeline::Mode;
use crate::record::{OutcomeView, RecordOutcome};
use serde_json::de::{StrRead, StreamDeserializer};
use serde_json::Value;
use vstd::prelude::*;

verus! {

/// The mode in which `text` is read: as an array where it decodes as one,
/// else as a stream. The array is tried first and the stream is only the
/// fallback.
pub open spec fn mode_of(text: Seq<char>) -> Mode {
    if array_items(text) is Some {
        Mode::Array
    } else {
        Mode::Stream
    }
}

/// The elements of a decoded array as records: each one is a decoded value.
pub open spec fn decoded(items: Seq<Value>) -> Seq<Option<Value>> {
    items.map_values(|item: Value| Some(item))
}

/// The records of `text`, in order: the elements of the array in array mode,
/// the values of the stream in stream mode. `None` stands for a stretch of
/// the stream that is no JSON value.
pub open spec fn records_of(text: Seq<char>) -> Seq<Option<Value>> {
    match array_items(text) {
        Some(items) => decoded(items),
        None => stream_items(text),
    }
}

/// What the projector makes of one record under `key`: a record that is no
/// JSON value is undecodable, a value without the key at its top level
/// misses it, and any other is projected to the text of what stands under
/// the key.
pub open spec fn outcome_of(record: Option<Value>, key: Seq<char>) -> OutcomeView {
    match record {
        None => OutcomeView::Undecodable,
        Some(value) => match member(value, key) {
            None => OutcomeView::MissingKey,
            Some(found) => OutcomeView::Projected(encoding(found)),
        },
    }
}

/// The outcomes of a sequence of records, in order.
pub open spec fn outcomes_of(records: Seq<Option<Value>>, key: Seq<char>) -> Seq<OutcomeView> {
    records.map_values(|record: Option<Value>| outcome_of(record, key))
}

/// Projects one decoded record: looks for `key` at the top level of the
/// value, nowhere deeper, and serialises what stands under it as it is.
pub fn project(record: &Value, key: &str) -> (outcome: RecordOutcome)
    ensures
        outcome@ == outcome_of(Some(*record), key@),
{
    match field(record, key) {
        None => RecordOutcome::MissingKey,
        Some(found) => match encode(found) {
            Ok(text) => RecordOutcome::Projected(text),
            // Not reached: serialising a decoded value does not fail.
            Err(_) => RecordOutcome::Unencodable,
        },
    }
}

enum Records<'a> {
    Array { items: Vec<Value>, cursor: usize },
    Stream { stream: StreamDeserializer<'a, StrRead<'a>, Value> },
}

impl<'a> Records<'a> {
    spec fn inv(self) -> bool {
        match self {
            Records::Array { items, cursor } => cursor <= items.len(),
            Records::Stream { stream } => pending(stream).len() <= usize::MAX,
        }
    }

    spec fn mode(self) -> Mode {
        match self {
            Records::Array { .. } => Mode::Array,
            Records::Stream { .. } => Mode::Stream,
        }
    }

    spec fn remaining(self) -> Seq<Option<Value>> {
        match self {
            Records::Array { items, cursor } => decoded(items@.skip(cursor as int)),
            Records::Stream { stream } => pending(stream),
        }
    }

    fn advance(&mut self, key: &str) -> (r: Option<RecordOutcome>)
        requires
            old(self).inv(),
        ensures
            final(self).inv(),
            final(self).mode() == old(self).mode(),
            match r {
                None => old(self).remaining().len() == 0 && final(self).remaining() == old(
                    self,
                ).remaining(),
                Some(outcome) => {
                    &&& old(self).remaining().len() > 0
                    &&& outcome@ == outcome_of(old(self).remaining()[0], key@)
                    &&& final(self).remaining() == old(self).remaining().drop_first()
                },
            },
    {
        match self {
            Records::Array { items, cursor } => {
                if *cursor < items.len() {
                    let outcome = project(&items[*cursor], key);
                    proof {
                        let rest = items@.skip(*cursor as int);
                        assert(decoded(rest)[0] == Some(items@[*cursor as int]));
                        assert(decoded(items@.skip(*cursor + 1)) =~= decoded(rest).drop_first());
                    }
                    *cursor = *cursor + 1;
                    Some(outcome)
                } else {
                    None
                }
            },
            Records::Stream { stream } => {
                match next_item(stream) {
                    None => None,
                    Some(Ok(value)) => Some(project(&value, key)),
                    Some(Err(_)) => Some(RecordOutcome::Undecodable),
                }
            },
        }
    }
}

/// The records of one input, handed out one at a time.
pub struct RecordSource<'a> {
    records: Records<'a>,
}

impl<'a> RecordSource<'a> {
    /// The invariant of a source: it never stands past its last record.
    pub closed spec fn wf(&self) -> bool {
        self.records.inv()
    }

    /// The mode in which the input is read.
    pub closed spec fn mode_spec(&self) -> Mode {
        self.records.mode()
    }

    /// The records not yet handed out, in order.
    pub closed spec fn remaining(&self) -> Seq<Option<Value>> {
        self.records.remaining()
    }

    /// Finds the format of `text`: tries it as one JSON array and, where
    /// that fails, falls back to reading it as a stream of values.
    pub fn sniff(text: &'a str) -> (source: RecordSource<'a>)
        ensures
            source.wf(),
            source.mode_spec() == mode_of(text@),
            source.remaining() == records_of(text@),
            source.remaining().len() <= usize::MAX,
    {
        match decode_array(text) {
            Ok(items) => {
                assert(items@.skip(0) =~= items@);
                assert(decoded(items@).len() == items.len());
                RecordSource { records: Records::Array { items, cursor: 0 } }
            },
            Err(_) => RecordSource { records: Records::Stream { stream: open_stream(text) } },
        }
    }

    /// The mode in which the input is read.
    #[verifier::when_used_as_spec(mode_spec)]
    pub fn mode(&self) -> (mode: Mode)
        ensures
            mode == self.mode_spec(),
    {
        match &self.records {
            Records::Array { .. } => Mode::Array,
            Records::Stream { .. } => Mode::Stream,
        }
    }

    /// Takes the next record and projects it under `key`; `None` once no
    /// record is left.
    pub fn next_outcome(&mut self, key: &str) -> (r: Option<RecordOutcome>)
        requires
            old(self).wf(),
        ensures
            final(self).wf(),
            final(self).mode_spec() == old(self).mode_spec(),
            match r {
                None => old(self).remaining().len() == 0 && final(self).remaining() == old(
                    self,
                ).remaining(),
                Some(outcome) => {
                    &&& old(self).remaining().len() > 0
                    &&& outcome@ == outcome_of(old(self).remaining()[0], key@)
                    &&& final(self).remaining() == old(self).remaining().drop_first()
                },
            },
    {
        self.records.advance(key)
    }
}

} // verus!

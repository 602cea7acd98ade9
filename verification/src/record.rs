//! What becomes of one record, and what a sequence of records amounts to.

use vstd::prelude::*;

verus! {

/// What the projector made of one record.
#[derive(Debug, Clone, PartialEq, Eq)]
pub enum RecordOutcome {
    /// The record holds the target key; this is the serialised value under
    /// it.
    Projected(String),
    /// The record was decoded and does not hold the target key.
    MissingKey,
    /// The record's text is not a JSON value.
    Undecodable,
    /// The record holds the target key, and the value under it could not be
    /// serialised.
    Unencodable,
}

/// The mathematical form of a `RecordOutcome`.
pub enum OutcomeView {
    Projected(Seq<char>),
    MissingKey,
    Undecodable,
    Unencodable,
}

impl View for RecordOutcome {
    type V = OutcomeView;

    open spec fn view(&self) -> OutcomeView {
        match self {
            RecordOutcome::Projected(text) => OutcomeView::Projected(text@),
            RecordOutcome::MissingKey => OutcomeView::MissingKey,
            RecordOutcome::Undecodable => OutcomeView::Undecodable,
            RecordOutcome::Unencodable => OutcomeView::Unencodable,
        }
    }
}

/// Why a record was skipped.
#[derive(Debug, Clone, Copy, PartialEq, Eq, Structural)]
pub enum SkipReason {
    /// The record does not hold the target key.
    MissingKey,
    /// The record's text is not a JSON value.
    Undecodable,
}

/// Whether a record with this outcome is skipped and counted as an error.
pub open spec fn is_skip(outcome: OutcomeView) -> bool {
    outcome is MissingKey || outcome is Undecodable
}

/// The texts of the projected records, in the order of the records; nothing
/// stands in for a record without a projection.
pub open spec fn written_texts(outcomes: Seq<OutcomeView>) -> Seq<Seq<char>>
    decreases outcomes.len(),
{
    if outcomes.len() == 0 {
        Seq::empty()
    } else {
        let before = written_texts(outcomes.drop_last());
        match outcomes.last() {
            OutcomeView::Projected(text) => before.push(text),
            _ => before,
        }
    }
}

/// The number of skipped records.
pub open spec fn skipped(outcomes: Seq<OutcomeView>) -> nat
    decreases outcomes.len(),
{
    if outcomes.len() == 0 {
        0
    } else {
        skipped(outcomes.drop_last()) + if is_skip(outcomes.last()) {
            1nat
        } else {
            0nat
        }
    }
}

/// Whether every projection among the outcomes could be serialised.
pub open spec fn all_encodable(outcomes: Seq<OutcomeView>) -> bool {
    forall|i: int| 0 <= i < outcomes.len() ==> !(#[trigger] outcomes[i] is Unencodable)
}

/// One more outcome extends the written texts by its text, if it has one,
/// and the skipped count by one, if it is a skip.
pub proof fn lemma_push_outcome(outcomes: Seq<OutcomeView>, next: OutcomeView)
    ensures
        written_texts(outcomes.push(next)) == match next {
            OutcomeView::Projected(text) => written_texts(outcomes).push(text),
            _ => written_texts(outcomes),
        },
        skipped(outcomes.push(next)) == skipped(outcomes) + if is_skip(next) {
            1nat
        } else {
            0nat
        },
        all_encodable(outcomes.push(next)) <==> all_encodable(outcomes) && !(next is Unencodable),
{
    let extended = outcomes.push(next);
    assert(extended.drop_last() =~= outcomes);
    assert(extended.last() == next);
    if all_encodable(extended) {
        assert forall|i: int| 0 <= i < outcomes.len() implies !(#[trigger] outcomes[i]
            is Unencodable) by {
            assert(extended[i] == outcomes[i]);
        }
        assert(extended[outcomes.len() as int] == next);
    }
}

/// Where every projection could be serialised, each record is either
/// written or skipped: the two counts add up to the number of records.
pub proof fn lemma_counts_add_up(outcomes: Seq<OutcomeView>)
    requires
        all_encodable(outcomes),
    ensures
        written_texts(outcomes).len() + skipped(outcomes) == outcomes.len(),
    decreases outcomes.len(),
{
    if outcomes.len() > 0 {
        let before = outcomes.drop_last();
        assert forall|i: int| 0 <= i < before.len() implies !(#[trigger] before[i]
            is Unencodable) by {
            assert(before[i] == outcomes[i]);
        }
        lemma_counts_add_up(before);
        assert(!(outcomes[outcomes.len() - 1] is Unencodable));
    }
}

} // verus!

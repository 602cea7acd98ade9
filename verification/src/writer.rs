//! The batch writer: a JSON array emitted piece by piece, one item at a time,
//! with a separator strictly between items.

use vstd::prelude::*;
use vstd::string::StringExecFns;

verus! {

/// The separator that goes in front of an item which has `before` items
/// ahead of it: a comma, except in front of the first.
pub open spec fn separator(before: int) -> Seq<char> {
    if before > 0 {
        seq![',']
    } else {
        Seq::empty()
    }
}

/// The items in order, with one comma between each two neighbours.
pub open spec fn joined(items: Seq<Seq<char>>) -> Seq<char>
    decreases items.len(),
{
    if items.len() == 0 {
        Seq::empty()
    } else {
        joined(items.drop_last()) + separator(items.len() - 1) + items.last()
    }
}

/// The finished array: an opening bracket, the joined items, a closing
/// bracket.
pub open spec fn array_text(items: Seq<Seq<char>>) -> Seq<char> {
    seq!['['] + joined(items) + seq![']']
}

/// Where a writer stands in the life of its array.
#[derive(Clone, Copy, Debug, PartialEq, Eq, Structural)]
pub enum WriterPhase {
    /// Nothing emitted yet.
    Created,
    /// The opening bracket is out; items may follow.
    Open,
    /// The closing bracket is out; the array is complete.
    Closed,
}

/// What a writer in `phase` has emitted once `items` went through it.
pub open spec fn emitted_text(phase: WriterPhase, items: Seq<Seq<char>>) -> Seq<char> {
    match phase {
        WriterPhase::Created => Seq::empty(),
        WriterPhase::Open => seq!['['] + joined(items),
        WriterPhase::Closed => array_text(items),
    }
}

/// Emits a JSON array incrementally. It keeps one flag, whether an item has
/// gone out, and never the items themselves: each call hands back the piece
/// of text to append to the sink.
pub struct BatchWriter {
    phase: WriterPhase,
    has_items: bool,
    items: Ghost<Seq<Seq<char>>>,
}

impl BatchWriter {
    #[verifier::type_invariant]
    spec fn inv(self) -> bool {
        &&& self.has_items <==> self.items@.len() > 0
        &&& self.phase is Created ==> self.items@.len() == 0
    }

    /// The phase the writer is in.
    pub closed spec fn phase_spec(&self) -> WriterPhase {
        self.phase
    }

    /// The items written so far, in order.
    pub closed spec fn items(&self) -> Seq<Seq<char>> {
        self.items@
    }

    /// Everything the writer has handed out so far, concatenated.
    pub open spec fn emitted(&self) -> Seq<char> {
        emitted_text(self.phase_spec(), self.items())
    }

    /// A writer that has emitted nothing.
    pub fn new() -> (w: BatchWriter)
        ensures
            w.phase_spec() == WriterPhase::Created,
            w.items() == Seq::<Seq<char>>::empty(),
    {
        BatchWriter { phase: WriterPhase::Created, has_items: false, items: Ghost(Seq::empty()) }
    }

    /// The phase the writer is in.
    #[verifier::when_used_as_spec(phase_spec)]
    pub fn phase(&self) -> (p: WriterPhase)
        ensures
            p == self.phase_spec(),
    {
        self.phase
    }

    /// Whether at least one item has been written.
    pub fn has_items(&self) -> (b: bool)
        ensures
            b <==> self.items().len() > 0,
    {
        proof {
            use_type_invariant(self);
        }
        self.has_items
    }

    /// Starts the array: hands back the opening bracket.
    pub fn open(&mut self) -> (chunk: String)
        requires
            old(self).phase_spec() == WriterPhase::Created,
        ensures
            chunk@ == seq!['['],
            final(self).phase_spec() == WriterPhase::Open,
            final(self).items() == Seq::<Seq<char>>::empty(),
            final(self).emitted() == old(self).emitted() + chunk@,
    {
        proof {
            use_type_invariant(&*self);
            reveal_strlit("[");
        }
        *self = BatchWriter { phase: WriterPhase::Open, has_items: false, items: Ghost(Seq::empty()) };
        let chunk = String::from_str("[");
        assert(chunk@ =~= seq!['[']);
        assert(self.emitted() =~= old(self).emitted() + chunk@);
        chunk
    }

    /// Writes one item: hands back the item's text, with a comma in front
    /// unless it is the first item of the array.
    pub fn item(&mut self, text: &str) -> (chunk: String)
        requires
            old(self).phase_spec() == WriterPhase::Open,
        ensures
            chunk@ == separator(old(self).items().len() as int) + text@,
            final(self).phase_spec() == WriterPhase::Open,
            final(self).items() == old(self).items().push(text@),
            final(self).emitted() == old(self).emitted() + chunk@,
    {
        proof {
            use_type_invariant(&*self);
            reveal_strlit(",");
        }
        let ghost before = self.items@;
        let mut chunk = String::new();
        if self.has_items {
            chunk.append(",");
        }
        chunk.append(text);
        *self = BatchWriter {
            phase: WriterPhase::Open,
            has_items: true,
            items: Ghost(before.push(text@)),
        };
        proof {
            assert(chunk@ =~= separator(before.len() as int) + text@);
            assert(before.push(text@).drop_last() =~= before);
            assert(self.emitted() =~= old(self).emitted() + chunk@);
        }
        chunk
    }

    /// Ends the array: hands back the closing bracket.
    pub fn close(&mut self) -> (chunk: String)
        requires
            old(self).phase_spec() == WriterPhase::Open,
        ensures
            chunk@ == seq![']'],
            final(self).phase_spec() == WriterPhase::Closed,
            final(self).items() == old(self).items(),
            final(self).emitted() == old(self).emitted() + chunk@,
            final(self).emitted() == array_text(old(self).items()),
    {
        proof {
            use_type_invariant(&*self);
            reveal_strlit("]");
        }
        let ghost before = self.items@;
        *self = BatchWriter {
            phase: WriterPhase::Closed,
            has_items: self.has_items,
            items: Ghost(before),
        };
        let chunk = String::from_str("]");
        assert(chunk@ =~= seq![']']);
        chunk
    }
}

} // verus!

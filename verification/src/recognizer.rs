//! Grammar recognizers: automata over bytes that say which text may follow.
//!
//! A recognizer reads bytes one at a time and can take back what it read
//! since it last committed. What it admits is described by two sets of byte
//! strings, both seen from the committed position: the strings it can read,
//! and the strings after which the text may end.

use vstd::prelude::*;

verus! {

/// Tokens that stand for no text.
#[derive(Clone, Copy, PartialEq, Eq, Debug)]
pub enum SpecialToken {
    Unknown,
    Padding,
    Separator,
    BeginningOfSentence,
    EndOfSentence,
}

/// What a recognizer admits, and how far it has read past its committed
/// position.
pub struct RecognizerState {
    /// The byte strings that can be read from the committed position.
    pub viable: Set<Seq<u8>>,
    /// The byte strings after which the text may end.
    pub complete: Set<Seq<u8>>,
    /// The bytes read since the committed position.
    pub pending: Seq<u8>,
}

impl RecognizerState {
    /// Whether `bytes` can be read from the current position.
    pub open spec fn allows(self, bytes: Seq<u8>) -> bool {
        self.viable.contains(self.pending + bytes)
    }

    /// Whether the text may end at the current position.
    pub open spec fn may_end(self) -> bool {
        self.complete.contains(self.pending)
    }

    /// The state after one more byte was read.
    pub open spec fn pushed(self, byte: u8) -> Self {
        RecognizerState { pending: self.pending.push(byte), ..self }
    }

    /// The state after the last `num` bytes were taken back.
    pub open spec fn popped(self, num: int) -> Self {
        RecognizerState { pending: self.pending.take(self.pending.len() - num), ..self }
    }

    /// The state after the current position was committed.
    pub open spec fn collapsed(self) -> Self {
        RecognizerState {
            viable: Set::new(|s: Seq<u8>| self.viable.contains(self.pending + s)),
            complete: Set::new(|s: Seq<u8>| self.complete.contains(self.pending + s)),
            pending: Seq::empty(),
        }
    }

    /// The state after `bytes` were read and committed.
    pub open spec fn advanced(self, bytes: Seq<u8>) -> Self {
        RecognizerState { pending: self.pending + bytes, ..self }.collapsed()
    }

    /// Every prefix of a readable string is readable, and what was read so
    /// far is readable.
    pub open spec fn well_formed(self) -> bool {
        &&& self.viable.contains(self.pending)
        &&& forall|s: Seq<u8>, k: int|
            #![trigger self.viable.contains(s.take(k))]
            self.viable.contains(s) && 0 <= k <= s.len() ==> self.viable.contains(s.take(k))
    }
}

/// A well-formed state stays well formed when bytes that it allows are read
/// and committed.
pub proof fn lemma_advanced_well_formed(state: RecognizerState, bytes: Seq<u8>)
    requires
        state.well_formed(),
        state.allows(bytes),
    ensures
        state.advanced(bytes).well_formed(),
{
    let next = state.advanced(bytes);
    let read = state.pending + bytes;
    assert forall|s: Seq<u8>, k: int|
        next.viable.contains(s) && 0 <= k <= s.len() implies #[trigger] next.viable.contains(
        s.take(k),
    ) by {
        assert((read + s).take(read.len() + k) =~= read + s.take(k));
    }
}

/// A well-formed state stays well formed when its position is committed.
pub proof fn lemma_collapsed_well_formed(state: RecognizerState)
    requires
        state.well_formed(),
    ensures
        state.collapsed().well_formed(),
{
    assert(state.allows(Seq::empty())) by {
        assert(state.pending + Seq::<u8>::empty() =~= state.pending);
    }
    assert(state.advanced(Seq::empty()) == state.collapsed()) by {
        assert(state.pending + Seq::<u8>::empty() =~= state.pending);
    }
    lemma_advanced_well_formed(state, Seq::empty());
}

/// A byte-level automaton with a stack: it reads a byte where its grammar
/// has a transition, takes bytes back, and commits.
///
/// An implementation states what it admits (`state`) and when it is valid
/// (`wf`), and proves its four operations against that. The two have bodies
/// for the sake of implementations that prove nothing: such a recognizer is
/// never valid, so nothing is claimed of it, and it runs all the same.
pub trait Recognizer {
    /// What the recognizer admits and how far it has read.
    open spec fn state(&self) -> RecognizerState {
        RecognizerState { viable: Set::empty(), complete: Set::empty(), pending: Seq::empty() }
    }

    /// The recognizer's own invariant.
    open spec fn wf(&self) -> bool {
        false
    }

    /// Reads `byte` if the grammar can go on with it, and says whether it did.
    fn try_push_byte(&mut self, byte: u8) -> (ok: bool)
        requires
            old(self).wf(),
            old(self).state().well_formed(),
        ensures
            final(self).wf(),
            ok == old(self).state().allows(seq![byte]),
            final(self).state() == if ok {
                old(self).state().pushed(byte)
            } else {
                old(self).state()
            },
    ;

    /// Takes back the last `num` bytes read.
    fn pop_bytes(&mut self, num: usize)
        requires
            old(self).wf(),
            old(self).state().well_formed(),
            num <= old(self).state().pending.len(),
        ensures
            final(self).wf(),
            final(self).state() == old(self).state().popped(num as int),
    ;

    /// Commits the current position: nothing read so far can be taken back.
    fn collapse(&mut self)
        requires
            old(self).wf(),
            old(self).state().well_formed(),
        ensures
            final(self).wf(),
            final(self).state() == old(self).state().collapsed(),
    ;

    /// Whether a special token may come at the current position. The end of
    /// the text is allowed exactly where the grammar may end.
    fn special_allowed(&mut self, tok: SpecialToken) -> (ok: bool)
        requires
            old(self).wf(),
            old(self).state().well_formed(),
        ensures
            final(self).wf(),
            final(self).state() == old(self).state(),
            tok is EndOfSentence ==> ok == old(self).state().may_end(),
    ;
}

} // verus!

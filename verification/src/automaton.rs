//! A recognizer for regular grammars: a table of byte transitions and a stack
//! of the states passed through since the last commit.

use crate::recognizer::{Recognizer, RecognizerState, SpecialToken};
use vstd::prelude::*;

verus! {

/// A deterministic automaton over bytes. Row `q` of the table gives, for each
/// byte, the state that follows `q`; an entry that names no state means that
/// the byte cannot be read there.
pub struct ByteDfa {
    table: Vec<Vec<usize>>,
    accepting: Vec<bool>,
    start: usize,
}

/// The mathematical automaton behind a `ByteDfa`.
pub struct DfaModel {
    pub table: Seq<Seq<usize>>,
    pub accepting: Seq<bool>,
    pub start: usize,
}

impl DfaModel {
    /// Every state has a row of 256 entries and an accepting flag, and the
    /// start state is a state.
    pub open spec fn well_formed(self) -> bool {
        &&& self.accepting.len() == self.table.len()
        &&& self.start < self.table.len()
        &&& forall|q: int| 0 <= q < self.table.len() ==> (#[trigger] self.table[q]).len() == 256
    }

    /// The state that follows `q` on `byte`, if there is one.
    pub open spec fn step(self, q: int, byte: u8) -> Option<int> {
        if 0 <= q < self.table.len() && self.table[q][byte as int] < self.table.len() {
            Some(self.table[q][byte as int] as int)
        } else {
            None
        }
    }

    /// The state reached from `q` by reading `bytes`, if all of them can be
    /// read.
    pub open spec fn run(self, q: int, bytes: Seq<u8>) -> Option<int>
        decreases bytes.len(),
    {
        if bytes.len() == 0 {
            Some(q)
        } else {
            match self.run(q, bytes.drop_last()) {
                Some(mid) => self.step(mid, bytes.last()),
                None => None,
            }
        }
    }

    /// The byte strings that can be read from `q`.
    pub open spec fn viable_from(self, q: int) -> Set<Seq<u8>> {
        Set::new(|s: Seq<u8>| self.run(q, s) is Some)
    }

    /// The byte strings that lead from `q` to an accepting state.
    pub open spec fn complete_from(self, q: int) -> Set<Seq<u8>> {
        Set::new(
            |s: Seq<u8>|
                match self.run(q, s) {
                    Some(end) => 0 <= end < self.accepting.len() && self.accepting[end],
                    None => false,
                },
        )
    }

    /// Reading `a` and then `b` is reading `a + b`.
    pub proof fn lemma_run_concat(self, q: int, a: Seq<u8>, b: Seq<u8>)
        ensures
            self.run(q, a + b) == match self.run(q, a) {
                Some(mid) => self.run(mid, b),
                None => None,
            },
        decreases b.len(),
    {
        if b.len() == 0 {
            assert(a + b =~= a);
        } else {
            assert((a + b).drop_last() =~= a + b.drop_last());
            self.lemma_run_concat(q, a, b.drop_last());
        }
    }

    /// Where a string can be read, so can each of its prefixes.
    pub proof fn lemma_run_prefix(self, q: int, s: Seq<u8>, k: int)
        requires
            self.run(q, s) is Some,
            0 <= k <= s.len(),
        ensures
            self.run(q, s.take(k)) is Some,
    {
        assert(s.take(k) + s.skip(k) =~= s);
        self.lemma_run_concat(q, s.take(k), s.skip(k));
    }
}

/// The automaton that the given rows, accepting flags and start state
/// describe.
pub open spec fn dfa_model(table: Seq<Vec<usize>>, accepting: Seq<bool>, start: usize) -> DfaModel {
    DfaModel { table: Seq::new(table.len(), |q: int| table[q]@), accepting, start }
}

impl View for ByteDfa {
    type V = DfaModel;

    closed spec fn view(&self) -> DfaModel {
        dfa_model(self.table@, self.accepting@, self.start)
    }
}

impl ByteDfa {
    #[verifier::type_invariant]
    spec fn inv(&self) -> bool {
        self@.well_formed()
    }

    /// The automaton with the given rows, accepting flags and start state, or
    /// `None` where these do not make a well-formed automaton.
    pub fn new(table: Vec<Vec<usize>>, accepting: Vec<bool>, start: usize) -> (r: Option<ByteDfa>)
        ensures
            r is Some <==> dfa_model(table@, accepting@, start).well_formed(),
            r matches Some(dfa) ==> dfa@ == dfa_model(table@, accepting@, start),
    {
        let ghost model = dfa_model(table@, accepting@, start);
        if accepting.len() != table.len() || start >= table.len() {
            return None;
        }
        let mut q: usize = 0;
        while q < table.len()
            invariant
                q <= table.len(),
                model == dfa_model(table@, accepting@, start),
                forall|p: int| 0 <= p < q ==> (#[trigger] table@[p])@.len() == 256,
            decreases table.len() - q,
        {
            if table[q].len() != 256 {
                assert(model.table[q as int].len() != 256);
                return None;
            }
            q += 1;
        }
        assert forall|p: int| 0 <= p < model.table.len() implies (#[trigger] model.table[p]).len()
            == 256 by {
            assert(table@[p]@.len() == 256);
        }
        Some(ByteDfa { table, accepting, start })
    }

    /// The number of states.
    pub fn num_states(&self) -> (n: usize)
        ensures
            n == self@.table.len(),
    {
        self.table.len()
    }

    /// The state that follows `q` on `byte`, if there is one.
    pub fn next_state(&self, q: usize, byte: u8) -> (r: Option<usize>)
        ensures
            self@.well_formed(),
            r == match self@.step(q as int, byte) {
                Some(n) => Some(n as usize),
                None => None,
            },
            r matches Some(n) ==> n < self@.table.len(),
    {
        proof {
            use_type_invariant(self);
        }
        if q >= self.table.len() {
            return None;
        }
        let n = self.table[q][byte as usize];
        if n < self.table.len() {
            Some(n)
        } else {
            None
        }
    }

    /// Whether `q` is an accepting state.
    pub fn is_accepting(&self, q: usize) -> (r: bool)
        ensures
            r == (q < self@.accepting.len() && self@.accepting[q as int]),
    {
        q < self.accepting.len() && self.accepting[q]
    }
}

/// What a recognizer admits that walks `dfa`, has committed at state `base`
/// and has read `pending` since.
pub open spec fn automaton_state(dfa: DfaModel, base: int, pending: Seq<u8>) -> RecognizerState {
    RecognizerState {
        viable: dfa.viable_from(base),
        complete: dfa.complete_from(base),
        pending,
    }
}

/// A recognizer that walks a `ByteDfa` and remembers the states it passed
/// through since the last commit.
pub struct StackRecognizer {
    dfa: ByteDfa,
    stack: Vec<usize>,
    pending: Ghost<Seq<u8>>,
}

impl StackRecognizer {
    /// A recognizer at the start state of `dfa`.
    pub fn new(dfa: ByteDfa) -> (r: StackRecognizer)
        ensures
            r.wf(),
            r.state().well_formed(),
            r.dfa() == dfa@,
            r.base() == dfa@.start,
            r.state() == automaton_state(dfa@, dfa@.start as int, Seq::empty()),
    {
        proof {
            use_type_invariant(&dfa);
        }
        let mut stack = Vec::new();
        stack.push(dfa.start);
        let r = StackRecognizer { dfa, stack, pending: Ghost(Seq::empty()) };
        proof {
            r.lemma_state_well_formed();
        }
        r
    }

    /// A valid recognizer has a well-formed state: what the automaton can
    /// read, it can read every beginning of.
    pub proof fn lemma_state_well_formed(&self)
        requires
            self.wf(),
        ensures
            self.state().well_formed(),
    {
        let dfa = self.dfa@;
        let base = self.stack@[0] as int;
        assert(self.pending@.take(self.pending@.len() as int) =~= self.pending@);
        assert forall|s: Seq<u8>, k: int|
            self.state().viable.contains(s) && 0 <= k <= s.len() implies #[trigger] self.state().viable.contains(
        s.take(k)) by {
            dfa.lemma_run_prefix(base, s, k);
        }
    }

    /// The automaton that the recognizer walks.
    pub closed spec fn dfa(&self) -> DfaModel {
        self.dfa@
    }

    /// The state of the automaton at the committed position.
    pub closed spec fn base(&self) -> int {
        self.stack@[0] as int
    }

    /// The state of the automaton at the current position.
    pub fn current(&self) -> (q: usize)
        requires
            self.wf(),
        ensures
            Some(q as int) == self.dfa().run(self.base(), self.state().pending),
    {
        assert(self.pending@.take(self.pending@.len() as int) =~= self.pending@);
        self.stack[self.stack.len() - 1]
    }
}

impl Recognizer for StackRecognizer {
    closed spec fn state(&self) -> RecognizerState {
        automaton_state(self.dfa@, self.stack@[0] as int, self.pending@)
    }

    closed spec fn wf(&self) -> bool {
        &&& self.dfa@.well_formed()
        &&& self.stack@.len() == self.pending@.len() + 1
        &&& forall|i: int|
            0 <= i < self.stack@.len() ==> self.dfa@.run(
                self.stack@[0] as int,
                #[trigger] self.pending@.take(i),
            ) == Some(self.stack@[i] as int)
    }

    fn try_push_byte(&mut self, byte: u8) -> (ok: bool) {
        let ghost before = self.pending@;
        let top = self.stack[self.stack.len() - 1];
        proof {
            assert(before.take(before.len() as int) =~= before);
            assert((before + seq![byte]).drop_last() =~= before);
        }
        match self.dfa.next_state(top, byte) {
            Some(next) => {
                self.stack.push(next);
                self.pending = Ghost(before.push(byte));
                proof {
                    assert forall|i: int| 0 <= i < self.stack@.len() implies self.dfa@.run(
                        self.stack@[0] as int,
                        #[trigger] self.pending@.take(i),
                    ) == Some(self.stack@[i] as int) by {
                        if i <= before.len() {
                            assert(self.pending@.take(i) =~= before.take(i));
                        } else {
                            assert(self.pending@.take(i) =~= before.push(byte));
                            assert(before.push(byte).drop_last() =~= before);
                        }
                    }
                }
                true
            },
            None => false,
        }
    }

    fn pop_bytes(&mut self, num: usize) {
        let ghost before = self.pending@;
        let keep = self.stack.len() - num;
        self.stack.truncate(keep);
        self.pending = Ghost(before.take(before.len() - num));
        proof {
            assert forall|i: int| 0 <= i < self.stack@.len() implies self.dfa@.run(
                self.stack@[0] as int,
                #[trigger] self.pending@.take(i),
            ) == Some(self.stack@[i] as int) by {
                assert(self.pending@.take(i) =~= before.take(i));
            }
        }
    }

    fn collapse(&mut self) {
        let ghost before = self.pending@;
        let ghost base = self.stack@[0] as int;
        let ghost old_state = self.state();
        let top = self.stack[self.stack.len() - 1];
        let mut stack = Vec::new();
        stack.push(top);
        self.stack = stack;
        self.pending = Ghost(Seq::empty());
        proof {
            let dfa = self.dfa@;
            assert(before.take(before.len() as int) =~= before);
            assert forall|s: Seq<u8>|
                self.state().viable.contains(s) == old_state.collapsed().viable.contains(s) by {
                dfa.lemma_run_concat(base, before, s);
            }
            assert forall|s: Seq<u8>|
                self.state().complete.contains(s) == old_state.collapsed().complete.contains(
                    s,
                ) by {
                dfa.lemma_run_concat(base, before, s);
            }
            assert(self.state().viable =~= old_state.collapsed().viable);
            assert(self.state().complete =~= old_state.collapsed().complete);
        }
    }

    fn special_allowed(&mut self, tok: SpecialToken) -> (ok: bool) {
        proof {
            assert(self.pending@.take(self.pending@.len() as int) =~= self.pending@);
        }
        match tok {
            SpecialToken::EndOfSentence => {
                let top = self.stack[self.stack.len() - 1];
                self.dfa.is_accepting(top)
            },
            _ => false,
        }
    }
}

} // verus!

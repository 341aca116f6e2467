//! The vocabulary: which bytes each token stands for, and which tokens a
//! recognizer admits next.

use crate::recognizer::{Recognizer, RecognizerState, SpecialToken};
use crate::trie::TrieNode;
use vstd::prelude::*;

verus! {

pub type TokenId = u32;

/// A set of tokens of one vocabulary, one flag for each token id.
pub struct TokenSet {
    allowed: Vec<bool>,
}

impl View for TokenSet {
    type V = Seq<bool>;

    closed spec fn view(&self) -> Seq<bool> {
        self.allowed@
    }
}

/// Whether any token of the set is allowed.
pub open spec fn any_allowed(set: Seq<bool>) -> bool {
    exists|t: int| 0 <= t < set.len() && #[trigger] set[t]
}

impl TokenSet {
    /// The empty set over a vocabulary of `size` tokens.
    pub fn new(size: usize) -> (r: TokenSet)
        ensures
            r@ == Seq::new(size as nat, |t: int| false),
    {
        let mut allowed: Vec<bool> = Vec::new();
        let mut t: usize = 0;
        while t < size
            invariant
                t <= size,
                allowed@ == Seq::new(t as nat, |t: int| false),
            decreases size - t,
        {
            allowed.push(false);
            t += 1;
        }
        TokenSet { allowed }
    }

    /// The size of the vocabulary that the set ranges over.
    pub fn len(&self) -> (n: usize)
        ensures
            n == self@.len(),
    {
        self.allowed.len()
    }

    /// Puts `tok` into the set. A token outside the vocabulary changes nothing.
    pub fn allow_token(&mut self, tok: TokenId)
        ensures
            final(self)@ == if (tok as int) < old(self)@.len() {
                old(self)@.update(tok as int, true)
            } else {
                old(self)@
            },
    {
        if (tok as usize) < self.allowed.len() {
            self.allowed[tok as usize] = true;
        }
    }

    /// Takes `tok` out of the set. A token outside the vocabulary changes
    /// nothing.
    pub fn disallow_token(&mut self, tok: TokenId)
        ensures
            final(self)@ == if (tok as int) < old(self)@.len() {
                old(self)@.update(tok as int, false)
            } else {
                old(self)@
            },
    {
        if (tok as usize) < self.allowed.len() {
            self.allowed[tok as usize] = false;
        }
    }

    /// Whether `tok` is in the set.
    pub fn is_allowed(&self, tok: TokenId) -> (r: bool)
        ensures
            r == ((tok as int) < self@.len() && self@[tok as int]),
    {
        (tok as usize) < self.allowed.len() && self.allowed[tok as usize]
    }

    /// Whether no token is in the set.
    pub fn is_empty(&self) -> (r: bool)
        ensures
            r == !any_allowed(self@),
    {
        let mut t: usize = 0;
        while t < self.allowed.len()
            invariant
                t <= self.allowed@.len(),
                forall|u: int| 0 <= u < t ==> !self.allowed@[u],
            decreases self.allowed@.len() - t,
        {
            if self.allowed[t] {
                return false;
            }
            t += 1;
        }
        true
    }
}

/// The vocabulary of a tokenizer: the bytes of each token, by token id, the
/// id of the token that ends a text, and a trie that finds the tokens by
/// their bytes.
pub struct TokTrie {
    tok_eos: TokenId,
    words: Vec<Vec<u8>>,
    root: TrieNode,
}

/// The mathematical vocabulary behind a `TokTrie`.
pub struct Vocabulary {
    pub tok_eos: TokenId,
    pub words: Seq<Seq<u8>>,
}

impl Vocabulary {
    /// Token ids fit in 32 bits, and the end token is one of the vocabulary.
    pub open spec fn well_formed(self) -> bool {
        &&& self.words.len() <= u32::MAX
        &&& self.tok_eos < self.words.len()
    }

    /// Whether `tok` may come next: the end token where the text may end, any
    /// other token of the vocabulary where its bytes can be read.
    pub open spec fn token_valid(self, state: RecognizerState, tok: TokenId) -> bool {
        if tok == self.tok_eos {
            state.may_end()
        } else {
            tok < self.words.len() && state.allows(self.words[tok as int])
        }
    }

    /// The state after `tok` was accepted: the end token leaves the
    /// recognizer where it stands, any other token is read and committed.
    pub open spec fn advance(self, state: RecognizerState, tok: TokenId) -> RecognizerState {
        if tok == self.tok_eos || tok >= self.words.len() {
            state
        } else {
            state.advanced(self.words[tok as int])
        }
    }

    /// The flags of the tokens that may come next, over the whole vocabulary.
    pub open spec fn valid_tokens(self, state: RecognizerState) -> Seq<bool> {
        Seq::new(self.words.len(), |t: int| self.token_valid(state, t as TokenId))
    }
}

/// The vocabulary that the given end token and token bytes describe.
pub open spec fn vocabulary(tok_eos: TokenId, words: Seq<Vec<u8>>) -> Vocabulary {
    Vocabulary { tok_eos, words: Seq::new(words.len(), |t: int| words[t]@) }
}

/// Reads `bytes` one by one, and takes back what was read where one of them
/// cannot be read.
fn try_push_bytes<R: Recognizer>(r: &mut R, bytes: &Vec<u8>) -> (ok: bool)
    requires
        old(r).wf(),
        old(r).state().well_formed(),
    ensures
        final(r).wf(),
        final(r).state().well_formed(),
        ok == old(r).state().allows(bytes@),
        final(r).state() == if ok {
            RecognizerState { pending: old(r).state().pending + bytes@, ..old(r).state() }
        } else {
            old(r).state()
        },
{
    let ghost start = r.state();
    proof {
        assert(start.pending + bytes@.take(0) =~= start.pending);
    }
    let mut i: usize = 0;
    while i < bytes.len()
        invariant
            i <= bytes@.len(),
            r.wf(),
            start == old(r).state(),
            start.well_formed(),
            r.state().well_formed(),
            r.state() == (RecognizerState { pending: start.pending + bytes@.take(i as int), ..start }),
        decreases bytes@.len() - i,
    {
        let ghost before = r.state();
        let pushed = r.try_push_byte(bytes[i]);
        proof {
            assert(before.pending + seq![bytes@[i as int]] =~= start.pending + bytes@.take(i + 1));
            assert(before.pending.push(bytes@[i as int]) =~= start.pending + bytes@.take(i + 1));
        }
        if !pushed {
            proof {
                let whole = start.pending + bytes@;
                let k = start.pending.len() + i + 1;
                assert(whole.take(k) =~= start.pending + bytes@.take(i + 1));
                if start.viable.contains(whole) {
                    assert(start.viable.contains(whole.take(k)));
                }
                assert(before.pending.take(before.pending.len() - i) =~= start.pending);
            }
            r.pop_bytes(i);
            return false;
        }
        i += 1;
    }
    proof {
        assert(bytes@.take(bytes@.len() as int) =~= bytes@);
    }
    true
}

impl View for TokTrie {
    type V = Vocabulary;

    closed spec fn view(&self) -> Vocabulary {
        vocabulary(self.tok_eos, self.words@)
    }
}

impl TokTrie {
    #[verifier::type_invariant]
    spec fn inv(&self) -> bool {
        &&& self@.well_formed()
        &&& self.root.sound(Seq::empty(), self@.words, self.tok_eos)
        &&& forall|t: int|
            0 <= t < self@.words.len() && t != self.tok_eos ==> self.root.holds(
                #[trigger] self@.words[t],
                0,
                t as TokenId,
            )
    }

    /// The vocabulary with the given end token and token bytes, or `None`
    /// where the end token is not among them or the ids do not fit in 32 bits.
    pub fn from(tok_eos: TokenId, words: Vec<Vec<u8>>) -> (r: Option<TokTrie>)
        ensures
            r is Some <==> vocabulary(tok_eos, words@).well_formed(),
            r matches Some(trie) ==> trie@ == vocabulary(tok_eos, words@),
    {
        if words.len() > u32::MAX as usize || tok_eos as usize >= words.len() {
            return None;
        }
        let ghost bytes = vocabulary(tok_eos, words@).words;
        let mut root = TrieNode::leaf(0);
        let mut t: usize = 0;
        while t < words.len()
            invariant
                t <= words@.len() <= u32::MAX,
                bytes == vocabulary(tok_eos, words@).words,
                root.sound(Seq::empty(), bytes, tok_eos),
                forall|u: int|
                    0 <= u < t && u != tok_eos ==> root.holds(#[trigger] bytes[u], 0, u as TokenId),
            decreases words@.len() - t,
        {
            if t != tok_eos as usize {
                let word = &words[t];
                let ghost before = root;
                proof {
                    assert(word@.take(0) =~= Seq::<u8>::empty());
                }
                root.insert(word, 0, t as TokenId, Ghost(bytes), Ghost(tok_eos));
                proof {
                    assert forall|u: int| 0 <= u < t + 1 && u != tok_eos implies root.holds(
                        #[trigger] bytes[u],
                        0,
                        u as TokenId,
                    ) by {
                        if u < t {
                            assert(before.holds(bytes[u], 0, u as TokenId));
                        }
                    }
                }
            }
            t += 1;
        }
        Some(TokTrie { tok_eos, words, root })
    }

    /// The number of tokens.
    pub fn vocab_size(&self) -> (n: usize)
        ensures
            n == self@.words.len(),
            self@.well_formed(),
    {
        proof {
            use_type_invariant(self);
        }
        self.words.len()
    }

    /// The id of the token that ends a text.
    pub fn eos_token(&self) -> (tok: TokenId)
        ensures
            tok == self@.tok_eos,
    {
        self.tok_eos
    }

    /// The bytes of token `idx`; none for an id outside the vocabulary.
    pub fn token(&self, idx: TokenId) -> (bytes: &[u8])
        ensures
            bytes@ == if (idx as int) < self@.words.len() {
                self@.words[idx as int]
            } else {
                Seq::<u8>::empty()
            },
    {
        if (idx as usize) < self.words.len() {
            self.words[idx as usize].as_slice()
        } else {
            &[]
        }
    }

    /// An empty token set over this vocabulary.
    pub fn alloc_token_set(&self) -> (r: TokenSet)
        ensures
            r@ == Seq::new(self@.words.len(), |t: int| false),
    {
        TokenSet::new(self.words.len())
    }

    /// Whether `tok` may come next. The recognizer is left as it was.
    pub fn token_allowed<R: Recognizer>(&self, r: &mut R, tok: TokenId) -> (ok: bool)
        requires
            old(r).wf(),
            old(r).state().well_formed(),
        ensures
            final(r).wf(),
            final(r).state() == old(r).state(),
            ok == self@.token_valid(old(r).state(), tok),
    {
        if tok == self.tok_eos {
            return r.special_allowed(SpecialToken::EndOfSentence);
        }
        if tok as usize >= self.words.len() {
            return false;
        }
        let ghost start = r.state();
        let bytes = &self.words[tok as usize];
        let ok = try_push_bytes(r, bytes);
        if ok {
            r.pop_bytes(bytes.len());
            proof {
                assert((start.pending + bytes@).take(start.pending.len() as int)
                    =~= start.pending);
            }
        }
        ok
    }

    /// Fills `set` with the tokens that may come next, over the whole
    /// vocabulary. The recognizer is left as it was.
    pub fn compute_bias<R: Recognizer>(&self, r: &mut R, set: &mut TokenSet)
        requires
            old(r).wf(),
            old(r).state().well_formed(),
        ensures
            final(r).wf(),
            final(r).state() == old(r).state(),
            final(set)@ == self@.valid_tokens(old(r).state()),
    {
        proof {
            use_type_invariant(self);
        }
        let ghost start = r.state();
        let ghost bytes = self@.words;
        let mut allowed: Vec<bool> = Vec::new();
        let mut t: usize = 0;
        while t < self.words.len()
            invariant
                t <= self.words@.len(),
                allowed@.len() == t,
                forall|u: int| 0 <= u < t ==> !allowed@[u],
            decreases self.words@.len() - t,
        {
            allowed.push(false);
            t += 1;
        }
        proof {
            assert(start.pending + Seq::<u8>::empty() =~= start.pending);
        }
        self.root.walk(
            r,
            &mut allowed,
            Ghost(Seq::empty()),
            Ghost(bytes),
            Ghost(self.tok_eos),
            Ghost(start),
        );
        let ends = r.special_allowed(SpecialToken::EndOfSentence);
        allowed[self.tok_eos as usize] = ends;
        proof {
            assert forall|u: int| 0 <= u < bytes.len() implies allowed@[u] == self@.token_valid(
                start,
                u as TokenId,
            ) by {
                if u != self.tok_eos {
                    assert(bytes[u].take(0) =~= Seq::<u8>::empty());
                }
            }
        }
        set.allowed = allowed;
    }

    /// Accepts `tok` if it may come next, and says whether it did. A token
    /// that may not come next leaves the recognizer as it was.
    pub fn append_token<R: Recognizer>(&self, r: &mut R, tok: TokenId) -> (ok: bool)
        requires
            old(r).wf(),
            old(r).state().well_formed(),
        ensures
            final(r).wf(),
            final(r).state().well_formed(),
            ok == self@.token_valid(old(r).state(), tok),
            final(r).state() == if ok {
                self@.advance(old(r).state(), tok)
            } else {
                old(r).state()
            },
    {
        if tok == self.tok_eos {
            return r.special_allowed(SpecialToken::EndOfSentence);
        }
        if tok as usize >= self.words.len() {
            return false;
        }
        let bytes = &self.words[tok as usize];
        let ok = try_push_bytes(r, bytes);
        if ok {
            proof {
                crate::recognizer::lemma_collapsed_well_formed(r.state());
            }
            r.collapse();
        }
        ok
    }
}

} // verus!

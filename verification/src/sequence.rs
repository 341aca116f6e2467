//! A sequence under generation: its tokens and the recognizer that
//! constrains what may follow them.

use crate::automaton::StackRecognizer;
use crate::recognizer::{Recognizer, RecognizerState};
use crate::sampler::SamplingParams;
use crate::toktree::{TokTrie, TokenId, TokenSet, Vocabulary};
use vstd::prelude::*;

verus! {

/// The grammar constraint of a sequence: a regular grammar, a grammar
/// recognized by `C`, or none.
pub enum SequenceRecognizer<C> {
    Regex(StackRecognizer),
    Cfg(C),
    Unconstrained,
}

impl<C: Recognizer> SequenceRecognizer<C> {
    /// The state of the recognizer; `None` where there is no constraint.
    pub open spec fn state(&self) -> Option<RecognizerState> {
        match self {
            SequenceRecognizer::Regex(rx) => Some(rx.state()),
            SequenceRecognizer::Cfg(cfg) => Some(cfg.state()),
            SequenceRecognizer::Unconstrained => None,
        }
    }

    /// The recognizer's own invariant, and that its state is well formed.
    pub open spec fn wf(&self) -> bool {
        match self {
            SequenceRecognizer::Regex(rx) => rx.wf() && rx.state().well_formed(),
            SequenceRecognizer::Cfg(cfg) => cfg.wf() && cfg.state().well_formed(),
            SequenceRecognizer::Unconstrained => true,
        }
    }

    /// Whether the sequence is under no constraint.
    pub fn is_none(&self) -> (r: bool)
        ensures
            r == (self.state() is None),
    {
        match self {
            SequenceRecognizer::Unconstrained => true,
            _ => false,
        }
    }

    /// Whether `tok` may come next; every token may where there is no
    /// constraint. The recognizer is left as it was.
    pub fn token_allowed(&mut self, tok_trie: &TokTrie, tok: TokenId) -> (ok: bool)
        requires
            old(self).wf(),
        ensures
            final(self).wf(),
            final(self).state() == old(self).state(),
            ok == token_valid(tok_trie@, old(self).state(), tok),
    {
        match self {
            SequenceRecognizer::Regex(rx) => tok_trie.token_allowed(rx, tok),
            SequenceRecognizer::Cfg(cfg) => tok_trie.token_allowed(cfg, tok),
            SequenceRecognizer::Unconstrained => true,
        }
    }

    /// The tokens that may come next, over the whole vocabulary; `None`
    /// where there is no constraint. The recognizer is left as it was.
    pub fn valid_tokens(&mut self, tok_trie: &TokTrie) -> (r: Option<TokenSet>)
        requires
            old(self).wf(),
        ensures
            final(self).wf(),
            final(self).state() == old(self).state(),
            match (r, old(self).state()) {
                (Some(set), Some(state)) => set@ == tok_trie@.valid_tokens(state),
                (None, None) => true,
                _ => false,
            },
    {
        match self {
            SequenceRecognizer::Regex(rx) => {
                let mut set = tok_trie.alloc_token_set();
                tok_trie.compute_bias(rx, &mut set);
                Some(set)
            },
            SequenceRecognizer::Cfg(cfg) => {
                let mut set = tok_trie.alloc_token_set();
                tok_trie.compute_bias(cfg, &mut set);
                Some(set)
            },
            SequenceRecognizer::Unconstrained => None,
        }
    }

    /// Accepts `tok` if it may come next, and says whether it did. Where
    /// there is no constraint every token is accepted and nothing changes.
    pub fn append_token(&mut self, tok_trie: &TokTrie, tok: TokenId) -> (ok: bool)
        requires
            old(self).wf(),
        ensures
            final(self).wf(),
            ok == token_valid(tok_trie@, old(self).state(), tok),
            final(self).state() == if ok {
                advance(tok_trie@, old(self).state(), tok)
            } else {
                old(self).state()
            },
    {
        match self {
            SequenceRecognizer::Regex(rx) => tok_trie.append_token(rx, tok),
            SequenceRecognizer::Cfg(cfg) => tok_trie.append_token(cfg, tok),
            SequenceRecognizer::Unconstrained => true,
        }
    }
}

/// Whether `tok` may come next under an optional constraint.
pub open spec fn token_valid(vocab: Vocabulary, state: Option<RecognizerState>, tok: TokenId) -> bool {
    match state {
        Some(s) => vocab.token_valid(s, tok),
        None => true,
    }
}

/// The optional constraint after `tok` was accepted.
pub open spec fn advance(vocab: Vocabulary, state: Option<RecognizerState>, tok: TokenId) -> Option<
    RecognizerState,
> {
    match state {
        Some(s) => Some(vocab.advance(s, tok)),
        None => None,
    }
}

/// The optional constraint after the tokens `toks` were accepted in order.
pub open spec fn advance_all(vocab: Vocabulary, state: Option<RecognizerState>, toks: Seq<TokenId>) -> Option<
    RecognizerState,
>
    decreases toks.len(),
{
    if toks.len() == 0 {
        state
    } else {
        advance(vocab, advance_all(vocab, state, toks.drop_last()), toks.last())
    }
}

/// The last `repeat_last_n` tokens of `toks`, or all of them where there are
/// fewer.
pub open spec fn repeat_context(toks: Seq<u32>, repeat_last_n: usize) -> Seq<u32> {
    if toks.len() <= repeat_last_n {
        toks
    } else {
        toks.skip(toks.len() - repeat_last_n)
    }
}

/// A sequence of tokens with its grammar constraint and the way its tokens
/// are drawn.
pub struct Sequence<C> {
    tokens: Vec<u32>,
    recognizer: SequenceRecognizer<C>,
    sampler: SamplingParams,
}

impl<C: Recognizer> Sequence<C> {
    /// The tokens of the sequence.
    pub closed spec fn tokens(&self) -> Seq<u32> {
        self.tokens@
    }

    /// The state of the grammar constraint, if there is one.
    pub closed spec fn recognizer(&self) -> Option<RecognizerState> {
        self.recognizer.state()
    }

    /// How the tokens of the sequence are drawn.
    pub closed spec fn sampling(&self) -> SamplingParams {
        self.sampler
    }

    /// The sequence's invariant: that of its recognizer.
    pub closed spec fn wf(&self) -> bool {
        self.recognizer.wf()
    }

    /// A sequence of the given tokens under the given constraint.
    pub fn new(tokens: Vec<u32>, recognizer: SequenceRecognizer<C>, sampler: SamplingParams) -> (r:
        Self)
        requires
            recognizer.wf(),
        ensures
            r.wf(),
            r.tokens() == tokens@,
            r.recognizer() == recognizer.state(),
            r.sampling() == sampler,
    {
        Sequence { tokens, recognizer, sampler }
    }

    /// How the tokens of the sequence are drawn.
    pub fn sampler(&self) -> (r: SamplingParams)
        ensures
            r == self.sampling(),
    {
        self.sampler
    }

    /// The tokens of the sequence.
    pub fn get_toks(&self) -> (toks: &[u32])
        ensures
            toks@ == self.tokens(),
    {
        self.tokens.as_slice()
    }

    /// The number of tokens.
    pub fn len(&self) -> (n: usize)
        ensures
            n == self.tokens().len(),
    {
        self.tokens.len()
    }

    /// Appends an accepted token. The recognizer is not touched: the decode
    /// step has advanced it already.
    pub fn add_token(&mut self, tok: u32)
        ensures
            final(self).tokens() == old(self).tokens().push(tok),
            final(self).recognizer() == old(self).recognizer(),
            final(self).sampling() == old(self).sampling(),
            final(self).wf() == old(self).wf(),
    {
        self.tokens.push(tok);
    }

    /// The tokens that the sampler sees as context for its penalties: the
    /// last `repeat_last_n` of the sequence.
    pub fn repeat_window(&self, repeat_last_n: usize) -> (ctx: Vec<u32>)
        ensures
            ctx@ == repeat_context(self.tokens(), repeat_last_n),
    {
        let start_at = self.tokens.len().saturating_sub(repeat_last_n);
        let mut ctx: Vec<u32> = Vec::new();
        let mut i: usize = start_at;
        while i < self.tokens.len()
            invariant
                start_at <= i <= self.tokens@.len(),
                ctx@ == self.tokens@.subrange(start_at as int, i as int),
            decreases self.tokens@.len() - i,
        {
            ctx.push(self.tokens[i]);
            i += 1;
        }
        ctx
    }

    /// Whether the sequence is under no grammar constraint.
    pub fn is_unconstrained(&self) -> (r: bool)
        ensures
            r == (self.recognizer() is None),
    {
        self.recognizer.is_none()
    }

    /// Whether `tok` may come next. The sequence is left as it was.
    pub fn token_allowed(&mut self, tok_trie: &TokTrie, tok: TokenId) -> (ok: bool)
        requires
            old(self).wf(),
        ensures
            final(self).wf(),
            final(self).tokens() == old(self).tokens(),
            final(self).sampling() == old(self).sampling(),
            final(self).recognizer() == old(self).recognizer(),
            ok == token_valid(tok_trie@, old(self).recognizer(), tok),
    {
        self.recognizer.token_allowed(tok_trie, tok)
    }

    /// The tokens that may come next; `None` where there is no constraint.
    /// The sequence is left as it was.
    pub fn valid_tokens(&mut self, tok_trie: &TokTrie) -> (r: Option<TokenSet>)
        requires
            old(self).wf(),
        ensures
            final(self).wf(),
            final(self).tokens() == old(self).tokens(),
            final(self).sampling() == old(self).sampling(),
            final(self).recognizer() == old(self).recognizer(),
            match (r, old(self).recognizer()) {
                (Some(set), Some(state)) => set@ == tok_trie@.valid_tokens(state),
                (None, None) => true,
                _ => false,
            },
    {
        self.recognizer.valid_tokens(tok_trie)
    }

    /// Advances the recognizer by `tok` if it may come next, and says whether
    /// it did. The tokens of the sequence are not touched.
    pub fn advance_recognizer(&mut self, tok_trie: &TokTrie, tok: TokenId) -> (ok: bool)
        requires
            old(self).wf(),
        ensures
            final(self).wf(),
            final(self).tokens() == old(self).tokens(),
            final(self).sampling() == old(self).sampling(),
            ok == token_valid(tok_trie@, old(self).recognizer(), tok),
            final(self).recognizer() == if ok {
                advance(tok_trie@, old(self).recognizer(), tok)
            } else {
                old(self).recognizer()
            },
    {
        self.recognizer.append_token(tok_trie, tok)
    }
}

} // verus!

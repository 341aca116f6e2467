//! A trie over the bytes of the tokens of a vocabulary. Tokens that begin
//! alike share the nodes of their common beginning, so a recognizer that
//! refuses a beginning is asked about it once for all of them.

use crate::recognizer::{Recognizer, RecognizerState};
use crate::toktree::TokenId;
use vstd::prelude::*;

verus! {

/// A node of the trie: the byte that leads to it, the tokens whose bytes end
/// at it, and the nodes that continue it.
pub(crate) struct TrieNode {
    pub(crate) byte: u8,
    pub(crate) tokens: Vec<TokenId>,
    pub(crate) children: Vec<TrieNode>,
}

/// Whether `word` begins with `path`.
pub(crate) open spec fn begins_with(word: Seq<u8>, path: Seq<u8>) -> bool {
    path.len() <= word.len() && word.take(path.len() as int) == path
}

impl TrieNode {
    /// Every token at a node of this subtree is a token of `words` other
    /// than `skip`, and its bytes are the path to that node.
    pub(crate) open spec fn sound(&self, path: Seq<u8>, words: Seq<Seq<u8>>, skip: TokenId) -> bool
        decreases self,
    {
        &&& forall|k: int|
            0 <= k < self.tokens@.len() ==> {
                &&& (#[trigger] self.tokens@[k]) != skip
                &&& self.tokens@[k] < words.len()
                &&& words[self.tokens@[k] as int] == path
            }
        &&& forall|i: int|
            0 <= i < self.children@.len() ==> (#[trigger] self.children@[i]).sound(
                path.push(self.children@[i].byte),
                words,
                skip,
            )
    }

    /// Token `t` is found by following `word` from its byte `depth` on,
    /// starting at this node.
    pub(crate) open spec fn holds(&self, word: Seq<u8>, depth: int, t: TokenId) -> bool
        decreases self,
    {
        if depth >= word.len() {
            self.tokens@.contains(t)
        } else {
            exists|i: int|
                0 <= i < self.children@.len() && self.children@[i].byte == word[depth] && (
                #[trigger] self.children@[i]).holds(word, depth + 1, t)
        }
    }

    /// A node without tokens and without children.
    pub(crate) fn leaf(byte: u8) -> (r: TrieNode)
        ensures
            r.byte == byte,
            r.tokens@.len() == 0,
            r.children@.len() == 0,
    {
        TrieNode { byte, tokens: Vec::new(), children: Vec::new() }
    }

    /// Flags in `allowed` the tokens of this subtree that the recognizer can
    /// read. The recognizer stands at this node: it has read the path to it.
    pub(crate) fn walk<R: Recognizer>(
        &self,
        r: &mut R,
        allowed: &mut Vec<bool>,
        Ghost(path): Ghost<Seq<u8>>,
        Ghost(words): Ghost<Seq<Seq<u8>>>,
        Ghost(skip): Ghost<TokenId>,
        Ghost(start): Ghost<RecognizerState>,
    )
        requires
            old(r).wf(),
            old(r).state().well_formed(),
            self.sound(path, words, skip),
            words.len() <= u32::MAX,
            old(allowed)@.len() == words.len(),
            start.well_formed(),
            old(r).state() == (RecognizerState { pending: start.pending + path, ..start }),
        ensures
            final(r).wf(),
            final(r).state() == old(r).state(),
            final(allowed)@.len() == words.len(),
            forall|t: int|
                0 <= t < words.len() ==> #[trigger] final(allowed)@[t] == (old(allowed)@[t] || (
                self.holds(words[t], path.len() as int, t as TokenId) && begins_with(
                    words[t],
                    path,
                ) && start.allows(words[t]))),
        decreases self,
    {
        let ghost here = r.state();
        let ghost before = allowed@;
        let ghost depth = path.len() as int;
        let mut k: usize = 0;
        while k < self.tokens.len()
            invariant
                k <= self.tokens@.len(),
                self.sound(path, words, skip),
                words.len() <= u32::MAX,
                before.len() == words.len(),
                allowed@.len() == words.len(),
                forall|t: int|
                    0 <= t < words.len() ==> #[trigger] allowed@[t] == (before[t] || exists|j: int|
                        0 <= j < k && self.tokens@[j] == t),
            decreases self.tokens@.len() - k,
        {
            let t = self.tokens[k];
            let ghost prior = allowed@;
            allowed[t as usize] = true;
            proof {
                assert forall|u: int| 0 <= u < words.len() implies #[trigger] allowed@[u] == (
                before[u] || exists|j: int| 0 <= j < k + 1 && self.tokens@[j] == u) by {
                    if u == t {
                        assert(self.tokens@[k as int] == u);
                    } else if prior[u] && !before[u] {
                        let j = choose|j: int| 0 <= j < k && self.tokens@[j] == u;
                        assert(0 <= j < k + 1 && self.tokens@[j] == u);
                    }
                }
            }
            k += 1;
        }
        let ghost after_tokens = allowed@;
        let mut i: usize = 0;
        while i < self.children.len()
            invariant
                i <= self.children@.len(),
                self.sound(path, words, skip),
                start.well_formed(),
                here == (RecognizerState { pending: start.pending + path, ..start }),
                here.well_formed(),
                depth == path.len(),
                r.wf(),
                r.state() == here,
                words.len() <= u32::MAX,
                after_tokens.len() == words.len(),
                allowed@.len() == words.len(),
                forall|t: int|
                    0 <= t < words.len() ==> #[trigger] allowed@[t] == (after_tokens[t] || (
                    start.allows(words[t]) && begins_with(words[t], path) && depth
                        < words[t].len() && exists|j: int|
                        0 <= j < i && self.children@[j].byte == words[t][depth] && (
                        #[trigger] self.children@[j]).holds(words[t], depth + 1, t as TokenId))),
            decreases self.children@.len() - i,
        {
            let child = &self.children[i];
            let ghost prior = allowed@;
            let ghost longer = path.push(child.byte);
            proof {
                assert(here.pending + seq![child.byte] =~= start.pending + longer);
            }
            let pushed = r.try_push_byte(child.byte);
            if pushed {
                child.walk(r, allowed, Ghost(longer), Ghost(words), Ghost(skip), Ghost(start));
                r.pop_bytes(1);
                proof {
                    assert((start.pending + longer).take((start.pending + longer).len() - 1)
                        =~= start.pending + path);
                }
            }
            proof {
                assert forall|t: int| 0 <= t < words.len() implies #[trigger] allowed@[t] == (
                after_tokens[t] || (start.allows(words[t]) && begins_with(words[t], path)
                    && depth < words[t].len() && exists|j: int|
                    0 <= j < i + 1 && self.children@[j].byte == words[t][depth] && (
                    #[trigger] self.children@[j]).holds(words[t], depth + 1, t as TokenId))) by {
                    let w = words[t];
                    let below = child.holds(w, depth + 1, t as TokenId) && begins_with(w, longer);
                    if below {
                        assert(w.take(depth) =~= w.take(depth + 1).take(depth));
                        assert(longer.take(depth) =~= path);
                        assert(w[depth] == w.take(depth + 1)[depth]);
                        if !pushed && start.viable.contains(start.pending + w) {
                            let whole = start.pending + w;
                            let upto = start.pending.len() + depth + 1;
                            assert(whole.take(upto) =~= start.pending + longer);
                        }
                    }
                    if depth < w.len() && begins_with(w, path) && child.byte == w[depth] {
                        assert(w.take(depth + 1) =~= longer);
                    }
                    if prior[t] && !after_tokens[t] {
                        let j = choose|j: int|
                            0 <= j < i && self.children@[j].byte == w[depth] && (
                            #[trigger] self.children@[j]).holds(w, depth + 1, t as TokenId);
                        assert(0 <= j < i + 1);
                    }
                }
            }
            i += 1;
        }
        proof {
            assert forall|t: int| 0 <= t < words.len() implies #[trigger] allowed@[t] == (before[t]
                || (self.holds(words[t], depth, t as TokenId) && begins_with(words[t], path)
                && start.allows(words[t]))) by {
                let w = words[t];
                if exists|j: int| 0 <= j < self.tokens@.len() && self.tokens@[j] == t {
                    let j = choose|j: int| 0 <= j < self.tokens@.len() && self.tokens@[j] == t;
                    assert(self.tokens@[j] == t as TokenId);
                    assert(w == path);
                    assert(w.take(depth) =~= path);
                    assert(start.pending + w =~= here.pending);
                }
                if self.holds(w, depth, t as TokenId) && begins_with(w, path) && depth
                    >= w.len() {
                    let j = choose|j: int|
                        0 <= j < self.tokens@.len() && self.tokens@[j] == t as TokenId;
                    assert(self.tokens@[j] == t);
                }
            }
        }
    }

    /// Adds token `t`, whose bytes are `word`, below this node, which is
    /// reached by the first `depth` bytes of `word`.
    pub(crate) fn insert(
        &mut self,
        word: &Vec<u8>,
        depth: usize,
        t: TokenId,
        Ghost(words): Ghost<Seq<Seq<u8>>>,
        Ghost(skip): Ghost<TokenId>,
    )
        requires
            depth <= word@.len(),
            t != skip,
            t < words.len(),
            words[t as int] == word@,
            old(self).sound(word@.take(depth as int), words, skip),
        ensures
            final(self).byte == old(self).byte,
            final(self).sound(word@.take(depth as int), words, skip),
            final(self).holds(word@, depth as int, t),
            forall|w: Seq<u8>, d: int, u: TokenId|
                old(self).holds(w, d, u) ==> #[trigger] final(self).holds(w, d, u),
        decreases word@.len() - depth,
    {
        let ghost path = word@.take(depth as int);
        let ghost before = *self;
        if depth == word.len() {
            self.tokens.push(t);
            proof {
                assert(word@.take(depth as int) =~= word@);
                assert(self.tokens@[self.tokens@.len() - 1] == t);
                assert forall|w: Seq<u8>, d: int, u: TokenId| before.holds(w, d, u) implies #[trigger]
                self.holds(w, d, u) by {
                    if d >= w.len() {
                        let j = choose|j: int| 0 <= j < before.tokens@.len() && before.tokens@[j] == u;
                        assert(self.tokens@[j] == u);
                    } else {
                        let i = choose|i: int|
                            0 <= i < before.children@.len() && before.children@[i].byte == w[d] && (
                            #[trigger] before.children@[i]).holds(w, d + 1, u);
                        assert(self.children@[i].holds(w, d + 1, u));
                    }
                }
            }
            return ;
        }
        let byte = word[depth];
        let mut at: usize = 0;
        while at < self.children.len() && self.children[at].byte != byte
            invariant
                at <= self.children@.len(),
                *self == before,
            decreases self.children@.len() - at,
        {
            at += 1;
        }
        if at == self.children.len() {
            self.children.push(TrieNode::leaf(byte));
        }
        let ghost grown = *self;
        proof {
            assert(path.push(byte) =~= word@.take(depth + 1));
        }
        self.children[at].insert(word, depth + 1, t, Ghost(words), Ghost(skip));
        proof {
            assert forall|i: int| 0 <= i < self.children@.len() implies (
            #[trigger] self.children@[i]).sound(path.push(self.children@[i].byte), words, skip) by {
                if i != at && i < before.children@.len() {
                    assert(grown.children@[i] == before.children@[i]);
                }
            }
            assert forall|w: Seq<u8>, d: int, u: TokenId| before.holds(w, d, u) implies #[trigger]
            self.holds(w, d, u) by {
                if d < w.len() {
                    let i = choose|i: int|
                        0 <= i < before.children@.len() && before.children@[i].byte == w[d] && (
                        #[trigger] before.children@[i]).holds(w, d + 1, u);
                    assert(grown.children@[i] == before.children@[i]);
                    assert(self.children@[i].holds(w, d + 1, u));
                }
            }
        }
    }
}

} // verus!

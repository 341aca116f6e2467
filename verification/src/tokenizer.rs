//! The tokenizer as this crate sees it: a vocabulary that maps tokens to ids
//! and ids to tokens. From it come the ids of the tokens that end a text and
//! the bytes of every token.

use crate::toktree::{vocabulary, TokTrie, TokenId, Vocabulary};
use tokenizers::Tokenizer;
use vstd::prelude::*;
use vstd::slice::slice_to_vec;
use vstd::utf8::encode_utf8;

verus! {

/// `tokenizers::Tokenizer`, carried through without a look inside.
#[verifier::external_type_specification]
#[verifier::external_body]
pub struct ExTokenizer(Tokenizer);

/// The id of each token that the tokenizer knows, added tokens included.
pub uninterp spec fn tokenizer_ids(t: Tokenizer) -> Map<Seq<char>, u32>;

/// The token of each id that the tokenizer knows, added tokens included.
pub uninterp spec fn tokenizer_tokens(t: Tokenizer) -> Map<u32, Seq<char>>;

/// The size of the tokenizer's vocabulary, with the added tokens counted or
/// without them.
pub uninterp spec fn tokenizer_vocab_size(t: Tokenizer, with_added_tokens: bool) -> usize;

/// The id that `vocab` has for `token`, if it has one.
pub open spec fn lookup(vocab: Map<Seq<char>, u32>, token: Seq<char>) -> Option<u32> {
    if vocab.contains_key(token) {
        Some(vocab[token])
    } else {
        None
    }
}

/// The bytes of the token that `tokens` has for `id`: its text in UTF-8, and
/// nothing where there is no such token.
pub open spec fn token_bytes(tokens: Map<u32, Seq<char>>, id: u32) -> Seq<u8> {
    if tokens.contains_key(id) {
        encode_utf8(tokens[id])
    } else {
        Seq::empty()
    }
}

/// `Tokenizer::token_to_id`: the id of `token`, among the added tokens first
/// and then in the model's vocabulary; `None` where neither has it.
#[verifier::external_body]
pub(crate) fn token_to_id(tokenizer: &Tokenizer, token: &str) -> (r: Option<u32>)
    ensures
        r == lookup(tokenizer_ids(*tokenizer), token@),
{
    tokenizer.token_to_id(token)
}

/// `Tokenizer::id_to_token`: the token of `id`, among the added tokens first
/// and then in the model's vocabulary; `None` where neither has it.
#[verifier::external_body]
pub(crate) fn id_to_token(tokenizer: &Tokenizer, id: u32) -> (r: Option<String>)
    ensures
        match r {
            Some(token) => tokenizer_tokens(*tokenizer).contains_key(id) && token@
                == tokenizer_tokens(*tokenizer)[id],
            None => !tokenizer_tokens(*tokenizer).contains_key(id),
        },
{
    tokenizer.id_to_token(id)
}

/// `Tokenizer::get_vocab_size`: the size of the vocabulary, with the added
/// tokens counted where `with_added_tokens` says so.
#[verifier::external_body]
pub(crate) fn get_vocab_size(tokenizer: &Tokenizer, with_added_tokens: bool) -> (n: usize)
    ensures
        n == tokenizer_vocab_size(*tokenizer, with_added_tokens),
{
    tokenizer.get_vocab_size(with_added_tokens)
}

/// The ids that are there, in order.
pub open spec fn present(ids: Seq<Option<u32>>) -> Seq<u32>
    decreases ids.len(),
{
    if ids.len() == 0 {
        Seq::empty()
    } else {
        let rest = present(ids.drop_last());
        match ids.last() {
            Some(id) => rest.push(id),
            None => rest,
        }
    }
}

/// The ids of the tokens that end a text, from what the vocabulary has for
/// the end token of the chat template (`eos`) and for each further stop token
/// (`stops`): first the id of the template's end token, which must be there,
/// then the ids of the stop tokens that are there.
pub open spec fn end_tokens(eos: Option<u32>, stops: Seq<Option<u32>>) -> Option<Seq<u32>> {
    match eos {
        Some(id) => Some(seq![id] + present(stops)),
        None => None,
    }
}

/// The ids of the tokens that end a text, as `end_tokens` says.
pub fn collect_eos_tok(eos: Option<u32>, stops: &Vec<Option<u32>>) -> (r: Option<Vec<u32>>)
    ensures
        match (r, end_tokens(eos, stops@)) {
            (Some(ids), Some(expected)) => ids@ == expected,
            (None, None) => true,
            _ => false,
        },
{
    let mut ids: Vec<u32> = Vec::new();
    match eos {
        Some(id) => ids.push(id),
        None => {
            return None;
        },
    }
    let ghost first = ids@;
    let mut i: usize = 0;
    while i < stops.len()
        invariant
            i <= stops@.len(),
            ids@ == first + present(stops@.take(i as int)),
        decreases stops@.len() - i,
    {
        proof {
            assert(stops@.take(i + 1).drop_last() =~= stops@.take(i as int));
        }
        match stops[i] {
            Some(id) => {
                ids.push(id);
            },
            None => {},
        }
        i += 1;
    }
    assert(stops@.take(stops@.len() as int) =~= stops@);
    Some(ids)
}

/// The ids that end a text hold the id of the chat template's end token,
/// and the id of every stop token that the vocabulary has.
pub proof fn lemma_end_tokens_complete(eos: Option<u32>, stops: Seq<Option<u32>>, k: int)
    requires
        eos is Some,
    ensures
        end_tokens(eos, stops) is Some,
        end_tokens(eos, stops)->Some_0.contains(eos->Some_0),
        0 <= k < stops.len() && stops[k] is Some ==> end_tokens(eos, stops)->Some_0.contains(
            stops[k]->Some_0,
        ),
{
    let ids = end_tokens(eos, stops)->Some_0;
    assert(ids[0] == eos->Some_0);
    if 0 <= k < stops.len() && stops[k] is Some {
        lemma_present_contains(stops, k);
        let rest = present(stops);
        let j = choose|j: int| 0 <= j < rest.len() && rest[j] == stops[k]->Some_0;
        assert(ids[j + 1] == stops[k]->Some_0);
    }
}

proof fn lemma_present_contains(ids: Seq<Option<u32>>, k: int)
    requires
        0 <= k < ids.len(),
        ids[k] is Some,
    ensures
        present(ids).contains(ids[k]->Some_0),
    decreases ids.len(),
{
    let rest = present(ids.drop_last());
    if k == ids.len() - 1 {
        assert(rest.push(ids[k]->Some_0)[rest.len() as int] == ids[k]->Some_0);
    } else {
        lemma_present_contains(ids.drop_last(), k);
        let j = choose|j: int| 0 <= j < rest.len() && rest[j] == ids[k]->Some_0;
        assert(present(ids)[j] == ids[k]->Some_0);
    }
}

/// The texts of a list of strings.
pub open spec fn texts(strings: Seq<String>) -> Seq<Seq<char>> {
    Seq::new(strings.len(), |i: int| strings[i]@)
}

/// What `vocab` has for each of `tokens`.
pub open spec fn found(vocab: Map<Seq<char>, u32>, tokens: Seq<Seq<char>>) -> Seq<Option<u32>> {
    Seq::new(tokens.len(), |i: int| lookup(vocab, tokens[i]))
}

/// The ids of the tokens that end a text under the vocabulary `vocab`:
/// `end_tokens` of what the vocabulary has for the end token of the chat
/// template and for each stop token.
pub open spec fn eos_ids(
    vocab: Map<Seq<char>, u32>,
    eos_tok: Seq<char>,
    stop_tokens: Seq<Seq<char>>,
) -> Option<Seq<u32>> {
    end_tokens(lookup(vocab, eos_tok), found(vocab, stop_tokens))
}

/// The ids of the tokens that end a text, as `eos_ids` says of the
/// tokenizer's vocabulary; `None` where the tokenizer does not know the end
/// token of the chat template.
pub fn calculate_eos_tok(eos_tok: &str, stop_tokens: &Vec<String>, tokenizer: &Tokenizer) -> (r:
    Option<Vec<u32>>)
    ensures
        match (r, eos_ids(tokenizer_ids(*tokenizer), eos_tok@, texts(stop_tokens@))) {
            (Some(ids), Some(expected)) => ids@ == expected,
            (None, None) => true,
            _ => false,
        },
{
    let ghost vocab = tokenizer_ids(*tokenizer);
    let eos = token_to_id(tokenizer, eos_tok);
    let mut stops: Vec<Option<u32>> = Vec::new();
    let mut i: usize = 0;
    while i < stop_tokens.len()
        invariant
            i <= stop_tokens@.len(),
            vocab == tokenizer_ids(*tokenizer),
            stops@.len() == i,
            forall|k: int| 0 <= k < i ==> #[trigger] stops@[k] == lookup(vocab, stop_tokens@[k]@),
        decreases stop_tokens@.len() - i,
    {
        stops.push(token_to_id(tokenizer, stop_tokens[i].as_str()));
        i += 1;
    }
    assert(stops@ =~= found(vocab, texts(stop_tokens@)));
    collect_eos_tok(eos, &stops)
}

/// The bytes that each token is spelled with: its text in UTF-8, and nothing
/// for an id that has no token.
pub open spec fn spelled(tokens: Seq<Option<String>>) -> Seq<Seq<u8>> {
    Seq::new(
        tokens.len(),
        |id: int|
            match tokens[id] {
                Some(token) => encode_utf8(token@),
                None => Seq::empty(),
            },
    )
}

/// The vocabulary whose tokens are `tokens`, by id, and whose end token is
/// `tok_eos`; `None` where `tok_eos` is not among them or there are more
/// tokens than ids of 32 bits.
pub fn tok_trie_of_tokens(tokens: &Vec<Option<String>>, tok_eos: TokenId) -> (r: Option<TokTrie>)
    ensures
        r is Some <==> tok_eos < tokens@.len() <= u32::MAX,
        r matches Some(trie) ==> trie@ == (Vocabulary { tok_eos, words: spelled(tokens@) }),
{
    let mut words: Vec<Vec<u8>> = Vec::new();
    let mut id: usize = 0;
    while id < tokens.len()
        invariant
            id <= tokens@.len(),
            words@.len() == id,
            forall|k: int| 0 <= k < id ==> (#[trigger] words@[k])@ == spelled(tokens@)[k],
        decreases tokens@.len() - id,
    {
        let bytes = match &tokens[id] {
            Some(token) => slice_to_vec(token.as_str().as_bytes()),
            None => Vec::new(),
        };
        words.push(bytes);
        id += 1;
    }
    assert(vocabulary(tok_eos, words@).words =~= spelled(tokens@));
    TokTrie::from(tok_eos, words)
}

/// The bytes of the tokens with the ids below `size`, by id.
pub open spec fn vocabulary_words(tokens: Map<u32, Seq<char>>, size: nat) -> Seq<Seq<u8>> {
    Seq::new(size, |id: int| token_bytes(tokens, id as u32))
}

/// The vocabulary of the tokenizer, with `tok_eos` as its end token: as many
/// tokens as the tokenizer counts with its added tokens, each spelled as the
/// tokenizer spells it.
/// `None` where `tok_eos` is not among them or there are more tokens than ids
/// of 32 bits.
pub fn build_tok_trie(tokenizer: &Tokenizer, tok_eos: TokenId) -> (r: Option<TokTrie>)
    ensures
        r is Some <==> tok_eos < tokenizer_vocab_size(*tokenizer, true) <= u32::MAX,
        r matches Some(trie) ==> {
            &&& trie@.tok_eos == tok_eos
            &&& trie@.words == vocabulary_words(
                tokenizer_tokens(*tokenizer),
                tokenizer_vocab_size(*tokenizer, true) as nat,
            )
        },
{
    let size = get_vocab_size(tokenizer, true);
    if size > u32::MAX as usize {
        return None;
    }
    let ghost known = tokenizer_tokens(*tokenizer);
    let mut tokens: Vec<Option<String>> = Vec::new();
    let mut id: usize = 0;
    while id < size
        invariant
            id <= size <= u32::MAX,
            known == tokenizer_tokens(*tokenizer),
            tokens@.len() == id,
            forall|k: int|
                0 <= k < id ==> match #[trigger] tokens@[k] {
                    Some(token) => known.contains_key(k as u32) && token@ == known[k as u32],
                    None => !known.contains_key(k as u32),
                },
        decreases size - id,
    {
        tokens.push(id_to_token(tokenizer, id as u32));
        id += 1;
    }
    tok_trie_of_tokens(&tokens, tok_eos)
}

} // verus!

//! From the sequences of a batch to what a model's forward pass is fed:
//! token rows, the position that each row starts at, and context lengths.

use crate::recognizer::Recognizer;
use crate::sequence::Sequence;
use vstd::prelude::*;

verus! {

/// Why a batch cannot be fed to a model.
#[derive(Clone, Copy, PartialEq, Eq, Debug)]
pub enum InputError {
    /// The batch holds no sequence.
    EmptyBatch,
    /// The sequence at `index` holds no token.
    EmptySequence { index: usize },
}

/// The input of one kind of pass over a batch, one entry for each sequence.
pub struct InputMetadata {
    /// The token rows, all of one length.
    pub input: Vec<Vec<u32>>,
    /// The position in its sequence at which each row starts.
    pub positions: Vec<usize>,
    /// The position in its sequence of each token of each row.
    pub positions_kernel: Vec<Vec<usize>>,
    pub context_lens: Vec<(usize, usize)>,
}

/// An `InputMetadata` as mathematical values.
pub struct InputMetadataView {
    pub input: Seq<Seq<u32>>,
    pub positions: Seq<usize>,
    pub positions_kernel: Seq<Seq<usize>>,
    pub context_lens: Seq<(usize, usize)>,
}

/// The rows of a table, each as a sequence.
pub open spec fn rows<T>(table: Seq<Vec<T>>) -> Seq<Seq<T>> {
    Seq::new(table.len(), |i: int| table[i]@)
}

impl View for InputMetadata {
    type V = InputMetadataView;

    open spec fn view(&self) -> InputMetadataView {
        InputMetadataView {
            input: rows(self.input@),
            positions: self.positions@,
            positions_kernel: rows(self.positions_kernel@),
            context_lens: self.context_lens@,
        }
    }
}

/// The token lists of the sequences of a batch.
pub open spec fn token_lists<C: Recognizer>(batch: Seq<&Sequence<C>>) -> Seq<Seq<u32>> {
    Seq::new(batch.len(), |i: int| batch[i].tokens())
}

/// The length of the longest of `seqs`.
pub open spec fn max_len(seqs: Seq<Seq<u32>>) -> nat
    decreases seqs.len(),
{
    if seqs.len() == 0 {
        0
    } else {
        let rest = max_len(seqs.drop_last());
        if seqs.last().len() > rest {
            seqs.last().len()
        } else {
            rest
        }
    }
}

/// `toks`, filled up with the padding token 0 to length `len`.
pub open spec fn padded(toks: Seq<u32>, len: nat) -> Seq<u32> {
    Seq::new(
        if len > toks.len() {
            len
        } else {
            toks.len()
        },
        |j: int|
            if j < toks.len() {
                toks[j]
            } else {
                0u32
            },
    )
}

/// The input of a pass over the whole of each sequence: every sequence in
/// full, padded to the longest, starting at position 0.
pub open spec fn prompt_input(seqs: Seq<Seq<u32>>) -> InputMetadataView {
    let width = max_len(seqs);
    InputMetadataView {
        input: Seq::new(seqs.len(), |i: int| padded(seqs[i], width)),
        positions: Seq::new(seqs.len(), |i: int| 0usize),
        positions_kernel: Seq::new(seqs.len(), |i: int| Seq::new(width, |j: int| j as usize)),
        context_lens: Seq::new(seqs.len(), |i: int| ((seqs[i].len() - 1) as usize, 1usize)),
    }
}

/// The input of a pass that decodes one token: with a cache, the last token
/// of each sequence at its own position; without one, every sequence in full.
pub open spec fn completion_input(seqs: Seq<Seq<u32>>, no_kv_cache: bool) -> InputMetadataView {
    if no_kv_cache {
        prompt_input(seqs)
    } else {
        InputMetadataView {
            input: Seq::new(seqs.len(), |i: int| seq![seqs[i].last()]),
            positions: Seq::new(seqs.len(), |i: int| (seqs[i].len() - 1) as usize),
            positions_kernel: Seq::new(
                seqs.len(),
                |i: int| seq![(seqs[i].len() - 1) as usize],
            ),
            context_lens: Seq::new(seqs.len(), |i: int| (0usize, 1usize)),
        }
    }
}

/// Whether a batch can be fed: it holds a sequence, and every sequence
/// holds a token.
pub open spec fn feedable(seqs: Seq<Seq<u32>>) -> bool {
    &&& seqs.len() > 0
    &&& forall|i: int| 0 <= i < seqs.len() ==> (#[trigger] seqs[i]).len() > 0
}

/// The error that a batch which cannot be fed is refused with: the empty
/// batch, or the first sequence without a token.
pub open spec fn input_error(seqs: Seq<Seq<u32>>) -> InputError
    recommends
        !feedable(seqs),
{
    if seqs.len() == 0 {
        InputError::EmptyBatch
    } else {
        InputError::EmptySequence { index: first_empty(seqs) as usize }
    }
}

/// The index of the first sequence without a token; the number of sequences
/// where there is none.
pub open spec fn first_empty(seqs: Seq<Seq<u32>>) -> nat
    decreases seqs.len(),
{
    if seqs.len() == 0 {
        0
    } else if first_empty(seqs.drop_last()) < seqs.len() - 1 {
        first_empty(seqs.drop_last())
    } else if seqs.last().len() == 0 {
        (seqs.len() - 1) as nat
    } else {
        seqs.len()
    }
}

proof fn lemma_max_len_bounds(seqs: Seq<Seq<u32>>, i: int)
    requires
        0 <= i < seqs.len(),
    ensures
        seqs[i].len() <= max_len(seqs),
    decreases seqs.len(),
{
    if i < seqs.len() - 1 {
        lemma_max_len_bounds(seqs.drop_last(), i);
    }
}

/// Checks that the batch can be fed, and measures its longest sequence.
fn check_batch<C: Recognizer>(input_toks: &[&Sequence<C>]) -> (r: Result<usize, InputError>)
    ensures
        match r {
            Ok(width) => feedable(token_lists(input_toks@)) && width == max_len(
                token_lists(input_toks@),
            ),
            Err(e) => !feedable(token_lists(input_toks@)) && e == input_error(
                token_lists(input_toks@),
            ),
        },
{
    let ghost seqs = token_lists(input_toks@);
    if input_toks.len() == 0 {
        return Err(InputError::EmptyBatch);
    }
    let mut width: usize = 0;
    let mut i: usize = 0;
    while i < input_toks.len()
        invariant
            i <= input_toks@.len(),
            seqs == token_lists(input_toks@),
            width == max_len(seqs.take(i as int)),
            first_empty(seqs.take(i as int)) == i,
            forall|k: int| 0 <= k < i ==> (#[trigger] seqs[k]).len() > 0,
        decreases input_toks@.len() - i,
    {
        let n = input_toks[i].len();
        proof {
            assert(seqs.take(i + 1).drop_last() =~= seqs.take(i as int));
        }
        if n == 0 {
            proof {
                lemma_first_empty_found(seqs, i as int + 1);
            }
            return Err(InputError::EmptySequence { index: i });
        }
        if n > width {
            width = n;
        }
        i += 1;
    }
    proof {
        assert(seqs.take(seqs.len() as int) =~= seqs);
    }
    Ok(width)
}

/// Once a sequence without a token is found among the first `n`, it stays
/// the first however many follow.
proof fn lemma_first_empty_found(seqs: Seq<Seq<u32>>, n: int)
    requires
        0 <= n <= seqs.len(),
        first_empty(seqs.take(n)) < n,
    ensures
        first_empty(seqs) == first_empty(seqs.take(n)),
    decreases seqs.len() - n,
{
    if n < seqs.len() {
        assert(seqs.take(n + 1).drop_last() =~= seqs.take(n));
        lemma_first_empty_found(seqs, n + 1);
    } else {
        assert(seqs.take(n) =~= seqs);
    }
}

/// The input of a pass over the whole of each sequence of the batch.
pub fn get_prompt_input<C: Recognizer>(input_toks: &[&Sequence<C>]) -> (r: Result<
    InputMetadata,
    InputError,
>)
    ensures
        match r {
            Ok(meta) => feedable(token_lists(input_toks@)) && meta@ == prompt_input(
                token_lists(input_toks@),
            ),
            Err(e) => !feedable(token_lists(input_toks@)) && e == input_error(
                token_lists(input_toks@),
            ),
        },
{
    let ghost seqs = token_lists(input_toks@);
    let width = match check_batch(input_toks) {
        Ok(width) => width,
        Err(e) => {
            return Err(e);
        },
    };
    let mut input: Vec<Vec<u32>> = Vec::new();
    let mut positions: Vec<usize> = Vec::new();
    let mut positions_kernel: Vec<Vec<usize>> = Vec::new();
    let mut context_lens: Vec<(usize, usize)> = Vec::new();
    let mut i: usize = 0;
    while i < input_toks.len()
        invariant
            i <= input_toks@.len(),
            seqs == token_lists(input_toks@),
            feedable(seqs),
            width == max_len(seqs),
            input@.len() == i,
            positions@.len() == i,
            positions_kernel@.len() == i,
            context_lens@.len() == i,
            forall|k: int| 0 <= k < i ==> (#[trigger] input@[k])@ == padded(seqs[k], width as nat),
            forall|k: int| 0 <= k < i ==> #[trigger] positions@[k] == 0,
            forall|k: int|
                0 <= k < i ==> (#[trigger] positions_kernel@[k])@ == Seq::new(
                    width as nat,
                    |j: int| j as usize,
                ),
            forall|k: int|
                0 <= k < i ==> #[trigger] context_lens@[k] == (
                    (seqs[k].len() - 1) as usize,
                    1usize,
                ),
        decreases input_toks@.len() - i,
    {
        let toks = input_toks[i].get_toks();
        proof {
            lemma_max_len_bounds(seqs, i as int);
        }
        let mut row: Vec<u32> = Vec::new();
        let mut kernel: Vec<usize> = Vec::new();
        let mut j: usize = 0;
        while j < width
            invariant
                j <= width,
                toks@.len() <= width,
                row@.len() == j,
                kernel@.len() == j,
                forall|k: int|
                    0 <= k < j ==> row@[k] == (if k < toks@.len() {
                        toks@[k]
                    } else {
                        0u32
                    }),
                forall|k: int| 0 <= k < j ==> kernel@[k] == k,
            decreases width - j,
        {
            if j < toks.len() {
                row.push(toks[j]);
            } else {
                row.push(0);
            }
            kernel.push(j);
            j += 1;
        }
        proof {
            assert(kernel@ =~= Seq::new(width as nat, |j: int| j as usize));
        }
        input.push(row);
        positions.push(0);
        positions_kernel.push(kernel);
        context_lens.push((toks.len() - 1, 1));
        i += 1;
    }
    let meta = InputMetadata { input, positions, positions_kernel, context_lens };
    proof {
        let want = prompt_input(seqs);
        assert(meta@.input =~= want.input);
        assert(meta@.positions =~= want.positions);
        assert(meta@.positions_kernel =~= want.positions_kernel);
        assert(meta@.context_lens =~= want.context_lens);
    }
    Ok(meta)
}

/// The input of a pass that decodes one token for each sequence of the
/// batch. Without a cache it is the input of a pass over the whole.
pub fn get_completion_input<C: Recognizer>(input_toks: &[&Sequence<C>], no_kv_cache: bool) -> (r:
    Result<InputMetadata, InputError>)
    ensures
        match r {
            Ok(meta) => feedable(token_lists(input_toks@)) && meta@ == completion_input(
                token_lists(input_toks@),
                no_kv_cache,
            ),
            Err(e) => !feedable(token_lists(input_toks@)) && e == input_error(
                token_lists(input_toks@),
            ),
        },
{
    if no_kv_cache {
        return get_prompt_input(input_toks);
    }
    let ghost seqs = token_lists(input_toks@);
    match check_batch(input_toks) {
        Ok(_) => {},
        Err(e) => {
            return Err(e);
        },
    }
    let mut input: Vec<Vec<u32>> = Vec::new();
    let mut positions: Vec<usize> = Vec::new();
    let mut positions_kernel: Vec<Vec<usize>> = Vec::new();
    let mut context_lens: Vec<(usize, usize)> = Vec::new();
    let mut i: usize = 0;
    while i < input_toks.len()
        invariant
            i <= input_toks@.len(),
            seqs == token_lists(input_toks@),
            feedable(seqs),
            input@.len() == i,
            positions@.len() == i,
            positions_kernel@.len() == i,
            context_lens@.len() == i,
            forall|k: int| 0 <= k < i ==> (#[trigger] input@[k])@ == seq![seqs[k].last()],
            forall|k: int| 0 <= k < i ==> #[trigger] positions@[k] == (seqs[k].len() - 1) as usize,
            forall|k: int|
                0 <= k < i ==> (#[trigger] positions_kernel@[k])@ == seq![
                    (seqs[k].len() - 1) as usize,
                ],
            forall|k: int| 0 <= k < i ==> #[trigger] context_lens@[k] == (0usize, 1usize),
        decreases input_toks@.len() - i,
    {
        let toks = input_toks[i].get_toks();
        proof {
            assert(seqs[i as int] == toks@);
        }
        let start_pos = toks.len() - 1;
        let mut row: Vec<u32> = Vec::new();
        row.push(toks[start_pos]);
        let mut kernel: Vec<usize> = Vec::new();
        kernel.push(start_pos);
        proof {
            assert(kernel@ =~= seq![(seqs[i as int].len() - 1) as usize]);
        }
        input.push(row);
        positions.push(start_pos);
        positions_kernel.push(kernel);
        context_lens.push((0, 1));
        i += 1;
    }
    let meta = InputMetadata { input, positions, positions_kernel, context_lens };
    proof {
        let want = completion_input(seqs, no_kv_cache);
        assert(meta@.input =~= want.input);
        assert(meta@.positions =~= want.positions);
        assert(meta@.positions_kernel =~= want.positions_kernel);
        assert(meta@.context_lens =~= want.context_lens);
    }
    Ok(meta)
}

} // verus!

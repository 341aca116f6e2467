//! What every pipeline has in common: the kinds of model, the state that an
//! X-LoRA model shares across calls, the dispatch of a forward pass, and the
//! contract that the scheduler relies on whatever the model behind it.

use crate::inputs::{
    completion_input, feedable, get_completion_input, get_prompt_input, input_error, prompt_input,
    rows, token_lists, InputError, InputMetadata,
};
use crate::recognizer::Recognizer;
use crate::sequence::Sequence;
use crate::toktree::{TokTrie, Vocabulary};
use candle_core::{Device, Tensor};
use std::sync::Arc;
use tokenizers::Tokenizer;
use vstd::prelude::*;

verus! {

/// The kinds of model that a loader can be asked for.
#[derive(Clone, Copy, PartialEq, Eq, Debug)]
pub enum ModelKind {
    Normal,
    XLoraNormal,
    XLoraGGUF,
    XLoraGGML,
    QuantizedGGUF,
    QuantizedGGML,
    LoraGGUF,
    LoraGGML,
    LoraNormal,
}

/// The kinds that the loaders of this crate build: plain weights, weights
/// with X-LoRA adapters, and weights with LoRA adapters.
#[derive(Clone, Copy, PartialEq, Eq, Debug)]
pub enum AdapterKind {
    Plain,
    XLora,
    Lora,
}

impl ModelKind {
    /// What a loader of this crate builds for the kind; `None` for the
    /// quantized kinds, which it does not build.
    pub open spec fn adapter_kind_spec(self) -> Option<AdapterKind> {
        match self {
            ModelKind::Normal => Some(AdapterKind::Plain),
            ModelKind::XLoraNormal => Some(AdapterKind::XLora),
            ModelKind::LoraNormal => Some(AdapterKind::Lora),
            _ => None,
        }
    }

    /// What a loader of this crate builds for the kind; `None` for the
    /// quantized kinds, which it does not build.
    pub fn adapter_kind(self) -> (r: Option<AdapterKind>)
        ensures
            r == self.adapter_kind_spec(),
    {
        match self {
            ModelKind::Normal => Some(AdapterKind::Plain),
            ModelKind::XLoraNormal => Some(AdapterKind::XLora),
            ModelKind::LoraNormal => Some(AdapterKind::Lora),
            ModelKind::XLoraGGUF => None,
            ModelKind::XLoraGGML => None,
            ModelKind::QuantizedGGUF => None,
            ModelKind::QuantizedGGML => None,
            ModelKind::LoraGGUF => None,
            ModelKind::LoraGGML => None,
        }
    }
}

/// The state that governs when an X-LoRA model stops scaling its adapters
/// token by token: a count of the forward passes made, and the count at which
/// the scaling is frozen.
#[derive(Clone, Copy, PartialEq, Eq, Debug)]
pub struct NonGranularState {
    pub non_granular_index: usize,
    pub tgt_non_granular_index: usize,
}

impl NonGranularState {
    /// The state before any forward pass, with the given target.
    pub fn new(tgt_non_granular_index: usize) -> (r: NonGranularState)
        ensures
            r == (NonGranularState { non_granular_index: 0, tgt_non_granular_index }),
    {
        NonGranularState { non_granular_index: 0, tgt_non_granular_index }
    }

    /// The state after one more forward pass.
    pub open spec fn advanced(self) -> NonGranularState {
        NonGranularState {
            non_granular_index: (self.non_granular_index + 1) as usize,
            tgt_non_granular_index: self.tgt_non_granular_index,
        }
    }
}

/// The per-layer store of keys and values of a model. Its length is the
/// model's number of hidden layers.
pub struct Cache {
    layers: Vec<Option<(Tensor, Tensor)>>,
}

impl View for Cache {
    type V = Seq<Option<(Tensor, Tensor)>>;

    closed spec fn view(&self) -> Seq<Option<(Tensor, Tensor)>> {
        self.layers@
    }
}

impl Cache {
    /// An empty cache for a model of `len` layers.
    pub fn new(len: usize) -> (r: Cache)
        ensures
            r@ == Seq::new(len as nat, |i: int| None::<(Tensor, Tensor)>),
    {
        let mut layers: Vec<Option<(Tensor, Tensor)>> = Vec::new();
        let mut i: usize = 0;
        while i < len
            invariant
                i <= len,
                layers@ == Seq::new(i as nat, |i: int| None::<(Tensor, Tensor)>),
            decreases len - i,
        {
            layers.push(None);
            i += 1;
        }
        Cache { layers }
    }

    /// The number of layers.
    pub fn len(&self) -> (n: usize)
        ensures
            n == self@.len(),
    {
        self.layers.len()
    }

    /// The keys and values of layer `layer`, if it holds any.
    pub fn get(&self, layer: usize) -> (r: Option<&(Tensor, Tensor)>)
        ensures
            r == if layer < self@.len() {
                match self@[layer as int] {
                    Some(kv) => Some(&kv),
                    None => None,
                }
            } else {
                None
            },
    {
        if layer < self.layers.len() {
            self.layers[layer].as_ref()
        } else {
            None
        }
    }

    /// Stores the keys and values of layer `layer`. A layer that the model
    /// does not have changes nothing.
    pub fn set(&mut self, layer: usize, kv: Option<(Tensor, Tensor)>)
        ensures
            final(self)@ == if layer < old(self)@.len() {
                old(self)@.update(layer as int, kv)
            } else {
                old(self)@
            },
    {
        if layer < self.layers.len() {
            self.layers[layer] = kv;
        }
    }
}

/// The tokens that frame a conversation, and the template that renders one.
pub struct ChatTemplate {
    pub bos_token: String,
    pub eos_token: String,
    pub unk_token: Option<String>,
    pub chat_template: Option<String>,
}

impl ChatTemplate {
    /// The token that begins a text.
    pub fn bos_tok(&self) -> (r: String)
        ensures
            r@ == self.bos_token@,
    {
        self.bos_token.clone()
    }

    /// The token that ends a text.
    pub fn eos_tok(&self) -> (r: String)
        ensures
            r@ == self.eos_token@,
    {
        self.eos_token.clone()
    }
}

/// What a forward pass over a batch is fed.
pub struct ModelInputs {
    pub input_ids: Vec<Vec<u32>>,
    pub input_ids_full: Option<Vec<Vec<u32>>>,
    pub seqlen_offsets: Vec<usize>,
    pub seqlen_offsets_full: Option<Vec<usize>>,
    pub seqlen_offsets_kernel: Vec<Vec<usize>>,
    pub seqlen_offsets_kernel_full: Option<Vec<Vec<usize>>>,
    pub context_lens: Vec<(usize, usize)>,
}

/// `ModelInputs` as mathematical values.
pub struct ModelInputsView {
    pub input_ids: Seq<Seq<u32>>,
    pub input_ids_full: Option<Seq<Seq<u32>>>,
    pub seqlen_offsets: Seq<usize>,
    pub seqlen_offsets_full: Option<Seq<usize>>,
    pub seqlen_offsets_kernel: Seq<Seq<usize>>,
    pub seqlen_offsets_kernel_full: Option<Seq<Seq<usize>>>,
    pub context_lens: Seq<(usize, usize)>,
}

/// The rows of an optional table.
pub open spec fn optional_rows<T>(table: Option<Vec<Vec<T>>>) -> Option<Seq<Seq<T>>> {
    match table {
        Some(t) => Some(rows(t@)),
        None => None,
    }
}

/// The entries of an optional list.
pub open spec fn optional_entries<T>(list: Option<Vec<T>>) -> Option<Seq<T>> {
    match list {
        Some(l) => Some(l@),
        None => None,
    }
}

impl View for ModelInputs {
    type V = ModelInputsView;

    open spec fn view(&self) -> ModelInputsView {
        ModelInputsView {
            input_ids: rows(self.input_ids@),
            input_ids_full: optional_rows(self.input_ids_full),
            seqlen_offsets: self.seqlen_offsets@,
            seqlen_offsets_full: optional_entries(self.seqlen_offsets_full),
            seqlen_offsets_kernel: rows(self.seqlen_offsets_kernel@),
            seqlen_offsets_kernel_full: optional_rows(self.seqlen_offsets_kernel_full),
            context_lens: self.context_lens@,
        }
    }
}

/// What a forward pass over the sequences `seqs` is fed.
///
/// A pass over a prompt takes every sequence in full. A pass that decodes
/// takes the last token of each sequence at its own position, unless there is
/// no cache: then it too takes every sequence in full. An X-LoRA model is
/// fed, beside that, the sequences in full as a second input.
pub open spec fn model_inputs(
    seqs: Seq<Seq<u32>>,
    is_prompt: bool,
    is_xlora: bool,
    no_kv_cache: bool,
) -> ModelInputsView {
    let main = if is_prompt {
        prompt_input(seqs)
    } else {
        completion_input(seqs, no_kv_cache)
    };
    let full = prompt_input(seqs);
    ModelInputsView {
        input_ids: main.input,
        input_ids_full: if is_xlora {
            Some(full.input)
        } else {
            None
        },
        seqlen_offsets: main.positions,
        seqlen_offsets_full: if is_xlora {
            Some(full.positions)
        } else {
            None
        },
        seqlen_offsets_kernel: main.positions_kernel,
        seqlen_offsets_kernel_full: if is_xlora {
            Some(full.positions_kernel)
        } else {
            None
        },
        context_lens: main.context_lens,
    }
}

/// Without a cache every forward pass is fed the whole of each sequence,
/// whether it is a pass over a prompt or one that decodes: each row begins
/// with all the tokens of its sequence.
pub proof fn lemma_no_cache_feeds_whole_sequences(
    seqs: Seq<Seq<u32>>,
    is_prompt: bool,
    is_xlora: bool,
    i: int,
)
    requires
        0 <= i < seqs.len(),
    ensures
        model_inputs(seqs, is_prompt, is_xlora, true) == model_inputs(seqs, true, is_xlora, true),
        model_inputs(seqs, is_prompt, is_xlora, true).input_ids[i].take(seqs[i].len() as int)
            == seqs[i],
        model_inputs(seqs, is_prompt, is_xlora, true).seqlen_offsets[i] == 0,
{
}

/// What a forward pass over the batch is fed, as `model_inputs` says; a
/// batch that cannot be fed is refused.
pub fn calculate_inputs<C: Recognizer>(
    input_toks: &[&Sequence<C>],
    is_prompt: bool,
    is_xlora: bool,
    no_kv_cache: bool,
) -> (r: Result<ModelInputs, InputError>)
    ensures
        match r {
            Ok(inputs) => feedable(token_lists(input_toks@)) && inputs@ == model_inputs(
                token_lists(input_toks@),
                is_prompt,
                is_xlora,
                no_kv_cache,
            ),
            Err(e) => !feedable(token_lists(input_toks@)) && e == input_error(
                token_lists(input_toks@),
            ),
        },
{
    let main = if is_prompt {
        get_prompt_input(input_toks)
    } else {
        get_completion_input(input_toks, no_kv_cache)
    };
    let main = match main {
        Ok(main) => main,
        Err(e) => {
            return Err(e);
        },
    };
    if is_xlora {
        let full = match get_prompt_input(input_toks) {
            Ok(full) => full,
            Err(e) => {
                return Err(e);
            },
        };
        let InputMetadata { input, positions, positions_kernel, context_lens } = main;
        let InputMetadata {
            input: input_full,
            positions: positions_full,
            positions_kernel: positions_kernel_full,
            context_lens: _,
        } = full;
        Ok(
            ModelInputs {
                input_ids: input,
                input_ids_full: Some(input_full),
                seqlen_offsets: positions,
                seqlen_offsets_full: Some(positions_full),
                seqlen_offsets_kernel: positions_kernel,
                seqlen_offsets_kernel_full: Some(positions_kernel_full),
                context_lens,
            },
        )
    } else {
        let InputMetadata { input, positions, positions_kernel, context_lens } = main;
        Ok(
            ModelInputs {
                input_ids: input,
                input_ids_full: None,
                seqlen_offsets: positions,
                seqlen_offsets_full: None,
                seqlen_offsets_kernel: positions_kernel,
                seqlen_offsets_kernel_full: None,
                context_lens,
            },
        )
    }
}

/// A copy of a list.
fn copy_list<T: Copy>(list: &Vec<T>) -> (r: Vec<T>)
    ensures
        r@ == list@,
{
    let mut r: Vec<T> = Vec::new();
    let mut i: usize = 0;
    while i < list.len()
        invariant
            i <= list@.len(),
            r@ == list@.take(i as int),
        decreases list@.len() - i,
    {
        r.push(list[i]);
        i += 1;
    }
    r
}

/// A copy of a table.
fn copy_table<T: Copy>(table: &Vec<Vec<T>>) -> (r: Vec<Vec<T>>)
    ensures
        rows(r@) == rows(table@),
{
    let mut r: Vec<Vec<T>> = Vec::new();
    let mut i: usize = 0;
    while i < table.len()
        invariant
            i <= table@.len(),
            r@.len() == i,
            forall|k: int| 0 <= k < i ==> (#[trigger] r@[k])@ == table@[k]@,
        decreases table@.len() - i,
    {
        r.push(copy_list(&table[i]));
        i += 1;
    }
    r
}

/// The call that a forward pass comes to: which of the two kinds of model is
/// called, and with what.
pub enum ForwardCall {
    /// A model of plain weights.
    Normal {
        input_ids: Vec<Vec<u32>>,
        seqlen_offsets: Vec<usize>,
        seqlen_offsets_kernel: Vec<Vec<usize>>,
        context_lens: Vec<(usize, usize)>,
    },
    /// A model with adapters. `non_granular_state` is the shared state as it
    /// stands when the call is made.
    XLora {
        input_ids: Vec<Vec<u32>>,
        input_ids_full: Vec<Vec<u32>>,
        seqlen_offsets: Vec<usize>,
        seqlen_offsets_full: Vec<usize>,
        seqlen_offsets_kernel: Vec<Vec<usize>>,
        seqlen_offsets_kernel_full: Vec<Vec<usize>>,
        no_kv_cache: bool,
        non_granular_state: Option<NonGranularState>,
        context_lens: Vec<(usize, usize)>,
    },
}

/// A `ForwardCall` as mathematical values.
pub enum ForwardCallView {
    Normal {
        input_ids: Seq<Seq<u32>>,
        seqlen_offsets: Seq<usize>,
        seqlen_offsets_kernel: Seq<Seq<usize>>,
        context_lens: Seq<(usize, usize)>,
    },
    XLora {
        input_ids: Seq<Seq<u32>>,
        input_ids_full: Seq<Seq<u32>>,
        seqlen_offsets: Seq<usize>,
        seqlen_offsets_full: Seq<usize>,
        seqlen_offsets_kernel: Seq<Seq<usize>>,
        seqlen_offsets_kernel_full: Seq<Seq<usize>>,
        no_kv_cache: bool,
        non_granular_state: Option<NonGranularState>,
        context_lens: Seq<(usize, usize)>,
    },
}

impl View for ForwardCall {
    type V = ForwardCallView;

    open spec fn view(&self) -> ForwardCallView {
        match self {
            ForwardCall::Normal {
                input_ids,
                seqlen_offsets,
                seqlen_offsets_kernel,
                context_lens,
            } => ForwardCallView::Normal {
                input_ids: rows(input_ids@),
                seqlen_offsets: seqlen_offsets@,
                seqlen_offsets_kernel: rows(seqlen_offsets_kernel@),
                context_lens: context_lens@,
            },
            ForwardCall::XLora {
                input_ids,
                input_ids_full,
                seqlen_offsets,
                seqlen_offsets_full,
                seqlen_offsets_kernel,
                seqlen_offsets_kernel_full,
                no_kv_cache,
                non_granular_state,
                context_lens,
            } => ForwardCallView::XLora {
                input_ids: rows(input_ids@),
                input_ids_full: rows(input_ids_full@),
                seqlen_offsets: seqlen_offsets@,
                seqlen_offsets_full: seqlen_offsets_full@,
                seqlen_offsets_kernel: rows(seqlen_offsets_kernel@),
                seqlen_offsets_kernel_full: rows(seqlen_offsets_kernel_full@),
                no_kv_cache: *no_kv_cache,
                non_granular_state: *non_granular_state,
                context_lens: context_lens@,
            },
        }
    }
}

/// Why a forward pass was not dispatched.
#[derive(Clone, Copy, PartialEq, Eq, Debug)]
pub enum ForwardError {
    /// The batch cannot be fed to a model.
    Input(InputError),
    /// The count of forward passes has reached the largest number.
    CounterOverflow,
}

/// The call that the inputs `inputs` are handed on with. A model with
/// adapters takes the second input where there is one and the first in its
/// place where there is none.
pub open spec fn forward_call(
    adapted: bool,
    inputs: ModelInputsView,
    no_kv_cache: bool,
    non_granular_state: Option<NonGranularState>,
) -> ForwardCallView {
    if adapted {
        ForwardCallView::XLora {
            input_ids: inputs.input_ids,
            input_ids_full: match inputs.input_ids_full {
                Some(full) => full,
                None => inputs.input_ids,
            },
            seqlen_offsets: inputs.seqlen_offsets,
            seqlen_offsets_full: match inputs.seqlen_offsets_full {
                Some(full) => full,
                None => inputs.seqlen_offsets,
            },
            seqlen_offsets_kernel: inputs.seqlen_offsets_kernel,
            seqlen_offsets_kernel_full: match inputs.seqlen_offsets_kernel_full {
                Some(full) => full,
                None => inputs.seqlen_offsets_kernel,
            },
            no_kv_cache,
            non_granular_state,
            context_lens: inputs.context_lens,
        }
    } else {
        ForwardCallView::Normal {
            input_ids: inputs.input_ids,
            seqlen_offsets: inputs.seqlen_offsets,
            seqlen_offsets_kernel: inputs.seqlen_offsets_kernel,
            context_lens: inputs.context_lens,
        }
    }
}

/// Whether there is a count of forward passes and it has reached the largest
/// number.
pub open spec fn counter_full(non_granular_state: Option<NonGranularState>) -> bool {
    match non_granular_state {
        Some(state) => state.non_granular_index == usize::MAX,
        None => false,
    }
}

/// A forward pass over the sequences `seqs`: the call it comes to, or why
/// there is none, and the shared state after it.
///
/// The inputs are those of a model that is X-LoRA: one with adapters that is
/// not reduced to LoRA. A call of a model with adapters advances the shared
/// state by one, however many sequences the batch holds; a call of a plain
/// model, and a pass that is refused, leave it as it is.
pub open spec fn dispatch(
    adapted: bool,
    is_lora: bool,
    no_kv_cache: bool,
    non_granular_state: Option<NonGranularState>,
    seqs: Seq<Seq<u32>>,
    is_prompt: bool,
) -> (Result<ForwardCallView, ForwardError>, Option<NonGranularState>) {
    if !feedable(seqs) {
        (Err(ForwardError::Input(input_error(seqs))), non_granular_state)
    } else if adapted && counter_full(non_granular_state) {
        (Err(ForwardError::CounterOverflow), non_granular_state)
    } else {
        (
            Ok(
                forward_call(
                    adapted,
                    model_inputs(seqs, is_prompt, adapted && !is_lora, no_kv_cache),
                    no_kv_cache,
                    non_granular_state,
                ),
            ),
            if adapted {
                match non_granular_state {
                    Some(state) => Some(state.advanced()),
                    None => None,
                }
            } else {
                non_granular_state
            },
        )
    }
}

/// The view of the outcome of a dispatch.
pub open spec fn call_view(r: Result<ForwardCall, ForwardError>) -> Result<
    ForwardCallView,
    ForwardError,
> {
    match r {
        Ok(call) => Ok(call@),
        Err(e) => Err(e),
    }
}

/// Dispatches a forward pass over the batch, as `dispatch` says.
pub fn dispatch_forward<C: Recognizer>(
    adapted: bool,
    is_lora: bool,
    no_kv_cache: bool,
    non_granular_state: &mut Option<NonGranularState>,
    input_toks: &[&Sequence<C>],
    is_prompt: bool,
) -> (r: Result<ForwardCall, ForwardError>)
    ensures
        (call_view(r), *final(non_granular_state)) == dispatch(
            adapted,
            is_lora,
            no_kv_cache,
            *old(non_granular_state),
            token_lists(input_toks@),
            is_prompt,
        ),
{
    let is_xlora = adapted && !is_lora;
    let inputs = match calculate_inputs(input_toks, is_prompt, is_xlora, no_kv_cache) {
        Ok(inputs) => inputs,
        Err(e) => {
            return Err(ForwardError::Input(e));
        },
    };
    let ModelInputs {
        input_ids,
        input_ids_full,
        seqlen_offsets,
        seqlen_offsets_full,
        seqlen_offsets_kernel,
        seqlen_offsets_kernel_full,
        context_lens,
    } = inputs;
    if !adapted {
        return Ok(
            ForwardCall::Normal { input_ids, seqlen_offsets, seqlen_offsets_kernel, context_lens },
        );
    }
    let before = *non_granular_state;
    match before {
        Some(state) => {
            if state.non_granular_index == usize::MAX {
                return Err(ForwardError::CounterOverflow);
            }
            *non_granular_state = Some(
                NonGranularState {
                    non_granular_index: state.non_granular_index + 1,
                    tgt_non_granular_index: state.tgt_non_granular_index,
                },
            );
        },
        None => {},
    }
    let input_ids_full = match input_ids_full {
        Some(full) => full,
        None => copy_table(&input_ids),
    };
    let seqlen_offsets_full = match seqlen_offsets_full {
        Some(full) => full,
        None => copy_list(&seqlen_offsets),
    };
    let seqlen_offsets_kernel_full = match seqlen_offsets_kernel_full {
        Some(full) => full,
        None => copy_table(&seqlen_offsets_kernel),
    };
    Ok(
        ForwardCall::XLora {
            input_ids,
            input_ids_full,
            seqlen_offsets,
            seqlen_offsets_full,
            seqlen_offsets_kernel,
            seqlen_offsets_kernel_full,
            no_kv_cache,
            non_granular_state: before,
            context_lens,
        },
    )
}

/// `Arc::clone`: another handle on the same tokenizer.
#[verifier::external_body]
pub(crate) fn share(tokenizer: &Arc<Tokenizer>) -> (r: Arc<Tokenizer>)
    ensures
        r == *tokenizer,
{
    Arc::clone(tokenizer)
}

/// What the scheduler can tell of a pipeline.
pub struct PipelineState {
    /// Whether the model has adapters (X-LoRA or LoRA) or plain weights.
    pub adapted: bool,
    /// Whether the adapters are reduced to LoRA.
    pub is_lora: bool,
    pub no_kv_cache: bool,
    pub non_granular_state: Option<NonGranularState>,
    pub repeat_last_n: usize,
    pub max_seq_len: usize,
    pub cache: Seq<Option<(Tensor, Tensor)>>,
    pub eos_tok: Seq<u32>,
    pub name: Seq<char>,
    pub vocabulary: Vocabulary,
    pub device: Device,
    pub tokenizer: Tokenizer,
    pub chat_template: ChatTemplate,
}

impl PipelineState {
    /// The outcome of a forward pass over `seqs` and the pipeline after it:
    /// nothing changes but the shared state of an X-LoRA model.
    pub open spec fn forward(self, seqs: Seq<Seq<u32>>, is_prompt: bool) -> (
        Result<ForwardCallView, ForwardError>,
        PipelineState,
    ) {
        let (call, non_granular_state) = dispatch(
            self.adapted,
            self.is_lora,
            self.no_kv_cache,
            self.non_granular_state,
            seqs,
            is_prompt,
        );
        (call, PipelineState { non_granular_state, ..self })
    }
}

/// A forward pass to come: the token lists of its batch, and whether it is a
/// pass over a prompt.
pub struct Pass {
    pub seqs: Seq<Seq<u32>>,
    pub is_prompt: bool,
}

impl PipelineState {
    /// The pipeline after the forward passes `passes`, one after the other.
    pub open spec fn after(self, passes: Seq<Pass>) -> PipelineState
        decreases passes.len(),
    {
        if passes.len() == 0 {
            self
        } else {
            self.after(passes.drop_last()).forward(passes.last().seqs, passes.last().is_prompt).1
        }
    }
}

/// Forward passes change nothing of a pipeline but the shared state of a
/// model with adapters, and that state counts them: after N passes over
/// batches that can be fed the count has grown by N, however many sequences
/// each batch held.
pub proof fn lemma_forward_counts_passes(pipeline: PipelineState, passes: Seq<Pass>)
    requires
        forall|i: int| 0 <= i < passes.len() ==> feedable(#[trigger] passes[i].seqs),
        pipeline.non_granular_state matches Some(state) ==> state.non_granular_index
            + passes.len() <= usize::MAX,
    ensures
        pipeline.after(passes) == (PipelineState {
            non_granular_state: pipeline.after(passes).non_granular_state,
            ..pipeline
        }),
        pipeline.after(passes).non_granular_state == match pipeline.non_granular_state {
            Some(state) if pipeline.adapted => Some(
                NonGranularState {
                    non_granular_index: (state.non_granular_index + passes.len()) as usize,
                    tgt_non_granular_index: state.tgt_non_granular_index,
                },
            ),
            other => other,
        },
    decreases passes.len(),
{
    if passes.len() > 0 {
        let earlier = passes.drop_last();
        assert forall|i: int| 0 <= i < earlier.len() implies feedable(
            #[trigger] earlier[i].seqs,
        ) by {
            assert(earlier[i] == passes[i]);
        }
        lemma_forward_counts_passes(pipeline, earlier);
    }
}

/// One model behind the interface that the scheduler uses, whatever its
/// architecture and whether it has plain weights, LoRA or X-LoRA adapters.
pub trait Pipeline {
    /// What the scheduler can tell of the pipeline.
    spec fn state(&self) -> PipelineState;

    /// Dispatches a forward pass over the batch: derives the model's inputs
    /// from the tokens of the sequences and says which model is to be called
    /// with them.
    fn forward<C: Recognizer>(&mut self, input_toks: &[&Sequence<C>], is_prompt: bool) -> (r:
        Result<ForwardCall, ForwardError>)
        ensures
            (call_view(r), final(self).state()) == old(self).state().forward(
                token_lists(input_toks@),
                is_prompt,
            ),
    ;

    /// The device that the model lives on.
    fn device(&self) -> (r: &Device)
        ensures
            *r == self.state().device,
    ;

    /// The number of hidden layers: the length of the cache.
    fn num_hidden_layers(&self) -> (r: usize)
        ensures
            r == self.state().cache.len(),
    ;

    /// The cache of the model.
    fn cache(&self) -> (r: &Cache)
        ensures
            r@ == self.state().cache,
    ;

    /// Stores the keys and values that a forward pass has computed for layer
    /// `layer`. A layer that the model does not have changes nothing.
    fn update_cache(&mut self, layer: usize, kv: Option<(Tensor, Tensor)>)
        ensures
            final(self).state() == (PipelineState {
                cache: if layer < old(self).state().cache.len() {
                    old(self).state().cache.update(layer as int, kv)
                } else {
                    old(self).state().cache
                },
                ..old(self).state()
            }),
    ;

    /// How many of the last tokens of a sequence the sampler's penalties
    /// look at.
    fn get_repeat_last_n(&self) -> (r: usize)
        ensures
            r == self.state().repeat_last_n,
    ;

    /// A handle on the tokenizer, which the pipeline shares with its
    /// callers.
    fn tokenizer(&self) -> (r: Arc<Tokenizer>)
        ensures
            *r == self.state().tokenizer,
    ;

    /// The ids of the tokens that end a text.
    fn eos_tok(&self) -> (r: &[u32])
        ensures
            r@ == self.state().eos_tok,
    ;

    /// The id of the model.
    fn name(&self) -> (r: String)
        ensures
            r@ == self.state().name,
    ;

    /// The longest sequence that the model takes.
    fn get_max_seq_len(&self) -> (r: usize)
        ensures
            r == self.state().max_seq_len,
    ;

    /// Whether the model is X-LoRA: it has adapters, and they are not
    /// reduced to LoRA.
    fn is_xlora(&self) -> (r: bool)
        ensures
            r == (self.state().adapted && !self.state().is_lora),
    ;

    /// Whether the model runs without a cache, and is fed every sequence
    /// in full each time.
    fn has_no_kv_cache(&self) -> (r: bool)
        ensures
            r == self.state().no_kv_cache,
    ;

    /// The chat template of the model.
    fn get_chat_template(&self) -> (r: &ChatTemplate)
        ensures
            *r == self.state().chat_template,
    ;

    /// The shared state of a model with adapters, if it has one.
    fn get_non_granular_state(&self) -> (r: &Option<NonGranularState>)
        ensures
            *r == self.state().non_granular_state,
    ;

    /// The vocabulary of the model.
    fn tok_trie(&self) -> (r: &TokTrie)
        ensures
            r@ == self.state().vocabulary,
    ;
}

} // verus!

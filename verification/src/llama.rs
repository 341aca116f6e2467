//! The Llama architecture: the files of a Llama model, the loader's
//! decisions, and the pipeline.

use crate::loader::{
    assemble, assembly_error, plan_setup, setup, setup_view, AdapterOrdering, Assembly,
    LoaderError, LoraConfig, ModelPaths, ModelSetup, ResolvedPaths, XLoraConfig,
};
use crate::pipeline::{
    dispatch_forward, share, AdapterKind, Cache, ChatTemplate, ForwardCall, ForwardError,
    ModelKind, NonGranularState, Pipeline, PipelineState,
};
use crate::recognizer::Recognizer;
use crate::sequence::Sequence;
use crate::tokenizer::{
    eos_ids, tokenizer_ids, tokenizer_tokens, tokenizer_vocab_size, vocabulary_words,
};
use crate::toktree::{TokTrie, Vocabulary};
use candle_core::{DType, Device, Tensor};
use std::sync::Arc;
use tokenizers::Tokenizer;
use vstd::prelude::*;

verus! {

pub const LLAMA_IS_GPTX: bool = true;

/// The longest sequence that a Llama model takes.
pub const MAX_SEQ_LEN: usize = 4096;

/// What the pipeline reads of a loaded Llama model of plain weights.
pub struct Llama {
    pub device: Device,
    pub kv_cache: Cache,
}

/// What the pipeline reads of a loaded Llama model with adapters.
pub struct XLoraLlama {
    pub device: Device,
    pub kv_cache: Cache,
}

/// A loaded Llama model: of plain weights, or with adapters.
pub enum Model {
    Normal(Llama),
    XLoraNormal(XLoraLlama),
}

/// The token that ends a turn in Llama 3 chats.
pub open spec fn eot_marker() -> Seq<char> {
    "<|eot_id|>"@
}

/// Where the files of a Llama model are.
pub struct LlamaModelPaths<P> {
    pub tokenizer_filename: P,
    pub config_filename: P,
    pub template_filename: P,
    pub filenames: Vec<P>,
    pub xlora_adapter_filenames: Option<Vec<(String, P)>>,
    pub xlora_adapter_configs: Option<Vec<(String, LoraConfig)>>,
    pub classifier_path: Option<P>,
    pub classifier_config: Option<XLoraConfig>,
    pub xlora_ordering: Option<AdapterOrdering>,
}

impl<P> ModelPaths<P> for LlamaModelPaths<P> {
    open spec fn resolved(&self) -> ResolvedPaths<P> {
        ResolvedPaths {
            tokenizer_filename: self.tokenizer_filename,
            config_filename: self.config_filename,
            template_filename: self.template_filename,
            filenames: self.filenames@,
            xlora_adapter_filenames: match self.xlora_adapter_filenames {
                Some(files) => Some(files@),
                None => None,
            },
            xlora_adapter_configs: match self.xlora_adapter_configs {
                Some(configs) => Some(configs@),
                None => None,
            },
            classifier_path: self.classifier_path,
            classifier_config: self.classifier_config,
            xlora_ordering: self.xlora_ordering,
        }
    }

    fn get_config_filename(&self) -> (r: &P) {
        &self.config_filename
    }

    fn get_tokenizer_filename(&self) -> (r: &P) {
        &self.tokenizer_filename
    }

    fn get_weight_filenames(&self) -> (r: &[P]) {
        self.filenames.as_slice()
    }

    fn get_adapter_filenames(&self) -> (r: &Option<Vec<(String, P)>>) {
        &self.xlora_adapter_filenames
    }

    fn get_adapter_configs(&self) -> (r: &Option<Vec<(String, LoraConfig)>>) {
        &self.xlora_adapter_configs
    }

    fn get_classifier_config(&self) -> (r: &Option<XLoraConfig>) {
        &self.classifier_config
    }

    fn get_classifier_path(&self) -> (r: &Option<P>) {
        &self.classifier_path
    }

    fn get_ordering(&self) -> (r: &Option<AdapterOrdering>) {
        &self.xlora_ordering
    }

    fn get_template_filename(&self) -> (r: &P) {
        &self.template_filename
    }
}

/// What a caller fixes for every Llama pipeline.
#[derive(Clone, Copy)]
pub struct LlamaSpecificConfig {
    pub repeat_last_n: usize,
    pub use_flash_attn: bool,
    pub gqa: usize,
}

/// What a Llama model is loaded by.
pub struct LlamaLoader {
    pub model_id: String,
    pub config: LlamaSpecificConfig,
    pub quantized_model_id: Option<String>,
    pub quantized_filename: Option<String>,
    pub xlora_model_id: Option<String>,
    pub kind: ModelKind,
    pub xlora_order: Option<AdapterOrdering>,
    pub no_kv_cache: bool,
    pub chat_template: Option<String>,
    pub tokenizer_json: Option<String>,
    pub tgt_non_granular_index: Option<usize>,
}

/// The pipeline of a Llama model.
pub struct LlamaPipeline {
    model: Model,
    tokenizer: Arc<Tokenizer>,
    tok_trie: TokTrie,
    config: LlamaSpecificConfig,
    no_kv_cache: bool,
    chat_template: ChatTemplate,
    non_granular_state: Option<NonGranularState>,
    model_id: String,
    is_lora: bool,
    eos_tok: Vec<u32>,
}

impl Model {
    /// Whether the model has adapters.
    pub open spec fn adapted(&self) -> bool {
        self is XLoraNormal
    }

    /// The device that the model lives on.
    pub open spec fn device_spec(&self) -> Device {
        match self {
            Model::Normal(model) => model.device,
            Model::XLoraNormal(model) => model.device,
        }
    }

    /// The cache of the model.
    pub open spec fn cache_spec(&self) -> Cache {
        match self {
            Model::Normal(model) => model.kv_cache,
            Model::XLoraNormal(model) => model.kv_cache,
        }
    }

    /// Whether the model is of the kind `kind`: plain weights for the plain
    /// kind, adapters for the two others.
    pub open spec fn fits(&self, kind: AdapterKind) -> bool {
        self.adapted() == !(kind is Plain)
    }
}

impl LlamaLoader {
    /// The loader of the model `model_id`, or, where no id is given, of the
    /// base model that the adapters' order names.
    #[allow(clippy::too_many_arguments)]
    pub fn new(
        model_id: Option<String>,
        config: LlamaSpecificConfig,
        quantized_model_id: Option<String>,
        quantized_filename: Option<String>,
        xlora_model_id: Option<String>,
        kind: ModelKind,
        xlora_order: Option<AdapterOrdering>,
        no_kv_cache: bool,
        chat_template: Option<String>,
        tokenizer_json: Option<String>,
        tgt_non_granular_index: Option<usize>,
    ) -> (r: Self)
        requires
            model_id is Some || xlora_order is Some,
        ensures
            r.model_id@ == match model_id {
                Some(id) => id@,
                None => xlora_order->Some_0.base_model_id@,
            },
            r.config == config,
            r.quantized_model_id == quantized_model_id,
            r.quantized_filename == quantized_filename,
            r.xlora_model_id == xlora_model_id,
            r.kind == kind,
            r.xlora_order == xlora_order,
            r.no_kv_cache == no_kv_cache,
            r.chat_template == chat_template,
            r.tokenizer_json == tokenizer_json,
            r.tgt_non_granular_index == tgt_non_granular_index,
    {
        let model_id = match model_id {
            Some(id) => id,
            None => match &xlora_order {
                Some(order) => order.base_model_id.clone(),
                None => String::new(),
            },
        };
        LlamaLoader {
            model_id,
            config,
            quantized_model_id,
            quantized_filename,
            xlora_model_id,
            kind,
            xlora_order,
            no_kv_cache,
            chat_template,
            tokenizer_json,
            tgt_non_granular_index,
        }
    }

    /// The id that the model is known by: that of its adapters where it has
    /// one, and its own otherwise.
    pub fn get_id(&self) -> (r: &str)
        ensures
            r@ == match self.xlora_model_id {
                Some(id) => id@,
                None => self.model_id@,
            },
    {
        match &self.xlora_model_id {
            Some(id) => id.as_str(),
            None => self.model_id.as_str(),
        }
    }

    /// The kind of model that the loader was asked for.
    pub fn get_kind(&self) -> (r: ModelKind)
        ensures
            r == self.kind,
    {
        self.kind
    }

    /// Decides what is to be loaded for the model: a Llama model is loaded
    /// with the classifier where it is X-LoRA, and without it where it is
    /// LoRA.
    pub fn _setup_model<'a, P, M: ModelPaths<P>>(
        &self,
        paths: &'a M,
        dtype: Option<DType>,
        device: &Device,
    ) -> (r: Result<ModelSetup<'a, P>, LoaderError>)
        ensures
            setup_view(r) == setup(self.kind, false, paths.resolved(), dtype, *device),
    {
        plan_setup(self.kind, false, paths, dtype, device)
    }

    /// The error that assembling a pipeline from these parts ends with, if
    /// any: the kind is one that the loader does not build, the model is not
    /// of the kind asked for, or the tokenizer does not fit the template.
    pub open spec fn pipeline_error(
        &self,
        model: Model,
        tokenizer: Tokenizer,
        chat_template: ChatTemplate,
    ) -> Option<LoaderError> {
        match self.kind.adapter_kind_spec() {
            None => Some(LoaderError::UnsupportedKind(self.kind)),
            Some(kind) => if !model.fits(kind) {
                Some(LoaderError::VariantMismatch)
            } else {
                assembly_error(tokenizer, chat_template)
            },
        }
    }

    /// Assembles the pipeline of a loaded model.
    ///
    /// The pipeline is X-LoRA exactly where the loader was asked for an
    /// X-LoRA model. Its end tokens are the end token of the chat template
    /// and, where the tokenizer knows it, the token that ends a turn in
    /// Llama 3 chats; its vocabulary is that of the tokenizer; the shared
    /// state of the model is there where a target was asked for, and counts
    /// from 0.
    pub fn build_pipeline(&self, model: Model, tokenizer: Tokenizer, chat_template: ChatTemplate) -> (r:
        Result<LlamaPipeline, LoaderError>)
        ensures
            match r {
                Ok(pipeline) => {
                    &&& self.pipeline_error(model, tokenizer, chat_template) is None
                    &&& pipeline.state() == (PipelineState {
                        adapted: model.adapted(),
                        is_lora: self.kind == ModelKind::LoraNormal,
                        no_kv_cache: self.no_kv_cache,
                        non_granular_state: match self.tgt_non_granular_index {
                            Some(tgt_non_granular_index) => Some(
                                NonGranularState { non_granular_index: 0, tgt_non_granular_index },
                            ),
                            None => None,
                        },
                        repeat_last_n: self.config.repeat_last_n,
                        max_seq_len: MAX_SEQ_LEN,
                        cache: model.cache_spec()@,
                        eos_tok: eos_ids(
                            tokenizer_ids(tokenizer),
                            chat_template.eos_token@,
                            seq![eot_marker()],
                        )->Some_0,
                        name: self.model_id@,
                        vocabulary: Vocabulary {
                            tok_eos: tokenizer_ids(tokenizer)[chat_template.eos_token@],
                            words: vocabulary_words(
                                tokenizer_tokens(tokenizer),
                                tokenizer_vocab_size(tokenizer, true) as nat,
                            ),
                        },
                        device: model.device_spec(),
                        tokenizer,
                        chat_template,
                    })
                    &&& pipeline.specific() == self.config
                    &&& pipeline.state().adapted && !pipeline.state().is_lora <==> self.kind
                        == ModelKind::XLoraNormal
                },
                Err(e) => self.pipeline_error(model, tokenizer, chat_template) == Some(e),
            },
    {
        let kind = match self.kind.adapter_kind() {
            Some(kind) => kind,
            None => {
                return Err(LoaderError::UnsupportedKind(self.kind));
            },
        };
        let adapted = match &model {
            Model::Normal(_) => false,
            Model::XLoraNormal(_) => true,
        };
        let (wants_adapters, is_lora) = match kind {
            AdapterKind::Plain => (false, false),
            AdapterKind::XLora => (true, false),
            AdapterKind::Lora => (true, true),
        };
        if adapted != wants_adapters {
            return Err(LoaderError::VariantMismatch);
        }
        let mut stop_tokens: Vec<String> = Vec::new();
        stop_tokens.push("<|eot_id|>".to_owned());
        let Assembly { eos_tok, tok_trie, non_granular_state } = match assemble(
            &tokenizer,
            &chat_template,
            &stop_tokens,
            self.tgt_non_granular_index,
        ) {
            Ok(parts) => parts,
            Err(e) => {
                return Err(e);
            },
        };
        proof {
            assert(crate::tokenizer::texts(stop_tokens@) =~= seq![eot_marker()]);
        }
        Ok(
            LlamaPipeline {
                model,
                tokenizer: Arc::new(tokenizer),
                tok_trie,
                config: self.config,
                no_kv_cache: self.no_kv_cache,
                chat_template,
                non_granular_state,
                model_id: self.model_id.clone(),
                is_lora,
                eos_tok,
            },
        )
    }
}

impl LlamaPipeline {
    /// What the caller fixed for the pipeline: beside the window of the
    /// penalties, whether the model uses flash attention and how its heads
    /// are grouped.
    pub closed spec fn specific(&self) -> LlamaSpecificConfig {
        self.config
    }

    /// What the caller fixed for the pipeline.
    pub fn config(&self) -> (r: LlamaSpecificConfig)
        ensures
            r == self.specific(),
    {
        self.config
    }
}

impl Pipeline for LlamaPipeline {
    closed spec fn state(&self) -> PipelineState {
        PipelineState {
            adapted: self.model.adapted(),
            is_lora: self.is_lora,
            no_kv_cache: self.no_kv_cache,
            non_granular_state: self.non_granular_state,
            repeat_last_n: self.config.repeat_last_n,
            max_seq_len: MAX_SEQ_LEN,
            cache: self.model.cache_spec()@,
            eos_tok: self.eos_tok@,
            name: self.model_id@,
            vocabulary: self.tok_trie@,
            device: self.model.device_spec(),
            tokenizer: *self.tokenizer,
            chat_template: self.chat_template,
        }
    }

    fn forward<C: Recognizer>(&mut self, input_toks: &[&Sequence<C>], is_prompt: bool) -> (r:
        Result<ForwardCall, ForwardError>)
        ensures
            final(self).specific() == old(self).specific(),
    {
        let adapted = match &self.model {
            Model::Normal(_) => false,
            Model::XLoraNormal(_) => true,
        };
        dispatch_forward(
            adapted,
            self.is_lora,
            self.no_kv_cache,
            &mut self.non_granular_state,
            input_toks,
            is_prompt,
        )
    }

    fn device(&self) -> (r: &Device) {
        match &self.model {
            Model::Normal(model) => &model.device,
            Model::XLoraNormal(model) => &model.device,
        }
    }

    fn num_hidden_layers(&self) -> (r: usize) {
        self.cache().len()
    }

    fn cache(&self) -> (r: &Cache) {
        match &self.model {
            Model::Normal(model) => &model.kv_cache,
            Model::XLoraNormal(model) => &model.kv_cache,
        }
    }

    fn update_cache(&mut self, layer: usize, kv: Option<(Tensor, Tensor)>)
        ensures
            final(self).specific() == old(self).specific(),
    {
        match &mut self.model {
            Model::Normal(model) => model.kv_cache.set(layer, kv),
            Model::XLoraNormal(model) => model.kv_cache.set(layer, kv),
        }
    }

    fn get_repeat_last_n(&self) -> (r: usize) {
        self.config.repeat_last_n
    }

    fn tokenizer(&self) -> (r: Arc<Tokenizer>) {
        share(&self.tokenizer)
    }

    fn eos_tok(&self) -> (r: &[u32]) {
        self.eos_tok.as_slice()
    }

    fn name(&self) -> (r: String) {
        self.model_id.clone()
    }

    fn get_max_seq_len(&self) -> (r: usize) {
        match &self.model {
            Model::Normal(_) | Model::XLoraNormal(_) => MAX_SEQ_LEN,
        }
    }

    fn is_xlora(&self) -> (r: bool) {
        match &self.model {
            Model::Normal(_) => false,
            Model::XLoraNormal(_) => !self.is_lora,
        }
    }

    fn has_no_kv_cache(&self) -> (r: bool) {
        self.no_kv_cache
    }

    fn get_chat_template(&self) -> (r: &ChatTemplate) {
        &self.chat_template
    }

    fn get_non_granular_state(&self) -> (r: &Option<NonGranularState>) {
        &self.non_granular_state
    }

    fn tok_trie(&self) -> (r: &TokTrie) {
        &self.tok_trie
    }
}

} // verus!

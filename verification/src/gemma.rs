//! The Gemma architecture: its configuration, the files of a Gemma model,
//! the loader's decisions, and the pipeline.

use crate::loader::{
    assemble, assembly_error, plan_setup, setup, setup_view, AdapterOrdering, Assembly,
    LoaderError, LoraConfig, ModelPaths, ModelSetup, ResolvedPaths, XLoraConfig,
};
use crate::pipeline::{
    dispatch_forward, share, AdapterKind, Cache, ChatTemplate, ForwardCall, ForwardError,
    ModelKind, NonGranularState, Pipeline, PipelineState,
};
use crate::recognizer::Recognizer;
use crate::sequence::Sequence;
use crate::tokenizer::{tokenizer_ids, tokenizer_tokens, tokenizer_vocab_size, vocabulary_words};
use crate::toktree::{TokTrie, Vocabulary};
use candle_core::{DType, Device, Tensor};
use candle_nn::Activation;
use std::sync::Arc;
use tokenizers::Tokenizer;
use vstd::prelude::*;

verus! {

/// `candle_nn::Activation`, carried through without a look inside.
#[verifier::external_type_specification]
#[verifier::external_body]
pub struct ExActivation(Activation);

pub const GEMMA_IS_GPTX: bool = true;

/// What the pipeline reads of a loaded Gemma model of plain weights.
pub struct NormalModel {
    pub device: Device,
    pub cache: Cache,
    pub max_seq_len: usize,
}

/// What the pipeline reads of a loaded Gemma model with adapters.
pub struct XLoraGemma {
    pub device: Device,
    pub cache: Cache,
    pub max_seq_len: usize,
}

/// A loaded Gemma model: of plain weights, or with adapters.
pub enum Model {
    Normal(NormalModel),
    XLoraNormal(XLoraGemma),
}

/// Where the files of a Gemma model are.
pub struct GemmaModelPaths<P> {
    pub tokenizer_filename: P,
    pub config_filename: P,
    pub template_filename: P,
    pub filenames: Vec<P>,
    pub xlora_adapter_filenames: Option<Vec<(String, P)>>,
    pub xlora_adapter_configs: Option<Vec<(String, LoraConfig)>>,
    pub classifier_path: Option<P>,
    pub classifier_config: Option<XLoraConfig>,
    pub xlora_ordering: Option<AdapterOrdering>,
}

impl<P> ModelPaths<P> for GemmaModelPaths<P> {
    open spec fn resolved(&self) -> ResolvedPaths<P> {
        ResolvedPaths {
            tokenizer_filename: self.tokenizer_filename,
            config_filename: self.config_filename,
            template_filename: self.template_filename,
            filenames: self.filenames@,
            xlora_adapter_filenames: match self.xlora_adapter_filenames {
                Some(files) => Some(files@),
                None => None,
            },
            xlora_adapter_configs: match self.xlora_adapter_configs {
                Some(configs) => Some(configs@),
                None => None,
            },
            classifier_path: self.classifier_path,
            classifier_config: self.classifier_config,
            xlora_ordering: self.xlora_ordering,
        }
    }

    fn get_config_filename(&self) -> (r: &P) {
        &self.config_filename
    }

    fn get_tokenizer_filename(&self) -> (r: &P) {
        &self.tokenizer_filename
    }

    fn get_weight_filenames(&self) -> (r: &[P]) {
        self.filenames.as_slice()
    }

    fn get_adapter_filenames(&self) -> (r: &Option<Vec<(String, P)>>) {
        &self.xlora_adapter_filenames
    }

    fn get_adapter_configs(&self) -> (r: &Option<Vec<(String, LoraConfig)>>) {
        &self.xlora_adapter_configs
    }

    fn get_classifier_config(&self) -> (r: &Option<XLoraConfig>) {
        &self.classifier_config
    }

    fn get_classifier_path(&self) -> (r: &Option<P>) {
        &self.classifier_path
    }

    fn get_ordering(&self) -> (r: &Option<AdapterOrdering>) {
        &self.xlora_ordering
    }

    fn get_template_filename(&self) -> (r: &P) {
        &self.template_filename
    }
}

/// What a caller fixes for every Gemma pipeline.
#[derive(Clone, Copy)]
pub struct GemmaSpecificConfig {
    pub repeat_last_n: usize,
}

/// The number of positions of a model whose configuration does not say.
pub fn default_max_position_embeddings() -> (r: usize)
    ensures
        r == 4096,
{
    4096
}

/// The configuration of a Gemma model as its file gives it. The two
/// floating-point fields are kept as the bits of their double-precision
/// values.
pub struct BasicConfig {
    pub attention_bias: bool,
    pub head_dim: usize,
    pub hidden_act: Option<Activation>,
    pub hidden_activation: Option<Activation>,
    pub hidden_size: usize,
    pub intermediate_size: usize,
    pub num_attention_heads: usize,
    pub num_hidden_layers: usize,
    pub num_key_value_heads: usize,
    pub rms_norm_eps: u64,
    pub rope_theta: u64,
    pub vocab_size: usize,
    /// `None` where the file does not say.
    pub max_position_embeddings: Option<usize>,
}

/// The configuration that a Gemma model is built from.
pub struct Config {
    pub attention_bias: bool,
    pub head_dim: usize,
    pub hidden_act: Option<Activation>,
    pub hidden_activation: Option<Activation>,
    pub hidden_size: usize,
    pub intermediate_size: usize,
    pub num_attention_heads: usize,
    pub num_hidden_layers: usize,
    pub num_key_value_heads: usize,
    pub rms_norm_eps: u64,
    pub rope_theta: u64,
    pub vocab_size: usize,
    pub max_position_embeddings: usize,
}

/// Why a configuration names no activation function.
#[derive(Clone, Copy, PartialEq, Eq, Debug)]
pub enum ConfigError {
    /// Neither of the two fields for the activation function is set.
    NoActivation,
}

impl BasicConfig {
    /// The configuration that the model is built from: every field as the
    /// file gives it, and 4096 positions where the file does not say.
    pub fn into_config(self) -> (r: Config)
        ensures
            r == (Config {
                attention_bias: self.attention_bias,
                head_dim: self.head_dim,
                hidden_act: self.hidden_act,
                hidden_activation: self.hidden_activation,
                hidden_size: self.hidden_size,
                intermediate_size: self.intermediate_size,
                num_attention_heads: self.num_attention_heads,
                num_hidden_layers: self.num_hidden_layers,
                num_key_value_heads: self.num_key_value_heads,
                rms_norm_eps: self.rms_norm_eps,
                rope_theta: self.rope_theta,
                vocab_size: self.vocab_size,
                max_position_embeddings: match self.max_position_embeddings {
                    Some(n) => n,
                    None => 4096,
                },
            }),
    {
        Config {
            attention_bias: self.attention_bias,
            head_dim: self.head_dim,
            hidden_act: self.hidden_act,
            hidden_activation: self.hidden_activation,
            hidden_size: self.hidden_size,
            intermediate_size: self.intermediate_size,
            num_attention_heads: self.num_attention_heads,
            num_hidden_layers: self.num_hidden_layers,
            num_key_value_heads: self.num_key_value_heads,
            rms_norm_eps: self.rms_norm_eps,
            rope_theta: self.rope_theta,
            vocab_size: self.vocab_size,
            max_position_embeddings: match self.max_position_embeddings {
                Some(n) => n,
                None => default_max_position_embeddings(),
            },
        }
    }
}

impl Config {
    /// The activation function: either of the two fields names it, the
    /// first where both are set.
    pub fn hidden_act(&self) -> (r: Result<Activation, ConfigError>)
        ensures
            r == match (self.hidden_act, self.hidden_activation) {
                (Some(act), _) => Ok::<Activation, ConfigError>(act),
                (None, Some(act)) => Ok(act),
                (None, None) => Err(ConfigError::NoActivation),
            },
    {
        match (self.hidden_act, self.hidden_activation) {
            (Some(act), _) => Ok(act),
            (None, Some(act)) => Ok(act),
            (None, None) => Err(ConfigError::NoActivation),
        }
    }
}

/// What a Gemma model is loaded by.
pub struct GemmaLoader {
    pub model_id: String,
    pub config: GemmaSpecificConfig,
    pub quantized_model_id: Option<String>,
    pub quantized_filename: Option<String>,
    pub xlora_model_id: Option<String>,
    pub kind: ModelKind,
    pub xlora_order: Option<AdapterOrdering>,
    pub no_kv_cache: bool,
    pub chat_template: Option<String>,
    pub tokenizer_json: Option<String>,
    pub tgt_non_granular_index: Option<usize>,
}

/// The pipeline of a Gemma model.
pub struct GemmaPipeline {
    model: Model,
    tokenizer: Arc<Tokenizer>,
    tok_trie: TokTrie,
    config: GemmaSpecificConfig,
    no_kv_cache: bool,
    chat_template: ChatTemplate,
    non_granular_state: Option<NonGranularState>,
    model_id: String,
    is_lora: bool,
    eos_tok: Vec<u32>,
}

impl Model {
    /// Whether the model has adapters.
    pub open spec fn adapted(&self) -> bool {
        self is XLoraNormal
    }

    /// The device that the model lives on.
    pub open spec fn device_spec(&self) -> Device {
        match self {
            Model::Normal(model) => model.device,
            Model::XLoraNormal(model) => model.device,
        }
    }

    /// The cache of the model.
    pub open spec fn cache_spec(&self) -> Cache {
        match self {
            Model::Normal(model) => model.cache,
            Model::XLoraNormal(model) => model.cache,
        }
    }

    /// The longest sequence that the model takes.
    pub open spec fn max_seq_len_spec(&self) -> usize {
        match self {
            Model::Normal(model) => model.max_seq_len,
            Model::XLoraNormal(model) => model.max_seq_len,
        }
    }

    /// Whether the model is of the kind `kind`: plain weights for the plain
    /// kind, adapters for the two others.
    pub open spec fn fits(&self, kind: AdapterKind) -> bool {
        self.adapted() == !(kind is Plain)
    }
}

impl GemmaLoader {
    /// The loader of the model `model_id`, or, where no id is given, of the
    /// base model that the adapters' order names.
    #[allow(clippy::too_many_arguments)]
    pub fn new(
        model_id: Option<String>,
        config: GemmaSpecificConfig,
        quantized_model_id: Option<String>,
        quantized_filename: Option<String>,
        xlora_model_id: Option<String>,
        kind: ModelKind,
        xlora_order: Option<AdapterOrdering>,
        no_kv_cache: bool,
        chat_template: Option<String>,
        tokenizer_json: Option<String>,
        tgt_non_granular_index: Option<usize>,
    ) -> (r: Self)
        requires
            model_id is Some || xlora_order is Some,
        ensures
            r.model_id@ == match model_id {
                Some(id) => id@,
                None => xlora_order->Some_0.base_model_id@,
            },
            r.config == config,
            r.quantized_model_id == quantized_model_id,
            r.quantized_filename == quantized_filename,
            r.xlora_model_id == xlora_model_id,
            r.kind == kind,
            r.xlora_order == xlora_order,
            r.no_kv_cache == no_kv_cache,
            r.chat_template == chat_template,
            r.tokenizer_json == tokenizer_json,
            r.tgt_non_granular_index == tgt_non_granular_index,
    {
        let model_id = match model_id {
            Some(id) => id,
            None => match &xlora_order {
                Some(order) => order.base_model_id.clone(),
                None => String::new(),
            },
        };
        GemmaLoader {
            model_id,
            config,
            quantized_model_id,
            quantized_filename,
            xlora_model_id,
            kind,
            xlora_order,
            no_kv_cache,
            chat_template,
            tokenizer_json,
            tgt_non_granular_index,
        }
    }

    /// The id that the model is known by: that of its adapters where it has
    /// one, and its own otherwise.
    pub fn get_id(&self) -> (r: &str)
        ensures
            r@ == match self.xlora_model_id {
                Some(id) => id@,
                None => self.model_id@,
            },
    {
        match &self.xlora_model_id {
            Some(id) => id.as_str(),
            None => self.model_id.as_str(),
        }
    }

    /// The kind of model that the loader was asked for.
    pub fn get_kind(&self) -> (r: ModelKind)
        ensures
            r == self.kind,
    {
        self.kind
    }

    /// Decides what is to be loaded for the model: a Gemma model with
    /// adapters is loaded with the classifier, whether X-LoRA or LoRA.
    pub fn _setup_model<'a, P, M: ModelPaths<P>>(
        &self,
        paths: &'a M,
        dtype: Option<DType>,
        device: &Device,
    ) -> (r: Result<ModelSetup<'a, P>, LoaderError>)
        ensures
            setup_view(r) == setup(self.kind, true, paths.resolved(), dtype, *device),
    {
        plan_setup(self.kind, true, paths, dtype, device)
    }

    /// The error that assembling a pipeline from these parts ends with, if
    /// any: the kind is one that the loader does not build, the model is not
    /// of the kind asked for, or the tokenizer does not fit the template.
    pub open spec fn pipeline_error(
        &self,
        model: Model,
        tokenizer: Tokenizer,
        chat_template: ChatTemplate,
    ) -> Option<LoaderError> {
        match self.kind.adapter_kind_spec() {
            None => Some(LoaderError::UnsupportedKind(self.kind)),
            Some(kind) => if !model.fits(kind) {
                Some(LoaderError::VariantMismatch)
            } else {
                assembly_error(tokenizer, chat_template)
            },
        }
    }

    /// Assembles the pipeline of a loaded model.
    ///
    /// The pipeline is X-LoRA exactly where the loader was asked for an
    /// X-LoRA model. Its end tokens are the end token of the chat template;
    /// its vocabulary is that of the tokenizer; the shared state of the
    /// model is there where a target was asked for, and counts from 0.
    pub fn build_pipeline(&self, model: Model, tokenizer: Tokenizer, chat_template: ChatTemplate) -> (r:
        Result<GemmaPipeline, LoaderError>)
        ensures
            match r {
                Ok(pipeline) => {
                    &&& self.pipeline_error(model, tokenizer, chat_template) is None
                    &&& pipeline.state() == (PipelineState {
                        adapted: model.adapted(),
                        is_lora: self.kind == ModelKind::LoraNormal,
                        no_kv_cache: self.no_kv_cache,
                        non_granular_state: match self.tgt_non_granular_index {
                            Some(tgt_non_granular_index) => Some(
                                NonGranularState { non_granular_index: 0, tgt_non_granular_index },
                            ),
                            None => None,
                        },
                        repeat_last_n: self.config.repeat_last_n,
                        max_seq_len: model.max_seq_len_spec(),
                        cache: model.cache_spec()@,
                        eos_tok: seq![tokenizer_ids(tokenizer)[chat_template.eos_token@]],
                        name: self.model_id@,
                        vocabulary: Vocabulary {
                            tok_eos: tokenizer_ids(tokenizer)[chat_template.eos_token@],
                            words: vocabulary_words(
                                tokenizer_tokens(tokenizer),
                                tokenizer_vocab_size(tokenizer, true) as nat,
                            ),
                        },
                        device: model.device_spec(),
                        tokenizer,
                        chat_template,
                    })
                    &&& pipeline.state().adapted && !pipeline.state().is_lora <==> self.kind
                        == ModelKind::XLoraNormal
                },
                Err(e) => self.pipeline_error(model, tokenizer, chat_template) == Some(e),
            },
    {
        let kind = match self.kind.adapter_kind() {
            Some(kind) => kind,
            None => {
                return Err(LoaderError::UnsupportedKind(self.kind));
            },
        };
        let adapted = match &model {
            Model::Normal(_) => false,
            Model::XLoraNormal(_) => true,
        };
        let (wants_adapters, is_lora) = match kind {
            AdapterKind::Plain => (false, false),
            AdapterKind::XLora => (true, false),
            AdapterKind::Lora => (true, true),
        };
        if adapted != wants_adapters {
            return Err(LoaderError::VariantMismatch);
        }
        let stop_tokens: Vec<String> = Vec::new();
        let Assembly { eos_tok, tok_trie, non_granular_state } = match assemble(
            &tokenizer,
            &chat_template,
            &stop_tokens,
            self.tgt_non_granular_index,
        ) {
            Ok(parts) => parts,
            Err(e) => {
                return Err(e);
            },
        };
        Ok(
            GemmaPipeline {
                model,
                tokenizer: Arc::new(tokenizer),
                tok_trie,
                config: self.config,
                no_kv_cache: self.no_kv_cache,
                chat_template,
                non_granular_state,
                model_id: self.model_id.clone(),
                is_lora,
                eos_tok,
            },
        )
    }
}

impl Pipeline for GemmaPipeline {
    closed spec fn state(&self) -> PipelineState {
        PipelineState {
            adapted: self.model.adapted(),
            is_lora: self.is_lora,
            no_kv_cache: self.no_kv_cache,
            non_granular_state: self.non_granular_state,
            repeat_last_n: self.config.repeat_last_n,
            max_seq_len: self.model.max_seq_len_spec(),
            cache: self.model.cache_spec()@,
            eos_tok: self.eos_tok@,
            name: self.model_id@,
            vocabulary: self.tok_trie@,
            device: self.model.device_spec(),
            tokenizer: *self.tokenizer,
            chat_template: self.chat_template,
        }
    }

    fn forward<C: Recognizer>(&mut self, input_toks: &[&Sequence<C>], is_prompt: bool) -> (r:
        Result<ForwardCall, ForwardError>) {
        let adapted = match &self.model {
            Model::Normal(_) => false,
            Model::XLoraNormal(_) => true,
        };
        dispatch_forward(
            adapted,
            self.is_lora,
            self.no_kv_cache,
            &mut self.non_granular_state,
            input_toks,
            is_prompt,
        )
    }

    fn device(&self) -> (r: &Device) {
        match &self.model {
            Model::Normal(model) => &model.device,
            Model::XLoraNormal(model) => &model.device,
        }
    }

    fn num_hidden_layers(&self) -> (r: usize) {
        self.cache().len()
    }

    fn cache(&self) -> (r: &Cache) {
        match &self.model {
            Model::Normal(model) => &model.cache,
            Model::XLoraNormal(model) => &model.cache,
        }
    }

    fn update_cache(&mut self, layer: usize, kv: Option<(Tensor, Tensor)>) {
        match &mut self.model {
            Model::Normal(model) => model.cache.set(layer, kv),
            Model::XLoraNormal(model) => model.cache.set(layer, kv),
        }
    }

    fn get_repeat_last_n(&self) -> (r: usize) {
        self.config.repeat_last_n
    }

    fn tokenizer(&self) -> (r: Arc<Tokenizer>) {
        share(&self.tokenizer)
    }

    fn eos_tok(&self) -> (r: &[u32]) {
        self.eos_tok.as_slice()
    }

    fn name(&self) -> (r: String) {
        self.model_id.clone()
    }

    fn get_max_seq_len(&self) -> (r: usize) {
        match &self.model {
            Model::Normal(model) => model.max_seq_len,
            Model::XLoraNormal(model) => model.max_seq_len,
        }
    }

    fn is_xlora(&self) -> (r: bool) {
        match &self.model {
            Model::Normal(_) => false,
            Model::XLoraNormal(_) => !self.is_lora,
        }
    }

    fn has_no_kv_cache(&self) -> (r: bool) {
        self.no_kv_cache
    }

    fn get_chat_template(&self) -> (r: &ChatTemplate) {
        &self.chat_template
    }

    fn get_non_granular_state(&self) -> (r: &Option<NonGranularState>) {
        &self.non_granular_state
    }

    fn tok_trie(&self) -> (r: &TokTrie) {
        &self.tok_trie
    }
}

} // verus!

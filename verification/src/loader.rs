//! What the loaders of every architecture share: the files of a model, the
//! decisions that setting a model up takes, and what a pipeline is assembled
//! from once the model and its tokenizer are loaded.

use crate::pipeline::{AdapterKind, ChatTemplate, ModelKind, NonGranularState};
use crate::tokenizer::{
    build_tok_trie, calculate_eos_tok, eos_ids, texts, tokenizer_ids, tokenizer_tokens,
    tokenizer_vocab_size, vocabulary_words,
};
use crate::toktree::TokTrie;
use candle_core::{DType, Device};
use tokenizers::Tokenizer;
use vstd::prelude::*;

verus! {

/// The order of the adapters of a model, and the model that they adapt.
pub struct AdapterOrdering {
    pub base_model_id: String,
    pub adapters: Vec<String>,
}

/// The configuration of one LoRA adapter. The scaling factor and the dropout
/// rate are kept as the bits of their floating-point values.
pub struct LoraConfig {
    pub rank: usize,
    pub alpha: u64,
    pub dropout: Option<u32>,
    pub target_modules: Vec<String>,
}

/// The configuration of the classifier that scales the adapters of an X-LoRA
/// model. The softmax temperature is kept as the bits of its floating-point
/// value.
pub struct XLoraConfig {
    pub hidden_size: usize,
    pub base_model_id: String,
    pub xlora_depth: usize,
    pub xlora_size: usize,
    pub layerwise_scalings: bool,
    pub enable_softmax: bool,
    pub softmax_temperature: u64,
    pub top_k_lora: Option<usize>,
}

/// Where the files of a model are, as mathematical values.
pub struct ResolvedPaths<P> {
    pub tokenizer_filename: P,
    pub config_filename: P,
    pub template_filename: P,
    pub filenames: Seq<P>,
    pub xlora_adapter_filenames: Option<Seq<(String, P)>>,
    pub xlora_adapter_configs: Option<Seq<(String, LoraConfig)>>,
    pub classifier_path: Option<P>,
    pub classifier_config: Option<XLoraConfig>,
    pub xlora_ordering: Option<AdapterOrdering>,
}

/// Where the files of a model are.
pub trait ModelPaths<P> {
    /// The places as mathematical values.
    spec fn resolved(&self) -> ResolvedPaths<P>;

    /// The file of the architecture's configuration.
    fn get_config_filename(&self) -> (r: &P)
        ensures
            *r == self.resolved().config_filename,
    ;

    /// The file of the tokenizer.
    fn get_tokenizer_filename(&self) -> (r: &P)
        ensures
            *r == self.resolved().tokenizer_filename,
    ;

    /// The files of the base weights.
    fn get_weight_filenames(&self) -> (r: &[P])
        ensures
            r@ == self.resolved().filenames,
    ;

    /// The files of the adapters, by the adapters' names.
    fn get_adapter_filenames(&self) -> (r: &Option<Vec<(String, P)>>)
        ensures
            match *r {
                Some(files) => Some(files@),
                None => None,
            } == self.resolved().xlora_adapter_filenames,
    ;

    /// The configurations of the adapters, by the adapters' names.
    fn get_adapter_configs(&self) -> (r: &Option<Vec<(String, LoraConfig)>>)
        ensures
            match *r {
                Some(configs) => Some(configs@),
                None => None,
            } == self.resolved().xlora_adapter_configs,
    ;

    /// The configuration of the classifier.
    fn get_classifier_config(&self) -> (r: &Option<XLoraConfig>)
        ensures
            *r == self.resolved().classifier_config,
    ;

    /// The file of the classifier's weights.
    fn get_classifier_path(&self) -> (r: &Option<P>)
        ensures
            *r == self.resolved().classifier_path,
    ;

    /// The order of the adapters.
    fn get_ordering(&self) -> (r: &Option<AdapterOrdering>)
        ensures
            *r == self.resolved().xlora_ordering,
    ;

    /// The file of the chat template.
    fn get_template_filename(&self) -> (r: &P)
        ensures
            *r == self.resolved().template_filename,
    ;
}

/// Why a model could not be set up.
#[derive(Clone, Copy, PartialEq, Eq, Debug)]
pub enum LoaderError {
    /// The loader does not build models of this kind.
    UnsupportedKind(ModelKind),
    /// A model with adapters was asked for and the file of the classifier's
    /// weights is not among the paths.
    MissingClassifierPath,
    /// A model with adapters was asked for and the files of the adapters are
    /// not among the paths.
    MissingAdapterFilenames,
    /// A model with adapters was asked for and the configurations of the
    /// adapters are not among the paths.
    MissingAdapterConfigs,
    /// A model with adapters was asked for and the configuration of the
    /// classifier is not among the paths.
    MissingClassifierConfig,
    /// A model with adapters was asked for and the order of the adapters is
    /// not among the paths.
    MissingOrdering,
    /// The model that was loaded is not of the kind that was asked for.
    VariantMismatch,
    /// The tokenizer does not know the end token of the chat template.
    UnknownEosToken,
    /// The end token is not within the tokenizer's vocabulary, or the
    /// vocabulary has more tokens than ids of 32 bits.
    EosOutsideVocabulary,
}

/// The precision that a model is loaded in: the one asked for, or else
/// reduced precision on a CUDA device and single precision elsewhere.
pub open spec fn resolved_dtype(dtype: Option<DType>, device: Device) -> DType {
    match dtype {
        Some(dtype) => dtype,
        None => if device is Cuda {
            DType::BF16
        } else {
            DType::F32
        },
    }
}

/// The precision that a model is loaded in, as `resolved_dtype` says.
pub fn resolve_dtype(dtype: Option<DType>, device: &Device) -> (r: DType)
    ensures
        r == resolved_dtype(dtype, *device),
{
    match dtype {
        Some(dtype) => dtype,
        None => if device.is_cuda() {
            DType::BF16
        } else {
            DType::F32
        },
    }
}

/// What is to be loaded for a model: of which kind it is, in which
/// precision, and from which files.
pub struct ModelSetup<'a, P> {
    pub kind: AdapterKind,
    pub dtype: DType,
    /// The files of the weights: the base weights and, where the classifier
    /// is loaded, its weights after them.
    pub weight_files: Vec<&'a P>,
    /// The files of the adapters, in the order of the paths.
    pub adapter_files: Vec<&'a P>,
    pub adapter_configs: Option<&'a Vec<(String, LoraConfig)>>,
    pub classifier_config: Option<&'a XLoraConfig>,
    pub ordering: Option<&'a AdapterOrdering>,
}

/// A `ModelSetup` as mathematical values.
pub struct ModelSetupView<P> {
    pub kind: AdapterKind,
    pub dtype: DType,
    pub weight_files: Seq<P>,
    pub adapter_files: Seq<P>,
    pub adapter_configs: Option<Seq<(String, LoraConfig)>>,
    pub classifier_config: Option<XLoraConfig>,
    pub ordering: Option<AdapterOrdering>,
}

impl<'a, P> View for ModelSetup<'a, P> {
    type V = ModelSetupView<P>;

    open spec fn view(&self) -> ModelSetupView<P> {
        ModelSetupView {
            kind: self.kind,
            dtype: self.dtype,
            weight_files: Seq::new(self.weight_files@.len(), |i: int| *self.weight_files@[i]),
            adapter_files: Seq::new(self.adapter_files@.len(), |i: int| *self.adapter_files@[i]),
            adapter_configs: match self.adapter_configs {
                Some(configs) => Some(configs@),
                None => None,
            },
            classifier_config: match self.classifier_config {
                Some(config) => Some(*config),
                None => None,
            },
            ordering: match self.ordering {
                Some(ordering) => Some(*ordering),
                None => None,
            },
        }
    }
}

/// Whether a model of kind `kind` is loaded with the classifier.
pub open spec fn takes_classifier(kind: AdapterKind, lora_takes_classifier: bool) -> bool {
    kind is XLora || (kind is Lora && lora_takes_classifier)
}

/// What is to be loaded for a model of kind `kind` whose files are at
/// `paths`.
///
/// The quantized kinds are refused. A plain model takes the base weights and
/// nothing else. A model with adapters takes the files and configurations of
/// the adapters and their order, and, where it is loaded with the
/// classifier, the classifier's weights after the base weights and its
/// configuration; the first of these that the paths lack is the error.
pub open spec fn setup<P>(
    kind: ModelKind,
    lora_takes_classifier: bool,
    paths: ResolvedPaths<P>,
    dtype: Option<DType>,
    device: Device,
) -> Result<ModelSetupView<P>, LoaderError> {
    match kind.adapter_kind_spec() {
        None => Err(LoaderError::UnsupportedKind(kind)),
        Some(AdapterKind::Plain) => Ok(
            ModelSetupView {
                kind: AdapterKind::Plain,
                dtype: resolved_dtype(dtype, device),
                weight_files: paths.filenames,
                adapter_files: Seq::empty(),
                adapter_configs: None,
                classifier_config: None,
                ordering: None,
            },
        ),
        Some(adapter_kind) => {
            let with_classifier = takes_classifier(adapter_kind, lora_takes_classifier);
            if with_classifier && paths.classifier_path is None {
                Err(LoaderError::MissingClassifierPath)
            } else if paths.xlora_adapter_filenames is None {
                Err(LoaderError::MissingAdapterFilenames)
            } else if paths.xlora_adapter_configs is None {
                Err(LoaderError::MissingAdapterConfigs)
            } else if with_classifier && paths.classifier_config is None {
                Err(LoaderError::MissingClassifierConfig)
            } else if paths.xlora_ordering is None {
                Err(LoaderError::MissingOrdering)
            } else {
                Ok(
                    ModelSetupView {
                        kind: adapter_kind,
                        dtype: resolved_dtype(dtype, device),
                        weight_files: if with_classifier {
                            paths.filenames.push(paths.classifier_path->Some_0)
                        } else {
                            paths.filenames
                        },
                        adapter_files: Seq::new(
                            paths.xlora_adapter_filenames->Some_0.len(),
                            |i: int| paths.xlora_adapter_filenames->Some_0[i].1,
                        ),
                        adapter_configs: paths.xlora_adapter_configs,
                        classifier_config: if with_classifier {
                            paths.classifier_config
                        } else {
                            None
                        },
                        ordering: paths.xlora_ordering,
                    },
                )
            }
        },
    }
}

/// The view of the outcome of planning.
pub open spec fn setup_view<'a, P>(r: Result<ModelSetup<'a, P>, LoaderError>) -> Result<
    ModelSetupView<P>,
    LoaderError,
> {
    match r {
        Ok(setup) => Ok(setup@),
        Err(e) => Err(e),
    }
}

/// Decides what is to be loaded for a model of kind `kind`, as `setup` says.
pub fn plan_setup<'a, P, M: ModelPaths<P>>(
    kind: ModelKind,
    lora_takes_classifier: bool,
    paths: &'a M,
    dtype: Option<DType>,
    device: &Device,
) -> (r: Result<ModelSetup<'a, P>, LoaderError>)
    ensures
        setup_view(r) == setup(kind, lora_takes_classifier, paths.resolved(), dtype, *device),
{
    let adapter_kind = match kind.adapter_kind() {
        Some(adapter_kind) => adapter_kind,
        None => {
            return Err(LoaderError::UnsupportedKind(kind));
        },
    };
    let dtype = resolve_dtype(dtype, device);
    let filenames = paths.get_weight_filenames();
    let mut weight_files: Vec<&'a P> = Vec::new();
    let mut i: usize = 0;
    while i < filenames.len()
        invariant
            i <= filenames@.len(),
            weight_files@.len() == i,
            forall|k: int| 0 <= k < i ==> *(#[trigger] weight_files@[k]) == filenames@[k],
        decreases filenames@.len() - i,
    {
        weight_files.push(&filenames[i]);
        i += 1;
    }
    let with_classifier = match adapter_kind {
        AdapterKind::Plain => {
            let plain = ModelSetup {
                kind: AdapterKind::Plain,
                dtype,
                weight_files,
                adapter_files: Vec::new(),
                adapter_configs: None,
                classifier_config: None,
                ordering: None,
            };
            proof {
                assert(plain@.weight_files =~= paths.resolved().filenames);
                assert(plain@.adapter_files =~= Seq::<P>::empty());
            }
            return Ok(plain);
        },
        AdapterKind::XLora => true,
        AdapterKind::Lora => lora_takes_classifier,
    };
    if with_classifier {
        match paths.get_classifier_path() {
            Some(path) => weight_files.push(path),
            None => {
                return Err(LoaderError::MissingClassifierPath);
            },
        }
    }
    let adapter_filenames = match paths.get_adapter_filenames() {
        Some(files) => files,
        None => {
            return Err(LoaderError::MissingAdapterFilenames);
        },
    };
    let adapter_configs = match paths.get_adapter_configs() {
        Some(configs) => configs,
        None => {
            return Err(LoaderError::MissingAdapterConfigs);
        },
    };
    let classifier_config = if with_classifier {
        match paths.get_classifier_config() {
            Some(config) => Some(config),
            None => {
                return Err(LoaderError::MissingClassifierConfig);
            },
        }
    } else {
        None
    };
    let ordering = match paths.get_ordering() {
        Some(ordering) => ordering,
        None => {
            return Err(LoaderError::MissingOrdering);
        },
    };
    let mut adapter_files: Vec<&'a P> = Vec::new();
    let mut j: usize = 0;
    while j < adapter_filenames.len()
        invariant
            j <= adapter_filenames@.len(),
            adapter_files@.len() == j,
            forall|k: int| 0 <= k < j ==> *(#[trigger] adapter_files@[k]) == adapter_filenames@[k].1,
        decreases adapter_filenames@.len() - j,
    {
        adapter_files.push(&adapter_filenames[j].1);
        j += 1;
    }
    let planned = ModelSetup {
        kind: adapter_kind,
        dtype,
        weight_files,
        adapter_files,
        adapter_configs: Some(adapter_configs),
        classifier_config,
        ordering: Some(ordering),
    };
    proof {
        let files = paths.resolved().xlora_adapter_filenames->Some_0;
        assert(planned@.weight_files =~= if with_classifier {
            paths.resolved().filenames.push(paths.resolved().classifier_path->Some_0)
        } else {
            paths.resolved().filenames
        });
        assert(planned@.adapter_files =~= Seq::new(files.len(), |i: int| files[i].1));
    }
    Ok(planned)
}

/// What a pipeline holds beside its model, its tokenizer and its template.
pub struct Assembly {
    pub eos_tok: Vec<u32>,
    pub tok_trie: TokTrie,
    pub non_granular_state: Option<NonGranularState>,
}

/// Whether a pipeline can be assembled, and the error where it cannot: the
/// tokenizer must know the end token of the chat template, and the id of
/// that token must lie within a vocabulary whose ids fit in 32 bits.
pub open spec fn assembly_error(tokenizer: Tokenizer, chat_template: ChatTemplate) -> Option<
    LoaderError,
> {
    let ids = tokenizer_ids(tokenizer);
    if !ids.contains_key(chat_template.eos_token@) {
        Some(LoaderError::UnknownEosToken)
    } else if !(ids[chat_template.eos_token@] < tokenizer_vocab_size(tokenizer, true) <= u32::MAX) {
        Some(LoaderError::EosOutsideVocabulary)
    } else {
        None
    }
}

/// Derives what a pipeline holds beside its model: the ids of the tokens
/// that end a text (that of the chat template's end token first, then those
/// of the `stop_tokens` that the tokenizer knows), the vocabulary with the
/// template's end token as its own, and, where a target was asked for, the
/// shared state of an X-LoRA model before its first forward pass.
pub fn assemble(
    tokenizer: &Tokenizer,
    chat_template: &ChatTemplate,
    stop_tokens: &Vec<String>,
    tgt_non_granular_index: Option<usize>,
) -> (r: Result<Assembly, LoaderError>)
    ensures
        match r {
            Ok(parts) => {
                &&& assembly_error(*tokenizer, *chat_template) is None
                &&& Some(parts.eos_tok@) == eos_ids(
                    tokenizer_ids(*tokenizer),
                    chat_template.eos_token@,
                    texts(stop_tokens@),
                )
                &&& parts.tok_trie@.tok_eos == tokenizer_ids(*tokenizer)[chat_template.eos_token@]
                &&& parts.tok_trie@.words == vocabulary_words(
                    tokenizer_tokens(*tokenizer),
                    tokenizer_vocab_size(*tokenizer, true) as nat,
                )
                &&& parts.non_granular_state == match tgt_non_granular_index {
                    Some(tgt_non_granular_index) => Some(
                        NonGranularState { non_granular_index: 0, tgt_non_granular_index },
                    ),
                    None => None,
                }
            },
            Err(e) => assembly_error(*tokenizer, *chat_template) == Some(e),
        },
{
    let eos_tok = match calculate_eos_tok(chat_template.eos_token.as_str(), stop_tokens, tokenizer) {
        Some(ids) => ids,
        None => {
            return Err(LoaderError::UnknownEosToken);
        },
    };
    let tok_trie = match build_tok_trie(tokenizer, eos_tok[0]) {
        Some(trie) => trie,
        None => {
            return Err(LoaderError::EosOutsideVocabulary);
        },
    };
    let non_granular_state = match tgt_non_granular_index {
        Some(tgt_non_granular_index) => Some(NonGranularState::new(tgt_non_granular_index)),
        None => None,
    };
    Ok(Assembly { eos_tok, tok_trie, non_granular_state })
}

} // verus!

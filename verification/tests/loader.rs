use candle_core::{DType, Device};
use candle_nn::Activation;
use mistralrs_core::gemma::{
    default_max_position_embeddings, BasicConfig, ConfigError, GemmaLoader, GemmaModelPaths,
    GemmaSpecificConfig, NormalModel, XLoraGemma,
};
use mistralrs_core::llama::{Llama, LlamaLoader, LlamaModelPaths, LlamaSpecificConfig, XLoraLlama};
use mistralrs_core::loader::{
    assemble, resolve_dtype, AdapterOrdering, LoaderError, LoraConfig, ModelPaths, XLoraConfig,
};
use mistralrs_core::pipeline::{AdapterKind, Cache, ChatTemplate, ModelKind, NonGranularState, Pipeline};
use mistralrs_core::tokenizer::{
    build_tok_trie, calculate_eos_tok, collect_eos_tok, tok_trie_of_tokens,
};
use std::collections::HashMap;
use std::path::PathBuf;
use tokenizers::models::wordlevel::WordLevel;
use tokenizers::{AddedToken, Tokenizer};

fn vocab_tokenizer(tokens: &[&str]) -> Tokenizer {
    let vocab: HashMap<String, u32> =
        tokens.iter().enumerate().map(|(id, token)| (token.to_string(), id as u32)).collect();
    let model = WordLevel::builder()
        .vocab(vocab)
        .unk_token("<unk>".to_string())
        .build()
        .expect("a word-level model");
    Tokenizer::new(model)
}

fn chat_template(eos: &str) -> ChatTemplate {
    ChatTemplate {
        bos_token: "<s>".to_string(),
        eos_token: eos.to_string(),
        unk_token: None,
        chat_template: Some("{{ messages }}".to_string()),
    }
}

fn lora_config() -> LoraConfig {
    LoraConfig {
        rank: 8,
        alpha: 16f64.to_bits(),
        dropout: None,
        target_modules: vec!["q_proj".to_string()],
    }
}

fn classifier() -> XLoraConfig {
    XLoraConfig {
        hidden_size: 4096,
        base_model_id: "base".to_string(),
        xlora_depth: 1,
        xlora_size: 2048,
        layerwise_scalings: true,
        enable_softmax: true,
        softmax_temperature: 1f64.to_bits(),
        top_k_lora: None,
    }
}

fn order() -> AdapterOrdering {
    AdapterOrdering {
        base_model_id: "base/model".to_string(),
        adapters: vec!["first".to_string(), "second".to_string()],
    }
}

fn plain_paths() -> GemmaModelPaths<PathBuf> {
    GemmaModelPaths {
        tokenizer_filename: PathBuf::from("tokenizer.json"),
        config_filename: PathBuf::from("config.json"),
        template_filename: PathBuf::from("tokenizer_config.json"),
        filenames: vec![PathBuf::from("w0.safetensors"), PathBuf::from("w1.safetensors")],
        xlora_adapter_filenames: None,
        xlora_adapter_configs: None,
        classifier_path: None,
        classifier_config: None,
        xlora_ordering: None,
    }
}

fn adapter_paths() -> GemmaModelPaths<PathBuf> {
    GemmaModelPaths {
        xlora_adapter_filenames: Some(vec![
            ("first".to_string(), PathBuf::from("a0.safetensors")),
            ("second".to_string(), PathBuf::from("a1.safetensors")),
        ]),
        xlora_adapter_configs: Some(vec![
            ("first".to_string(), lora_config()),
            ("second".to_string(), lora_config()),
        ]),
        classifier_path: Some(PathBuf::from("classifier.safetensors")),
        classifier_config: Some(classifier()),
        xlora_ordering: Some(order()),
        ..plain_paths()
    }
}

fn as_llama(paths: GemmaModelPaths<PathBuf>) -> LlamaModelPaths<PathBuf> {
    LlamaModelPaths {
        tokenizer_filename: paths.tokenizer_filename,
        config_filename: paths.config_filename,
        template_filename: paths.template_filename,
        filenames: paths.filenames,
        xlora_adapter_filenames: paths.xlora_adapter_filenames,
        xlora_adapter_configs: paths.xlora_adapter_configs,
        classifier_path: paths.classifier_path,
        classifier_config: paths.classifier_config,
        xlora_ordering: paths.xlora_ordering,
    }
}

fn gemma_loader(kind: ModelKind) -> GemmaLoader {
    GemmaLoader::new(
        Some("google/gemma".to_string()),
        GemmaSpecificConfig { repeat_last_n: 64 },
        None,
        None,
        None,
        kind,
        None,
        false,
        None,
        None,
        None,
    )
}

fn llama_loader(kind: ModelKind, target: Option<usize>) -> LlamaLoader {
    LlamaLoader::new(
        Some("meta/llama".to_string()),
        LlamaSpecificConfig { repeat_last_n: 64, use_flash_attn: true, gqa: 8 },
        None,
        None,
        None,
        kind,
        None,
        true,
        None,
        None,
        target,
    )
}

fn names(files: &[&PathBuf]) -> Vec<String> {
    files.iter().map(|f| f.to_string_lossy().into_owned()).collect()
}

fn plain_llama() -> mistralrs_core::llama::Model {
    mistralrs_core::llama::Model::Normal(Llama { device: Device::Cpu, kv_cache: Cache::new(4) })
}

fn adapted_llama() -> mistralrs_core::llama::Model {
    mistralrs_core::llama::Model::XLoraNormal(XLoraLlama {
        device: Device::Cpu,
        kv_cache: Cache::new(4),
    })
}

#[test]
fn loader_takes_its_id_or_that_of_the_base_model() {
    let named = gemma_loader(ModelKind::Normal);
    assert_eq!(named.model_id, "google/gemma");
    assert_eq!(named.get_id(), "google/gemma");
    assert_eq!(named.get_kind(), ModelKind::Normal);
    assert_eq!(named.config.repeat_last_n, 64);
    let adapted = GemmaLoader::new(
        None,
        GemmaSpecificConfig { repeat_last_n: 16 },
        Some("quantized".to_string()),
        Some("model.gguf".to_string()),
        Some("lamm/x-lora".to_string()),
        ModelKind::XLoraNormal,
        Some(order()),
        true,
        Some("template".to_string()),
        Some("tokenizer.json".to_string()),
        Some(5),
    );
    assert_eq!(adapted.model_id, "base/model");
    assert_eq!(adapted.get_id(), "lamm/x-lora");
    assert_eq!(adapted.get_kind(), ModelKind::XLoraNormal);
    assert_eq!(adapted.quantized_model_id.as_deref(), Some("quantized"));
    assert_eq!(adapted.quantized_filename.as_deref(), Some("model.gguf"));
    assert_eq!(adapted.chat_template.as_deref(), Some("template"));
    assert_eq!(adapted.tokenizer_json.as_deref(), Some("tokenizer.json"));
    assert_eq!(adapted.tgt_non_granular_index, Some(5));
    assert!(adapted.no_kv_cache);
    assert_eq!(adapted.xlora_order.map(|o| o.adapters), Some(vec!["first".to_string(), "second".to_string()]));
    let llama = LlamaLoader::new(
        Some("meta/llama".to_string()),
        LlamaSpecificConfig { repeat_last_n: 64, use_flash_attn: true, gqa: 8 },
        None,
        None,
        None,
        ModelKind::LoraNormal,
        Some(order()),
        false,
        None,
        None,
        None,
    );
    assert_eq!(llama.model_id, "meta/llama");
    assert_eq!(llama.get_id(), "meta/llama");
    assert_eq!(llama.get_kind(), ModelKind::LoraNormal);
    assert!(llama.config.use_flash_attn);
    assert_eq!(llama.config.gqa, 8);
}

#[test]
fn paths_hand_out_what_they_hold() {
    let paths = adapter_paths();
    assert_eq!(paths.get_config_filename(), &PathBuf::from("config.json"));
    assert_eq!(paths.get_tokenizer_filename(), &PathBuf::from("tokenizer.json"));
    assert_eq!(paths.get_template_filename(), &PathBuf::from("tokenizer_config.json"));
    assert_eq!(paths.get_weight_filenames().len(), 2);
    assert_eq!(paths.get_weight_filenames()[1], PathBuf::from("w1.safetensors"));
    assert_eq!(paths.get_adapter_filenames().as_ref().map(|f| f.len()), Some(2));
    assert_eq!(paths.get_adapter_configs().as_ref().map(|c| c[0].1.rank), Some(8));
    assert_eq!(paths.get_classifier_path(), &Some(PathBuf::from("classifier.safetensors")));
    assert_eq!(paths.get_classifier_config().as_ref().map(|c| c.xlora_size), Some(2048));
    assert_eq!(paths.get_ordering().as_ref().map(|o| o.adapters.len()), Some(2));
    let llama = as_llama(plain_paths());
    assert_eq!(llama.get_config_filename(), &PathBuf::from("config.json"));
    assert_eq!(llama.get_tokenizer_filename(), &PathBuf::from("tokenizer.json"));
    assert_eq!(llama.get_template_filename(), &PathBuf::from("tokenizer_config.json"));
    assert_eq!(llama.get_weight_filenames().len(), 2);
    assert!(llama.get_adapter_filenames().is_none());
    assert!(llama.get_adapter_configs().is_none());
    assert!(llama.get_classifier_path().is_none());
    assert!(llama.get_classifier_config().is_none());
    assert!(llama.get_ordering().is_none());
}

#[test]
fn precision_is_the_one_asked_for_or_single_on_the_cpu() {
    assert_eq!(resolve_dtype(None, &Device::Cpu), DType::F32);
    assert_eq!(resolve_dtype(Some(DType::F16), &Device::Cpu), DType::F16);
    assert_eq!(resolve_dtype(Some(DType::BF16), &Device::Cpu), DType::BF16);
    assert_eq!(resolve_dtype(Some(DType::F64), &Device::Cpu), DType::F64);
}

#[test]
fn plain_model_is_set_up_from_its_base_weights() {
    let paths = plain_paths();
    let loader = gemma_loader(ModelKind::Normal);
    let setup = loader._setup_model(&paths, None, &Device::Cpu).ok().expect("a plain model");
    assert_eq!(setup.kind, AdapterKind::Plain);
    assert_eq!(setup.dtype, DType::F32);
    assert_eq!(names(&setup.weight_files), vec!["w0.safetensors", "w1.safetensors"]);
    assert!(setup.adapter_files.is_empty());
    assert!(setup.adapter_configs.is_none());
    assert!(setup.classifier_config.is_none());
    assert!(setup.ordering.is_none());
    let with_adapters = adapter_paths();
    let setup = loader
        ._setup_model(&with_adapters, Some(DType::F16), &Device::Cpu)
        .ok()
        .expect("a plain model");
    assert_eq!(setup.dtype, DType::F16);
    assert_eq!(names(&setup.weight_files), vec!["w0.safetensors", "w1.safetensors"]);
    assert!(setup.adapter_files.is_empty());
}

#[test]
fn adapted_gemma_is_set_up_with_the_classifier() {
    let paths = adapter_paths();
    for (kind, adapter_kind) in
        [(ModelKind::XLoraNormal, AdapterKind::XLora), (ModelKind::LoraNormal, AdapterKind::Lora)]
    {
        let loader = gemma_loader(kind);
        let setup = loader._setup_model(&paths, None, &Device::Cpu).ok().expect("adapters");
        assert_eq!(setup.kind, adapter_kind);
        assert_eq!(
            names(&setup.weight_files),
            vec!["w0.safetensors", "w1.safetensors", "classifier.safetensors"]
        );
        assert_eq!(names(&setup.adapter_files), vec!["a0.safetensors", "a1.safetensors"]);
        assert_eq!(setup.adapter_configs.map(|c| c.len()), Some(2));
        assert_eq!(setup.classifier_config.map(|c| c.hidden_size), Some(4096));
        assert_eq!(setup.ordering.map(|o| o.base_model_id.clone()), Some("base/model".to_string()));
    }
}

#[test]
fn lora_llama_is_set_up_without_the_classifier() {
    let paths = as_llama(adapter_paths());
    let xlora = llama_loader(ModelKind::XLoraNormal, None);
    let setup = xlora._setup_model(&paths, None, &Device::Cpu).ok().expect("adapters");
    assert_eq!(setup.kind, AdapterKind::XLora);
    assert_eq!(
        names(&setup.weight_files),
        vec!["w0.safetensors", "w1.safetensors", "classifier.safetensors"]
    );
    assert!(setup.classifier_config.is_some());
    let lora = llama_loader(ModelKind::LoraNormal, None);
    let setup = lora._setup_model(&paths, None, &Device::Cpu).ok().expect("adapters");
    assert_eq!(setup.kind, AdapterKind::Lora);
    assert_eq!(names(&setup.weight_files), vec!["w0.safetensors", "w1.safetensors"]);
    assert_eq!(names(&setup.adapter_files), vec!["a0.safetensors", "a1.safetensors"]);
    assert!(setup.classifier_config.is_none());
    assert!(setup.ordering.is_some());
    let mut bare = as_llama(adapter_paths());
    bare.classifier_path = None;
    bare.classifier_config = None;
    assert!(lora._setup_model(&bare, None, &Device::Cpu).is_ok());
    assert_eq!(
        xlora._setup_model(&bare, None, &Device::Cpu).err(),
        Some(LoaderError::MissingClassifierPath)
    );
}

#[test]
fn quantized_kinds_are_refused() {
    let paths = adapter_paths();
    for kind in [
        ModelKind::QuantizedGGUF,
        ModelKind::QuantizedGGML,
        ModelKind::XLoraGGUF,
        ModelKind::XLoraGGML,
        ModelKind::LoraGGUF,
        ModelKind::LoraGGML,
    ] {
        assert_eq!(kind.adapter_kind(), None);
        let gemma = gemma_loader(kind);
        assert_eq!(
            gemma._setup_model(&paths, None, &Device::Cpu).err(),
            Some(LoaderError::UnsupportedKind(kind))
        );
        let llama = llama_loader(kind, None);
        assert_eq!(
            llama._setup_model(&as_llama(adapter_paths()), None, &Device::Cpu).err(),
            Some(LoaderError::UnsupportedKind(kind))
        );
        let tokenizer = vocab_tokenizer(&["<unk>", "</s>"]);
        assert_eq!(
            llama.build_pipeline(plain_llama(), tokenizer, chat_template("</s>")).err(),
            Some(LoaderError::UnsupportedKind(kind))
        );
    }
    assert_eq!(ModelKind::Normal.adapter_kind(), Some(AdapterKind::Plain));
    assert_eq!(ModelKind::XLoraNormal.adapter_kind(), Some(AdapterKind::XLora));
    assert_eq!(ModelKind::LoraNormal.adapter_kind(), Some(AdapterKind::Lora));
}

#[test]
fn adapted_model_is_refused_without_its_files() {
    let loader = gemma_loader(ModelKind::XLoraNormal);
    let error = |paths: &GemmaModelPaths<PathBuf>| {
        loader._setup_model(paths, None, &Device::Cpu).err()
    };
    assert_eq!(error(&plain_paths()), Some(LoaderError::MissingClassifierPath));
    let mut paths = adapter_paths();
    paths.xlora_ordering = None;
    assert_eq!(error(&paths), Some(LoaderError::MissingOrdering));
    paths.classifier_config = None;
    assert_eq!(error(&paths), Some(LoaderError::MissingClassifierConfig));
    paths.xlora_adapter_configs = None;
    assert_eq!(error(&paths), Some(LoaderError::MissingAdapterConfigs));
    paths.xlora_adapter_filenames = None;
    assert_eq!(error(&paths), Some(LoaderError::MissingAdapterFilenames));
    paths.classifier_path = None;
    assert_eq!(error(&paths), Some(LoaderError::MissingClassifierPath));
}

#[test]
fn eos_ids_hold_the_template_token_and_the_known_stop_tokens() {
    let tokenizer = vocab_tokenizer(&["<unk>", "a", "</s>", "<|eot_id|>", "<|end|>"]);
    let stops = vec!["<|eot_id|>".to_string(), "<|missing|>".to_string(), "<|end|>".to_string()];
    assert_eq!(calculate_eos_tok("</s>", &stops, &tokenizer), Some(vec![2, 3, 4]));
    assert_eq!(calculate_eos_tok("</s>", &Vec::new(), &tokenizer), Some(vec![2]));
    assert_eq!(calculate_eos_tok("<|end|>", &stops[..1].to_vec(), &tokenizer), Some(vec![4, 3]));
    assert_eq!(calculate_eos_tok("<eos>", &stops, &tokenizer), None);
    let without = vocab_tokenizer(&["<unk>", "a", "</s>"]);
    assert_eq!(calculate_eos_tok("</s>", &stops, &without), Some(vec![2]));
}

#[test]
fn eos_ids_find_added_tokens() {
    let mut tokenizer = vocab_tokenizer(&["<unk>", "a", "</s>"]);
    assert_eq!(tokenizer.add_special_tokens(&[AddedToken::from("<|eot_id|>", true)]), 1);
    let stops = vec!["<|eot_id|>".to_string()];
    assert_eq!(calculate_eos_tok("</s>", &stops, &tokenizer), Some(vec![2, 3]));
    let trie = build_tok_trie(&tokenizer, 3).expect("the added token ends a text");
    assert_eq!(trie.vocab_size(), 4);
    assert_eq!(trie.eos_token(), 3);
    assert_eq!(trie.token(3), b"<|eot_id|>");
}

#[test]
fn vocabulary_spells_every_token_as_the_tokenizer_does() {
    let tokenizer = vocab_tokenizer(&["<unk>", "a", "</s>", "h\u{e9}", "\u{2581}the"]);
    let trie = build_tok_trie(&tokenizer, 2).expect("token 2 is in the vocabulary");
    assert_eq!(trie.vocab_size(), 5);
    assert_eq!(trie.eos_token(), 2);
    assert_eq!(trie.token(0), b"<unk>");
    assert_eq!(trie.token(1), b"a");
    assert_eq!(trie.token(2), b"</s>");
    assert_eq!(trie.token(3), "h\u{e9}".as_bytes());
    assert_eq!(trie.token(3), &[0x68, 0xc3, 0xa9]);
    assert_eq!(trie.token(4), &[0xe2, 0x96, 0x81, b't', b'h', b'e']);
    assert!(build_tok_trie(&tokenizer, 5).is_none());
    assert!(build_tok_trie(&tokenizer, 4).is_some());
}

#[test]
fn vocabulary_of_given_tokens_leaves_missing_ids_empty() {
    let tokens = vec![
        Some("a".to_string()),
        None,
        Some("\u{2581}the".to_string()),
        Some(String::new()),
        Some("</s>".to_string()),
    ];
    let trie = tok_trie_of_tokens(&tokens, 4).expect("token 4 is among them");
    assert_eq!(trie.vocab_size(), 5);
    assert_eq!(trie.eos_token(), 4);
    assert_eq!(trie.token(0), b"a");
    assert_eq!(trie.token(1), b"");
    assert_eq!(trie.token(2), &[0xe2, 0x96, 0x81, b't', b'h', b'e']);
    assert_eq!(trie.token(3), b"");
    assert_eq!(trie.token(4), b"</s>");
    assert!(tok_trie_of_tokens(&tokens, 5).is_none());
    assert!(tok_trie_of_tokens(&tokens, 0).is_some());
    assert!(tok_trie_of_tokens(&Vec::new(), 0).is_none());
}

#[test]
fn end_tokens_are_the_template_token_and_the_stop_tokens_found() {
    assert_eq!(collect_eos_tok(Some(2), &vec![Some(7), None, Some(2), Some(9)]), Some(vec![2, 7, 2, 9]));
    assert_eq!(collect_eos_tok(Some(0), &vec![None, None]), Some(vec![0]));
    assert_eq!(collect_eos_tok(Some(5), &Vec::new()), Some(vec![5]));
    assert_eq!(collect_eos_tok(None, &vec![Some(7)]), None);
    assert_eq!(collect_eos_tok(None, &Vec::new()), None);
}

#[test]
fn assembly_derives_end_tokens_vocabulary_and_shared_state() {
    let tokenizer = vocab_tokenizer(&["<unk>", "a", "</s>", "<|eot_id|>"]);
    let stops = vec!["<|eot_id|>".to_string()];
    let parts = assemble(&tokenizer, &chat_template("</s>"), &stops, Some(9)).ok().expect("fits");
    assert_eq!(parts.eos_tok, vec![2, 3]);
    assert_eq!(parts.tok_trie.eos_token(), 2);
    assert_eq!(parts.tok_trie.vocab_size(), 4);
    assert_eq!(parts.tok_trie.token(1), b"a");
    assert_eq!(
        parts.non_granular_state,
        Some(NonGranularState { non_granular_index: 0, tgt_non_granular_index: 9 })
    );
    let parts = assemble(&tokenizer, &chat_template("a"), &Vec::new(), None).ok().expect("fits");
    assert_eq!(parts.eos_tok, vec![1]);
    assert_eq!(parts.tok_trie.eos_token(), 1);
    assert_eq!(parts.non_granular_state, None);
    assert_eq!(
        assemble(&tokenizer, &chat_template("<eos>"), &stops, None).err(),
        Some(LoaderError::UnknownEosToken)
    );
    let sparse = {
        let vocab: HashMap<String, u32> =
            [("<unk>".to_string(), 0u32), ("</s>".to_string(), 7u32)].into_iter().collect();
        Tokenizer::new(
            WordLevel::builder()
                .vocab(vocab)
                .unk_token("<unk>".to_string())
                .build()
                .expect("a word-level model"),
        )
    };
    assert_eq!(
        assemble(&sparse, &chat_template("</s>"), &stops, None).err(),
        Some(LoaderError::EosOutsideVocabulary)
    );
}

#[test]
fn llama_pipeline_ends_on_the_turn_marker_where_the_tokenizer_knows_it() {
    let loader = llama_loader(ModelKind::Normal, None);
    let llama3 = vocab_tokenizer(&["<unk>", "<|end_of_text|>", "x", "<|eot_id|>"]);
    let pipeline = loader
        .build_pipeline(plain_llama(), llama3, chat_template("<|end_of_text|>"))
        .ok()
        .expect("assembled");
    assert_eq!(pipeline.eos_tok(), &[1, 3]);
    assert_eq!(pipeline.tok_trie().eos_token(), 1);
    let llama2 = vocab_tokenizer(&["<unk>", "<s>", "</s>"]);
    let pipeline =
        loader.build_pipeline(plain_llama(), llama2, chat_template("</s>")).ok().expect("assembled");
    assert_eq!(pipeline.eos_tok(), &[2]);
    let gemma = gemma_loader(ModelKind::Normal);
    let with_marker = vocab_tokenizer(&["<unk>", "<eos>", "x", "<|eot_id|>"]);
    let model = mistralrs_core::gemma::Model::Normal(NormalModel {
        device: Device::Cpu,
        cache: Cache::new(1),
        max_seq_len: 16,
    });
    let pipeline =
        gemma.build_pipeline(model, with_marker, chat_template("<eos>")).ok().expect("assembled");
    assert_eq!(pipeline.eos_tok(), &[1]);
}

#[test]
fn pipeline_is_refused_where_the_parts_do_not_fit() {
    let tokenizer = || vocab_tokenizer(&["<unk>", "<s>", "</s>"]);
    let plain = llama_loader(ModelKind::Normal, None);
    assert_eq!(
        plain.build_pipeline(adapted_llama(), tokenizer(), chat_template("</s>")).err(),
        Some(LoaderError::VariantMismatch)
    );
    for kind in [ModelKind::XLoraNormal, ModelKind::LoraNormal] {
        let adapted = llama_loader(kind, Some(1));
        assert_eq!(
            adapted.build_pipeline(plain_llama(), tokenizer(), chat_template("</s>")).err(),
            Some(LoaderError::VariantMismatch)
        );
        assert!(adapted.build_pipeline(adapted_llama(), tokenizer(), chat_template("</s>")).is_ok());
    }
    assert_eq!(
        plain.build_pipeline(plain_llama(), tokenizer(), chat_template("<|end|>")).err(),
        Some(LoaderError::UnknownEosToken)
    );
    assert_eq!(
        plain.build_pipeline(adapted_llama(), tokenizer(), chat_template("<|end|>")).err(),
        Some(LoaderError::VariantMismatch)
    );
    let gemma = gemma_loader(ModelKind::LoraNormal);
    let model = mistralrs_core::gemma::Model::XLoraNormal(XLoraGemma {
        device: Device::Cpu,
        cache: Cache::new(1),
        max_seq_len: 16,
    });
    let pipeline = gemma.build_pipeline(model, tokenizer(), chat_template("</s>")).ok().expect("fits");
    assert!(!pipeline.is_xlora());
    assert_eq!(pipeline.get_non_granular_state(), &None);
}

#[test]
fn configuration_defaults_to_4096_positions() {
    assert_eq!(default_max_position_embeddings(), 4096);
    let basic = |max_position_embeddings| BasicConfig {
        attention_bias: false,
        head_dim: 256,
        hidden_act: None,
        hidden_activation: Some(Activation::Gelu),
        hidden_size: 3072,
        intermediate_size: 24576,
        num_attention_heads: 16,
        num_hidden_layers: 28,
        num_key_value_heads: 16,
        rms_norm_eps: 1e-6f64.to_bits(),
        rope_theta: 10000f64.to_bits(),
        vocab_size: 256000,
        max_position_embeddings,
    };
    let config = basic(None).into_config();
    assert_eq!(config.max_position_embeddings, 4096);
    assert_eq!(config.head_dim, 256);
    assert_eq!(config.hidden_size, 3072);
    assert_eq!(config.intermediate_size, 24576);
    assert_eq!(config.num_attention_heads, 16);
    assert_eq!(config.num_hidden_layers, 28);
    assert_eq!(config.num_key_value_heads, 16);
    assert_eq!(config.vocab_size, 256000);
    assert!(!config.attention_bias);
    assert_eq!(f64::from_bits(config.rms_norm_eps), 1e-6);
    assert_eq!(f64::from_bits(config.rope_theta), 10000.0);
    assert_eq!(config.hidden_act(), Ok(Activation::Gelu));
    assert_eq!(basic(Some(8192)).into_config().max_position_embeddings, 8192);
}

#[test]
fn activation_comes_from_either_field() {
    let with = |hidden_act, hidden_activation| {
        BasicConfig {
            attention_bias: true,
            head_dim: 1,
            hidden_act,
            hidden_activation,
            hidden_size: 1,
            intermediate_size: 1,
            num_attention_heads: 1,
            num_hidden_layers: 1,
            num_key_value_heads: 1,
            rms_norm_eps: 0,
            rope_theta: 0,
            vocab_size: 1,
            max_position_embeddings: Some(1),
        }
        .into_config()
        .hidden_act()
    };
    assert_eq!(with(Some(Activation::Silu), None), Ok(Activation::Silu));
    assert_eq!(with(None, Some(Activation::NewGelu)), Ok(Activation::NewGelu));
    assert_eq!(with(Some(Activation::Relu), Some(Activation::Gelu)), Ok(Activation::Relu));
    assert_eq!(with(None, None), Err(ConfigError::NoActivation));
}

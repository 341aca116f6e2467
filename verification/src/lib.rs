//! Decode-time core of a local language-model server: grammar-constrained
//! and speculative sampling decisions, and the pipeline that addresses plain,
//! LoRA and X-LoRA models through one interface.
//!
//! - `recognizer`, `automaton`: what a grammar admits, and a recognizer for
//!   regular grammars.
//! - `toktree`: the vocabulary, and the tokens that a recognizer admits.
//! - `sequence`, `sampler`: a sequence under generation and what a sampling
//!   decision yields.
//! - `sampling`, `logits`: the constrained and the speculative decode step.
//! - `inputs`, `pipeline`: the inputs and the dispatch of a forward pass, and
//!   the contract of a pipeline.
//! - `loader`, `gemma`, `llama`: setting a pipeline up, for each architecture.
//! - `tensor`, `tokenizer`: the tensor library and the tokenizer library as
//!   far as the crate relies on them.
//!
//! Nothing here draws a sample, runs a model or reads a file: the decisions
//! are made on plain values, and the caller does what they ask for.

pub mod automaton;
pub mod gemma;
pub mod inputs;
pub mod llama;
pub mod loader;
pub mod logits;
pub mod pipeline;
pub mod recognizer;
pub mod sampler;
pub mod sampling;
pub mod sequence;
pub mod tensor;
pub mod tokenizer;
pub mod toktree;
mod trie;

//! How a sequence is sampled, and what one sampling decision yields.

use vstd::prelude::*;

verus! {

/// How the tokens of a sequence are drawn. The temperature, the nucleus
/// mass and the penalties are kept as the bits of their floating-point values
/// (double precision for the first two, single for the penalties).
#[derive(Clone, Copy, Debug, PartialEq, Eq)]
pub struct SamplingParams {
    pub temperature: Option<u64>,
    pub top_n_logprobs: usize,
    pub top_k: Option<usize>,
    pub top_p: Option<u64>,
    pub frequency_penalty: Option<u32>,
    pub presence_penalty: Option<u32>,
}

/// One of the likeliest tokens at a position. The log-probability is kept
/// as the bits of its single-precision value.
#[derive(Clone, Debug, PartialEq, Eq)]
pub struct TopLogprob {
    pub token: u32,
    pub logprob: u32,
    pub bytes: String,
}

/// The outcome of one sampling decision: the token chosen and, where they
/// were asked for, the likeliest alternatives. The log-probability is kept as
/// the bits of its single-precision value.
#[derive(Clone, Debug, PartialEq, Eq)]
pub struct Logprobs {
    pub token: u32,
    pub logprob: u32,
    pub bytes: String,
    pub top_logprobs: Option<Vec<TopLogprob>>,
}

/// The tokens of a list of sampling outcomes, in order.
pub open spec fn tokens_of(sampled: Seq<Logprobs>) -> Seq<u32> {
    Seq::new(sampled.len(), |i: int| sampled[i].token)
}

} // verus!

//! The decode steps: from the samples that a sampler draws to the token that
//! a sequence accepts under its grammar.
//!
//! Drawing a sample is the caller's work. The functions here decide: they
//! take what has happened (a step begins, a sample was drawn) and say what is
//! to happen next (draw a sample, the step has ended with this outcome).

use crate::recognizer::{Recognizer, RecognizerState};
use crate::sampler::{tokens_of, Logprobs};
use crate::sequence::{advance, advance_all, repeat_context, token_valid, Sequence};
use crate::toktree::{any_allowed, TokTrie, TokenSet, Vocabulary};
use vstd::prelude::*;

verus! {

/// Why a decode step ended without a token.
#[derive(Clone, Copy, PartialEq, Eq, Debug)]
pub enum DecodeError {
    /// The grammar admits no token of the vocabulary.
    NoValidToken,
    /// The token drawn from the biased logits is not one the grammar admits.
    InvalidToken { token: u32 },
    /// Something happened that the step was not waiting for.
    OutOfOrder,
}

/// Where a decode step stands.
#[derive(Clone, Copy, PartialEq, Eq, Debug)]
pub enum DecodeState {
    /// The step has not begun.
    Start,
    /// A sample from the plain logits is awaited.
    AwaitTentative,
    /// A sample from the biased logits is awaited.
    AwaitCorrective,
    /// The step has ended.
    Finished,
}

/// What has happened.
pub enum DecodeEvent {
    /// Logits for the sequence are at hand.
    Begin,
    /// The sampler has drawn.
    Sampled(Logprobs),
}

/// A request to draw one sample.
pub struct SampleRequest {
    /// The recent tokens, for the sampler's penalties.
    pub context: Vec<u32>,
    /// Where given, the tokens that the draw is confined to: the logits of
    /// all others are to be lowered to negative infinity first.
    pub allowed: Option<TokenSet>,
    pub return_logprobs: bool,
    /// Whether the draw is to be handed to the worker pool.
    pub use_async_pool: bool,
}

/// A `SampleRequest` as mathematical values.
pub struct SampleRequestView {
    pub context: Seq<u32>,
    pub allowed: Option<Seq<bool>>,
    pub return_logprobs: bool,
    pub use_async_pool: bool,
}

impl View for SampleRequest {
    type V = SampleRequestView;

    open spec fn view(&self) -> SampleRequestView {
        SampleRequestView {
            context: self.context@,
            allowed: match self.allowed {
                Some(set) => Some(set@),
                None => None,
            },
            return_logprobs: self.return_logprobs,
            use_async_pool: self.use_async_pool,
        }
    }
}

/// What is to happen next in a decode step.
pub enum DecodeAction {
    /// Draw a sample and report it.
    Sample(SampleRequest),
    /// The step has ended: this is the accepted outcome.
    Accept(Logprobs),
    /// The step has ended without a token.
    Fail(DecodeError),
}

/// A `DecodeAction` as mathematical values.
pub enum DecodeActionView {
    Sample(SampleRequestView),
    Accept(Logprobs),
    Fail(DecodeError),
}

impl View for DecodeAction {
    type V = DecodeActionView;

    open spec fn view(&self) -> DecodeActionView {
        match self {
            DecodeAction::Sample(request) => DecodeActionView::Sample(request@),
            DecodeAction::Accept(logprobs) => DecodeActionView::Accept(*logprobs),
            DecodeAction::Fail(error) => DecodeActionView::Fail(*error),
        }
    }
}

/// The request for a draw from the plain logits.
pub open spec fn plain_request(
    context: Seq<u32>,
    return_logprobs: bool,
    use_async_pool: bool,
) -> SampleRequestView {
    SampleRequestView { context, allowed: None, return_logprobs, use_async_pool }
}

/// The request for a draw confined to the tokens that the grammar admits.
pub open spec fn biased_request(
    context: Seq<u32>,
    allowed: Seq<bool>,
    return_logprobs: bool,
    use_async_pool: bool,
) -> SampleRequestView {
    SampleRequestView { context, allowed: Some(allowed), return_logprobs, use_async_pool }
}

/// One transition of a decode step: from where the step stands, what has
/// happened and the state of the grammar constraint, to where the step
/// stands next, what is to happen next and the new state of the constraint.
///
/// A tentative sample that the grammar admits is accepted as it is and the
/// constraint advances by its token. One that it refuses is never accepted:
/// a draw confined to the admitted tokens is asked for, or the step fails
/// where no token is admitted. The corrective sample is accepted if the
/// grammar admits it, and the step fails otherwise.
pub open spec fn decode_step(
    state: DecodeState,
    event: DecodeEvent,
    recognizer: Option<RecognizerState>,
    vocab: Vocabulary,
    context: Seq<u32>,
    return_logprobs: bool,
    use_async_pool: bool,
) -> (DecodeState, DecodeActionView, Option<RecognizerState>) {
    match (state, event) {
        (DecodeState::Start, DecodeEvent::Begin) => (
            DecodeState::AwaitTentative,
            DecodeActionView::Sample(plain_request(context, return_logprobs, use_async_pool)),
            recognizer,
        ),
        (DecodeState::AwaitTentative, DecodeEvent::Sampled(sampled)) => {
            if token_valid(vocab, recognizer, sampled.token) {
                (
                    DecodeState::Finished,
                    DecodeActionView::Accept(sampled),
                    advance(vocab, recognizer, sampled.token),
                )
            } else {
                let allowed = vocab.valid_tokens(recognizer->Some_0);
                if any_allowed(allowed) {
                    (
                        DecodeState::AwaitCorrective,
                        DecodeActionView::Sample(
                            biased_request(context, allowed, return_logprobs, use_async_pool),
                        ),
                        recognizer,
                    )
                } else {
                    (
                        DecodeState::Finished,
                        DecodeActionView::Fail(DecodeError::NoValidToken),
                        recognizer,
                    )
                }
            }
        },
        (DecodeState::AwaitCorrective, DecodeEvent::Sampled(sampled)) => {
            if token_valid(vocab, recognizer, sampled.token) {
                (
                    DecodeState::Finished,
                    DecodeActionView::Accept(sampled),
                    advance(vocab, recognizer, sampled.token),
                )
            } else {
                (
                    DecodeState::Finished,
                    DecodeActionView::Fail(DecodeError::InvalidToken { token: sampled.token }),
                    recognizer,
                )
            }
        },
        _ => (DecodeState::Finished, DecodeActionView::Fail(DecodeError::OutOfOrder), recognizer),
    }
}

/// Takes one transition of the decode step of `seq`, as `decode_step`
/// describes it. The tokens of the sequence are not touched: the caller
/// appends the accepted token.
pub fn sample_sequence<C: Recognizer>(
    state: DecodeState,
    event: DecodeEvent,
    seq: &mut Sequence<C>,
    return_logprobs: bool,
    repeat_last_n: usize,
    tok_trie: &TokTrie,
    use_async_pool: bool,
) -> (r: (DecodeState, DecodeAction))
    requires
        old(seq).wf(),
    ensures
        final(seq).wf(),
        final(seq).tokens() == old(seq).tokens(),
        final(seq).sampling() == old(seq).sampling(),
        (r.0, r.1@, final(seq).recognizer()) == decode_step(
            state,
            event,
            old(seq).recognizer(),
            tok_trie@,
            repeat_context(old(seq).tokens(), repeat_last_n),
            return_logprobs,
            use_async_pool,
        ),
{
    match (state, event) {
        (DecodeState::Start, DecodeEvent::Begin) => {
            let request = SampleRequest {
                context: seq.repeat_window(repeat_last_n),
                allowed: None,
                return_logprobs,
                use_async_pool,
            };
            (DecodeState::AwaitTentative, DecodeAction::Sample(request))
        },
        (DecodeState::AwaitTentative, DecodeEvent::Sampled(sampled)) => {
            if seq.is_unconstrained() {
                return (DecodeState::Finished, DecodeAction::Accept(sampled));
            }
            if seq.advance_recognizer(tok_trie, sampled.token) {
                return (DecodeState::Finished, DecodeAction::Accept(sampled));
            }
            match seq.valid_tokens(tok_trie) {
                Some(allowed) => {
                    if allowed.is_empty() {
                        (DecodeState::Finished, DecodeAction::Fail(DecodeError::NoValidToken))
                    } else {
                        let request = SampleRequest {
                            context: seq.repeat_window(repeat_last_n),
                            allowed: Some(allowed),
                            return_logprobs,
                            use_async_pool,
                        };
                        (DecodeState::AwaitCorrective, DecodeAction::Sample(request))
                    }
                },
                None => (DecodeState::Finished, DecodeAction::Fail(DecodeError::OutOfOrder)),
            }
        },
        (DecodeState::AwaitCorrective, DecodeEvent::Sampled(sampled)) => {
            if seq.advance_recognizer(tok_trie, sampled.token) {
                (DecodeState::Finished, DecodeAction::Accept(sampled))
            } else {
                (
                    DecodeState::Finished,
                    DecodeAction::Fail(DecodeError::InvalidToken { token: sampled.token }),
                )
            }
        },
        _ => (DecodeState::Finished, DecodeAction::Fail(DecodeError::OutOfOrder)),
    }
}

/// A token that a decode step accepts is one that the grammar admitted in
/// the state it had before the step, and the constraint has advanced by that
/// token and no other.
pub proof fn lemma_accepted_token_is_valid(
    state: DecodeState,
    event: DecodeEvent,
    recognizer: Option<RecognizerState>,
    vocab: Vocabulary,
    context: Seq<u32>,
    return_logprobs: bool,
    use_async_pool: bool,
)
    ensures
        ({
            let next = decode_step(
                state,
                event,
                recognizer,
                vocab,
                context,
                return_logprobs,
                use_async_pool,
            );
            match next.1 {
                DecodeActionView::Accept(accepted) => {
                    &&& event == DecodeEvent::Sampled(accepted)
                    &&& token_valid(vocab, recognizer, accepted.token)
                    &&& recognizer matches Some(before) ==> vocab.token_valid(
                        before,
                        accepted.token,
                    )
                    &&& next.2 == advance(vocab, recognizer, accepted.token)
                },
                _ => next.2 == recognizer,
            }
        }),
{
}

/// Without a grammar constraint a decode step hands the sampler's plain
/// choice back unchanged: it asks for no second draw, cannot fail on the
/// sample, and there is no constraint afterwards either.
pub proof fn lemma_unconstrained_passes_through(
    state: DecodeState,
    event: DecodeEvent,
    vocab: Vocabulary,
    context: Seq<u32>,
    return_logprobs: bool,
    use_async_pool: bool,
)
    ensures
        ({
            let next = decode_step(
                state,
                event,
                None,
                vocab,
                context,
                return_logprobs,
                use_async_pool,
            );
            &&& next.2 is None
            &&& next.1 matches DecodeActionView::Sample(request) ==> request.allowed is None
            &&& (state == DecodeState::AwaitTentative && event matches DecodeEvent::Sampled(
                sampled,
            )) ==> next.1 == DecodeActionView::Accept(event->Sampled_0)
        }),
{
}

/// A second draw is asked for exactly when the tentative token is one the
/// grammar refuses (and some token is admitted); a tentative token that the
/// grammar admits is accepted as it was drawn. The second draw is confined
/// to the admitted tokens, flagged over the whole vocabulary.
pub proof fn lemma_resample_iff_invalid(
    sampled: Logprobs,
    recognizer: Option<RecognizerState>,
    vocab: Vocabulary,
    context: Seq<u32>,
    return_logprobs: bool,
    use_async_pool: bool,
)
    ensures
        ({
            let next = decode_step(
                DecodeState::AwaitTentative,
                DecodeEvent::Sampled(sampled),
                recognizer,
                vocab,
                context,
                return_logprobs,
                use_async_pool,
            );
            let valid = token_valid(vocab, recognizer, sampled.token);
            &&& valid <==> next.1 == DecodeActionView::Accept(sampled)
            &&& valid <==> next.0 != DecodeState::AwaitCorrective
                && next.1 != DecodeActionView::Fail(DecodeError::NoValidToken)
            &&& next.1 is Sample <==> !valid && any_allowed(
                vocab.valid_tokens(recognizer->Some_0),
            )
            &&& next.1 matches DecodeActionView::Sample(request) ==> {
                &&& recognizer is Some
                &&& request.context == context
                &&& request.allowed == Some(vocab.valid_tokens(recognizer->Some_0))
                &&& request.allowed->Some_0.len() == vocab.words.len()
            }
        }),
{
}

/// Where a draw is made has no effect on a decode step: with the worker pool
/// or without it, the step stands where it stands, the constraint is the same,
/// and what is to happen next differs in nothing but where the next draw is
/// made.
pub proof fn lemma_placement_has_no_effect(
    state: DecodeState,
    event: DecodeEvent,
    recognizer: Option<RecognizerState>,
    vocab: Vocabulary,
    context: Seq<u32>,
    return_logprobs: bool,
)
    ensures
        ({
            let pooled = decode_step(state, event, recognizer, vocab, context, return_logprobs, true);
            let inline = decode_step(
                state,
                event,
                recognizer,
                vocab,
                context,
                return_logprobs,
                false,
            );
            &&& pooled.0 == inline.0
            &&& pooled.2 == inline.2
            &&& match (pooled.1, inline.1) {
                (DecodeActionView::Sample(a), DecodeActionView::Sample(b)) => {
                    &&& a.use_async_pool
                    &&& !b.use_async_pool
                    &&& a == (SampleRequestView { use_async_pool: true, ..b })
                },
                (a, b) => a == b,
            }
        }),
{
}

/// Where a speculative decode stands: the step at the current position, and
/// the outcomes accepted at the positions before it.
pub struct SpeculativeState {
    step: DecodeState,
    sampled: Vec<Logprobs>,
}

/// A `SpeculativeState` as mathematical values.
pub struct SpeculativeStateView {
    pub step: DecodeState,
    pub sampled: Seq<Logprobs>,
}

impl View for SpeculativeState {
    type V = SpeculativeStateView;

    closed spec fn view(&self) -> SpeculativeStateView {
        SpeculativeStateView { step: self.step, sampled: self.sampled@ }
    }
}

/// The state in which every speculative decode begins.
pub open spec fn speculative_start() -> SpeculativeStateView {
    SpeculativeStateView { step: DecodeState::Start, sampled: Seq::empty() }
}

impl SpeculativeState {
    /// The state before anything has happened.
    pub fn new() -> (r: SpeculativeState)
        ensures
            r@ == speculative_start(),
    {
        SpeculativeState { step: DecodeState::Start, sampled: Vec::new() }
    }

    /// The number of positions decided so far.
    pub fn position(&self) -> (n: usize)
        ensures
            n == self@.sampled.len(),
    {
        self.sampled.len()
    }
}

/// What is to happen next in a speculative decode.
pub enum SpeculativeAction {
    /// Draw a sample from the logits of candidate position `position`, on
    /// the worker pool, and report it.
    Sample { position: usize, request: SampleRequest },
    /// Every position is decided: these are the outcomes, in position order.
    Finished(Vec<Logprobs>),
    /// The decode has ended at a position that yielded no token.
    Fail(DecodeError),
}

/// A `SpeculativeAction` as mathematical values.
pub enum SpeculativeActionView {
    Sample { position: usize, request: SampleRequestView },
    Finished(Seq<Logprobs>),
    Fail(DecodeError),
}

impl View for SpeculativeAction {
    type V = SpeculativeActionView;

    open spec fn view(&self) -> SpeculativeActionView {
        match self {
            SpeculativeAction::Sample { position, request } => SpeculativeActionView::Sample {
                position: *position,
                request: request@,
            },
            SpeculativeAction::Finished(sampled) => SpeculativeActionView::Finished(sampled@),
            SpeculativeAction::Fail(error) => SpeculativeActionView::Fail(*error),
        }
    }
}

/// One transition of a speculative decode over `n_toks` candidate positions.
///
/// The positions are decided one after the other, each by a decode step of
/// its own on the same sequence, with every draw handed to the worker pool.
/// When a step accepts, its outcome is kept and the step of the next
/// position begins at once; after the last position the outcomes are handed
/// out in position order. A step that fails ends the decode.
pub open spec fn speculative_step(
    state: SpeculativeStateView,
    event: DecodeEvent,
    recognizer: Option<RecognizerState>,
    vocab: Vocabulary,
    context: Seq<u32>,
    return_logprobs: bool,
    n_toks: usize,
) -> (SpeculativeStateView, SpeculativeActionView, Option<RecognizerState>) {
    if state.step == DecodeState::Start && event is Begin && state.sampled.len() >= n_toks {
        (
            SpeculativeStateView { step: DecodeState::Finished, sampled: Seq::empty() },
            SpeculativeActionView::Finished(state.sampled),
            recognizer,
        )
    } else {
        let inner = decode_step(
            state.step,
            event,
            recognizer,
            vocab,
            context,
            return_logprobs,
            true,
        );
        match inner.1 {
            DecodeActionView::Sample(request) => (
                SpeculativeStateView { step: inner.0, sampled: state.sampled },
                SpeculativeActionView::Sample {
                    position: state.sampled.len() as usize,
                    request,
                },
                inner.2,
            ),
            DecodeActionView::Accept(accepted) => {
                let sampled = state.sampled.push(accepted);
                if sampled.len() >= n_toks {
                    (
                        SpeculativeStateView { step: DecodeState::Finished, sampled: Seq::empty() },
                        SpeculativeActionView::Finished(sampled),
                        inner.2,
                    )
                } else {
                    (
                        SpeculativeStateView { step: DecodeState::AwaitTentative, sampled },
                        SpeculativeActionView::Sample {
                            position: sampled.len() as usize,
                            request: plain_request(context, return_logprobs, true),
                        },
                        inner.2,
                    )
                }
            },
            DecodeActionView::Fail(error) => (
                SpeculativeStateView { step: DecodeState::Finished, sampled: state.sampled },
                SpeculativeActionView::Fail(error),
                inner.2,
            ),
        }
    }
}

/// Takes one transition of the speculative decode of `seq` over `n_toks`
/// candidate positions, as `speculative_step` describes it. The tokens of
/// the sequence are not touched.
pub fn sample_target_sequence_speculative<C: Recognizer>(
    state: SpeculativeState,
    event: DecodeEvent,
    seq: &mut Sequence<C>,
    return_logprobs: bool,
    repeat_last_n: usize,
    tok_trie: &TokTrie,
    n_toks: usize,
) -> (r: (SpeculativeState, SpeculativeAction))
    requires
        old(seq).wf(),
    ensures
        final(seq).wf(),
        final(seq).tokens() == old(seq).tokens(),
        final(seq).sampling() == old(seq).sampling(),
        (r.0@, r.1@, final(seq).recognizer()) == speculative_step(
            state@,
            event,
            old(seq).recognizer(),
            tok_trie@,
            repeat_context(old(seq).tokens(), repeat_last_n),
            return_logprobs,
            n_toks,
        ),
{
    let SpeculativeState { step, sampled } = state;
    let mut sampled = sampled;
    let begins = match (step, &event) {
        (DecodeState::Start, DecodeEvent::Begin) => true,
        _ => false,
    };
    if begins && sampled.len() >= n_toks {
        return (
            SpeculativeState { step: DecodeState::Finished, sampled: Vec::new() },
            SpeculativeAction::Finished(sampled),
        );
    }
    let (next, action) = sample_sequence(
        step,
        event,
        seq,
        return_logprobs,
        repeat_last_n,
        tok_trie,
        true,
    );
    match action {
        DecodeAction::Sample(request) => {
            let position = sampled.len();
            (SpeculativeState { step: next, sampled }, SpeculativeAction::Sample { position, request })
        },
        DecodeAction::Accept(accepted) => {
            sampled.push(accepted);
            if sampled.len() >= n_toks {
                (
                    SpeculativeState { step: DecodeState::Finished, sampled: Vec::new() },
                    SpeculativeAction::Finished(sampled),
                )
            } else {
                let position = sampled.len();
                let request = SampleRequest {
                    context: seq.repeat_window(repeat_last_n),
                    allowed: None,
                    return_logprobs,
                    use_async_pool: true,
                };
                (
                    SpeculativeState { step: DecodeState::AwaitTentative, sampled },
                    SpeculativeAction::Sample { position, request },
                )
            }
        },
        DecodeAction::Fail(error) => (
            SpeculativeState { step: DecodeState::Finished, sampled },
            SpeculativeAction::Fail(error),
        ),
    }
}

/// Where a speculative decode stands after the events `events`, taken from
/// the start: the state, what the last transition said is to happen next
/// (nothing before the first), and the state of the grammar constraint.
pub open spec fn speculative_run(
    events: Seq<DecodeEvent>,
    recognizer: Option<RecognizerState>,
    vocab: Vocabulary,
    context: Seq<u32>,
    return_logprobs: bool,
    n_toks: usize,
) -> (SpeculativeStateView, Option<SpeculativeActionView>, Option<RecognizerState>)
    decreases events.len(),
{
    if events.len() == 0 {
        (speculative_start(), None, recognizer)
    } else {
        let before = speculative_run(
            events.drop_last(),
            recognizer,
            vocab,
            context,
            return_logprobs,
            n_toks,
        );
        let next = speculative_step(
            before.0,
            events.last(),
            before.2,
            vocab,
            context,
            return_logprobs,
            n_toks,
        );
        (next.0, Some(next.1), next.2)
    }
}

/// The outcomes `sampled` are what accepting their tokens one after the
/// other from `recognizer` yields: each token was admitted in the state that
/// the tokens before it had led to.
pub open spec fn accepted_in_order(
    vocab: Vocabulary,
    recognizer: Option<RecognizerState>,
    sampled: Seq<Logprobs>,
) -> bool {
    forall|i: int|
        0 <= i < sampled.len() ==> token_valid(
            vocab,
            advance_all(vocab, recognizer, #[trigger] tokens_of(sampled).take(i)),
            sampled[i].token,
        )
}

/// What holds of a speculative decode wherever it stands.
pub open spec fn speculative_invariant(
    at: (SpeculativeStateView, Option<SpeculativeActionView>, Option<RecognizerState>),
    recognizer: Option<RecognizerState>,
    vocab: Vocabulary,
    n_toks: usize,
) -> bool {
    &&& at.0.step != DecodeState::Finished ==> {
        &&& at.2 == advance_all(vocab, recognizer, tokens_of(at.0.sampled))
        &&& accepted_in_order(vocab, recognizer, at.0.sampled)
        &&& at.0.step != DecodeState::Start ==> at.0.sampled.len() < n_toks
        &&& at.0.step == DecodeState::Start ==> at.0.sampled.len() == 0
    }
    &&& at.1 matches Some(SpeculativeActionView::Finished(sampled)) ==> {
        &&& sampled.len() == n_toks
        &&& at.2 == advance_all(vocab, recognizer, tokens_of(sampled))
        &&& accepted_in_order(vocab, recognizer, sampled)
    }
    &&& at.1 matches Some(SpeculativeActionView::Sample { position, request }) ==> {
        &&& at.0.step != DecodeState::Finished
        &&& position == at.0.sampled.len()
        &&& request.use_async_pool
    }
}

proof fn lemma_accepted_one_more(
    vocab: Vocabulary,
    recognizer: Option<RecognizerState>,
    sampled: Seq<Logprobs>,
    accepted: Logprobs,
)
    requires
        accepted_in_order(vocab, recognizer, sampled),
        token_valid(
            vocab,
            advance_all(vocab, recognizer, tokens_of(sampled)),
            accepted.token,
        ),
    ensures
        accepted_in_order(vocab, recognizer, sampled.push(accepted)),
        advance_all(vocab, recognizer, tokens_of(sampled.push(accepted))) == advance(
            vocab,
            advance_all(vocab, recognizer, tokens_of(sampled)),
            accepted.token,
        ),
{
    let more = sampled.push(accepted);
    assert(tokens_of(more).drop_last() =~= tokens_of(sampled));
    assert forall|i: int| 0 <= i < more.len() implies token_valid(
        vocab,
        advance_all(vocab, recognizer, #[trigger] tokens_of(more).take(i)),
        more[i].token,
    ) by {
        if i < sampled.len() {
            assert(tokens_of(more).take(i) =~= tokens_of(sampled).take(i));
        } else {
            assert(tokens_of(more).take(i) =~= tokens_of(sampled));
        }
    }
}

/// A speculative decode over N candidate positions that ends well hands out
/// exactly N outcomes, and the grammar constraint has then advanced by their
/// N tokens in position order, each admitted in the state that the tokens
/// before it had led to.
pub proof fn lemma_speculative_decode_yields_n(
    events: Seq<DecodeEvent>,
    recognizer: Option<RecognizerState>,
    vocab: Vocabulary,
    context: Seq<u32>,
    return_logprobs: bool,
    n_toks: usize,
)
    ensures
        ({
            let end = speculative_run(events, recognizer, vocab, context, return_logprobs, n_toks);
            end.1 matches Some(SpeculativeActionView::Finished(sampled)) ==> {
                &&& sampled.len() == n_toks
                &&& end.2 == advance_all(vocab, recognizer, tokens_of(sampled))
                &&& accepted_in_order(vocab, recognizer, sampled)
            }
        }),
{
    lemma_speculative_run(events, recognizer, vocab, context, return_logprobs, n_toks);
}

/// Wherever a speculative decode stands, `speculative_invariant` holds of
/// it: the constraint has advanced by the tokens accepted so far, in order;
/// every draw that is asked for goes to the worker pool and names the
/// position that is next to be decided.
pub proof fn lemma_speculative_run(
    events: Seq<DecodeEvent>,
    recognizer: Option<RecognizerState>,
    vocab: Vocabulary,
    context: Seq<u32>,
    return_logprobs: bool,
    n_toks: usize,
)
    ensures
        speculative_invariant(
            speculative_run(events, recognizer, vocab, context, return_logprobs, n_toks),
            recognizer,
            vocab,
            n_toks,
        ),
    decreases events.len(),
{
    if events.len() == 0 {
        assert(tokens_of(Seq::<Logprobs>::empty()) =~= Seq::<u32>::empty());
    } else {
        lemma_speculative_run(
            events.drop_last(),
            recognizer,
            vocab,
            context,
            return_logprobs,
            n_toks,
        );
        let before = speculative_run(
            events.drop_last(),
            recognizer,
            vocab,
            context,
            return_logprobs,
            n_toks,
        );
        let inner = decode_step(
            before.0.step,
            events.last(),
            before.2,
            vocab,
            context,
            return_logprobs,
            true,
        );
        if before.0.step != DecodeState::Finished {
            if let DecodeActionView::Accept(accepted) = inner.1 {
                lemma_accepted_one_more(vocab, recognizer, before.0.sampled, accepted);
            }
        }
    }
}

} // verus!

use mistralrs_core::automaton::{ByteDfa, StackRecognizer};
use mistralrs_core::sampling::{
    sample_sequence, sample_target_sequence_speculative, DecodeAction, DecodeError, DecodeEvent,
    DecodeState, SampleRequest, SpeculativeAction, SpeculativeState,
};
use mistralrs_core::sampler::{Logprobs, SamplingParams};
use mistralrs_core::sequence::{Sequence, SequenceRecognizer};
use mistralrs_core::toktree::TokTrie;
use rand::distributions::{Distribution, WeightedIndex};
use rand::SeedableRng;
use rand_isaac::Isaac64Rng;

const DEAD: usize = usize::MAX;

/// The vocabulary {"a", "b", "1", "2", "</s>"}, with "</s>" as the end token.
fn small_vocabulary() -> TokTrie {
    let words = vec![
        b"a".to_vec(),
        b"b".to_vec(),
        b"1".to_vec(),
        b"2".to_vec(),
        b"</s>".to_vec(),
    ];
    TokTrie::from(4, words).expect("the end token is in the vocabulary")
}

/// The automaton of `[0-9]+`.
fn digits() -> ByteDfa {
    let mut row = vec![DEAD; 256];
    for b in b'0'..=b'9' {
        row[b as usize] = 1;
    }
    ByteDfa::new(vec![row.clone(), row], vec![false, true], 0).expect("well formed")
}

/// The automaton of the one text "12a".
fn one_two_a() -> ByteDfa {
    let mut table = vec![vec![DEAD; 256]; 4];
    table[0][b'1' as usize] = 1;
    table[1][b'2' as usize] = 2;
    table[2][b'a' as usize] = 3;
    ByteDfa::new(table, vec![false, false, false, true], 0).expect("well formed")
}

/// An automaton that reads nothing and may not end.
fn nothing() -> ByteDfa {
    ByteDfa::new(vec![vec![DEAD; 256]], vec![false], 0).expect("well formed")
}

fn params() -> SamplingParams {
    SamplingParams {
        temperature: Some(0.7f64.to_bits()),
        top_n_logprobs: 1,
        top_k: Some(40),
        top_p: Some(0.9f64.to_bits()),
        frequency_penalty: None,
        presence_penalty: Some(1.5f32.to_bits()),
    }
}

fn constrained(tokens: Vec<u32>, dfa: ByteDfa) -> Sequence<StackRecognizer> {
    Sequence::new(tokens, SequenceRecognizer::Regex(StackRecognizer::new(dfa)), params())
}

fn unconstrained(tokens: Vec<u32>) -> Sequence<StackRecognizer> {
    Sequence::new(tokens, SequenceRecognizer::Unconstrained, params())
}

fn outcome(token: u32, logprob: f32) -> Logprobs {
    Logprobs { token, logprob: logprob.to_bits(), bytes: String::new(), top_logprobs: None }
}

/// A sampler that takes the likeliest token, after the logits of the
/// tokens outside the request's set are lowered to negative infinity.
fn greedy(logits: &[f32], request: &SampleRequest) -> Logprobs {
    let mut best = 0usize;
    let mut best_logit = f32::NEG_INFINITY;
    for (tok, logit) in logits.iter().enumerate() {
        let bias = match &request.allowed {
            Some(set) if !set.is_allowed(tok as u32) => f32::NEG_INFINITY,
            _ => 0.0,
        };
        if logit + bias > best_logit {
            best = tok;
            best_logit = logit + bias;
        }
    }
    outcome(best as u32, best_logit)
}

/// Runs one decode step to its end with the greedy sampler, and counts the
/// draws.
fn decode_greedily(
    seq: &mut Sequence<StackRecognizer>,
    trie: &TokTrie,
    logits: &[f32],
) -> (Result<Logprobs, DecodeError>, usize) {
    let mut draws = 0;
    let (mut state, mut action) =
        sample_sequence(DecodeState::Start, DecodeEvent::Begin, seq, false, 64, trie, false);
    loop {
        match action {
            DecodeAction::Sample(request) => {
                draws += 1;
                let sampled = greedy(logits, &request);
                let next = sample_sequence(
                    state,
                    DecodeEvent::Sampled(sampled),
                    seq,
                    false,
                    64,
                    trie,
                    false,
                );
                state = next.0;
                action = next.1;
            }
            DecodeAction::Accept(accepted) => {
                assert_eq!(state, DecodeState::Finished);
                return (Ok(accepted), draws);
            }
            DecodeAction::Fail(error) => {
                assert_eq!(state, DecodeState::Finished);
                return (Err(error), draws);
            }
        }
    }
}

#[test]
fn digits_grammar_never_yields_a_letter() {
    let trie = small_vocabulary();
    let mut seq = constrained(vec![], digits());
    let logits = [10.0f32, 3.0, 1.0, 2.0, 0.5];
    let (accepted, draws) = decode_greedily(&mut seq, &trie, &logits);
    let accepted = accepted.expect("a digit is admitted");
    assert_eq!(accepted.token, 3);
    assert_eq!(trie.token(accepted.token), b"2");
    assert_eq!(draws, 2);
}

#[test]
fn digits_grammar_keeps_a_digit_that_was_drawn_first() {
    let trie = small_vocabulary();
    let mut seq = constrained(vec![], digits());
    let logits = [0.0f32, 0.0, 7.0, 2.0, 0.5];
    let (accepted, draws) = decode_greedily(&mut seq, &trie, &logits);
    assert_eq!(accepted, Ok(outcome(2, 7.0)));
    assert_eq!(draws, 1);
}

#[test]
fn second_draw_is_confined_to_the_admitted_tokens() {
    let trie = small_vocabulary();
    let mut seq = constrained(vec![0, 1, 2], digits());
    let (state, first) =
        sample_sequence(DecodeState::Start, DecodeEvent::Begin, &mut seq, true, 2, &trie, false);
    assert_eq!(state, DecodeState::AwaitTentative);
    match first {
        DecodeAction::Sample(request) => {
            assert_eq!(request.context, vec![1, 2]);
            assert!(request.allowed.is_none());
            assert!(request.return_logprobs);
            assert!(!request.use_async_pool);
        }
        _ => panic!("a draw is asked for first"),
    }
    let (state, second) = sample_sequence(
        state,
        DecodeEvent::Sampled(outcome(0, 1.0)),
        &mut seq,
        true,
        2,
        &trie,
        false,
    );
    assert_eq!(state, DecodeState::AwaitCorrective);
    match second {
        DecodeAction::Sample(request) => {
            assert_eq!(request.context, vec![1, 2]);
            let allowed = request.allowed.expect("the second draw is biased");
            assert_eq!(allowed.len(), 5);
            let flags: Vec<bool> = (0..5).map(|t| allowed.is_allowed(t)).collect();
            assert_eq!(flags, vec![false, false, true, true, false]);
            assert!(!allowed.is_empty());
        }
        _ => panic!("a second draw is asked for"),
    }
    let (state, last) = sample_sequence(
        state,
        DecodeEvent::Sampled(outcome(2, 0.5)),
        &mut seq,
        true,
        2,
        &trie,
        false,
    );
    assert_eq!(state, DecodeState::Finished);
    assert!(matches!(last, DecodeAction::Accept(ref accepted) if *accepted == outcome(2, 0.5)));
    assert_eq!(seq.get_toks(), &[0, 1, 2]);
}

#[test]
fn no_constraint_hands_the_first_draw_back() {
    let trie = small_vocabulary();
    let mut seq = unconstrained(vec![3, 3]);
    let logits = [10.0f32, 3.0, 1.0, 2.0, 0.5];
    let (accepted, draws) = decode_greedily(&mut seq, &trie, &logits);
    assert_eq!(accepted, Ok(outcome(0, 10.0)));
    assert_eq!(draws, 1);
    assert!(seq.is_unconstrained());
    assert!(seq.token_allowed(&trie, 1));
    assert!(seq.token_allowed(&trie, 77));
}

#[test]
fn accepted_token_advances_the_recognizer() {
    let trie = small_vocabulary();
    let mut seq = constrained(vec![], one_two_a());
    assert!(seq.token_allowed(&trie, 2));
    assert!(!seq.token_allowed(&trie, 3));
    let logits = [0.0f32, 0.0, 5.0, 9.0, 0.0];
    let (accepted, draws) = decode_greedily(&mut seq, &trie, &logits);
    assert_eq!(accepted.map(|a| a.token), Ok(2));
    assert_eq!(draws, 2);
    assert!(!seq.token_allowed(&trie, 2));
    assert!(seq.token_allowed(&trie, 3));
    assert!(!seq.token_allowed(&trie, 0));
    assert!(!seq.token_allowed(&trie, 4));
}

#[test]
fn end_token_is_admitted_where_the_grammar_may_end() {
    let trie = small_vocabulary();
    let mut seq = constrained(vec![], digits());
    assert!(!seq.token_allowed(&trie, 4));
    assert!(seq.advance_recognizer(&trie, 2));
    assert!(seq.token_allowed(&trie, 4));
    let logits = [0.0f32, 0.0, 0.0, 0.0, 9.0];
    let (accepted, draws) = decode_greedily(&mut seq, &trie, &logits);
    assert_eq!(accepted, Ok(outcome(4, 9.0)));
    assert_eq!(draws, 1);
    assert!(seq.token_allowed(&trie, 2));
}

#[test]
fn grammar_that_admits_nothing_fails_the_step() {
    let trie = small_vocabulary();
    let mut seq = constrained(vec![], nothing());
    let logits = [10.0f32, 3.0, 1.0, 2.0, 0.5];
    let (accepted, draws) = decode_greedily(&mut seq, &trie, &logits);
    assert_eq!(accepted, Err(DecodeError::NoValidToken));
    assert_eq!(draws, 1);
}

#[test]
fn refused_second_draw_fails_the_step() {
    let trie = small_vocabulary();
    let mut seq = constrained(vec![], digits());
    let (state, _) =
        sample_sequence(DecodeState::Start, DecodeEvent::Begin, &mut seq, false, 8, &trie, false);
    let (state, _) = sample_sequence(
        state,
        DecodeEvent::Sampled(outcome(0, 1.0)),
        &mut seq,
        false,
        8,
        &trie,
        false,
    );
    let (state, action) = sample_sequence(
        state,
        DecodeEvent::Sampled(outcome(1, 1.0)),
        &mut seq,
        false,
        8,
        &trie,
        false,
    );
    assert_eq!(state, DecodeState::Finished);
    assert!(matches!(action, DecodeAction::Fail(DecodeError::InvalidToken { token: 1 })));
    assert!(seq.token_allowed(&trie, 2));
    assert!(!seq.token_allowed(&trie, 4));
}

#[test]
fn token_outside_the_vocabulary_is_refused() {
    let trie = small_vocabulary();
    let mut seq = constrained(vec![], digits());
    assert!(!seq.token_allowed(&trie, 5));
    assert!(!seq.advance_recognizer(&trie, 5));
    assert!(seq.token_allowed(&trie, 2));
}

#[test]
fn sample_out_of_turn_fails_the_step() {
    let trie = small_vocabulary();
    let mut seq = constrained(vec![], digits());
    let (state, action) = sample_sequence(
        DecodeState::Start,
        DecodeEvent::Sampled(outcome(2, 1.0)),
        &mut seq,
        false,
        8,
        &trie,
        false,
    );
    assert_eq!(state, DecodeState::Finished);
    assert!(matches!(action, DecodeAction::Fail(DecodeError::OutOfOrder)));
    let (state, action) =
        sample_sequence(state, DecodeEvent::Begin, &mut seq, false, 8, &trie, false);
    assert_eq!(state, DecodeState::Finished);
    assert!(matches!(action, DecodeAction::Fail(DecodeError::OutOfOrder)));
    assert!(seq.token_allowed(&trie, 2));
}

#[test]
fn sequence_keeps_its_sampling_parameters() {
    let trie = small_vocabulary();
    let mut seq = constrained(vec![1], digits());
    assert_eq!(seq.sampler(), params());
    assert_eq!(seq.sampler().temperature.map(f64::from_bits), Some(0.7));
    seq.add_token(2);
    assert!(seq.advance_recognizer(&trie, 2));
    assert_eq!(seq.sampler(), params());
    assert_eq!(seq.get_toks(), &[1, 2]);
}

#[test]
fn repeat_window_is_the_tail_of_the_sequence() {
    let seq = unconstrained(vec![5, 6, 7, 8]);
    assert_eq!(seq.repeat_window(0), Vec::<u32>::new());
    assert_eq!(seq.repeat_window(1), vec![8]);
    assert_eq!(seq.repeat_window(3), vec![6, 7, 8]);
    assert_eq!(seq.repeat_window(4), vec![5, 6, 7, 8]);
    assert_eq!(seq.repeat_window(usize::MAX), vec![5, 6, 7, 8]);
    assert_eq!(seq.len(), 4);
}

/// Runs a speculative decode to its end; position `i` is drawn greedily from
/// `logits[i]`. Returns the outcome and the positions that were drawn from.
fn speculate(
    seq: &mut Sequence<StackRecognizer>,
    trie: &TokTrie,
    logits: &[Vec<f32>],
    n_toks: usize,
) -> (Result<Vec<Logprobs>, DecodeError>, Vec<usize>) {
    let mut drawn = Vec::new();
    let (mut state, mut action) = sample_target_sequence_speculative(
        SpeculativeState::new(),
        DecodeEvent::Begin,
        seq,
        false,
        64,
        trie,
        n_toks,
    );
    loop {
        match action {
            SpeculativeAction::Sample { position, request } => {
                assert!(request.use_async_pool);
                assert_eq!(position, state.position());
                drawn.push(position);
                let sampled = greedy(&logits[position], &request);
                let next = sample_target_sequence_speculative(
                    state,
                    DecodeEvent::Sampled(sampled),
                    seq,
                    false,
                    64,
                    trie,
                    n_toks,
                );
                state = next.0;
                action = next.1;
            }
            SpeculativeAction::Finished(sampled) => return (Ok(sampled), drawn),
            SpeculativeAction::Fail(error) => return (Err(error), drawn),
        }
    }
}

#[test]
fn speculative_decode_yields_one_outcome_for_each_position() {
    let trie = small_vocabulary();
    let mut seq = constrained(vec![9], one_two_a());
    let favour_b = vec![1.0f32, 8.0, 2.0, 3.0, 0.0];
    let logits = vec![favour_b.clone(), favour_b.clone(), favour_b];
    let (sampled, drawn) = speculate(&mut seq, &trie, &logits, 3);
    let sampled = sampled.expect("every position admits a token");
    let tokens: Vec<u32> = sampled.iter().map(|s| s.token).collect();
    assert_eq!(tokens, vec![2, 3, 0]);
    assert_eq!(drawn, vec![0, 0, 1, 1, 2, 2]);
    assert_eq!(seq.get_toks(), &[9]);
    assert!(seq.token_allowed(&trie, 4));
    assert!(!seq.token_allowed(&trie, 0));
    assert!(!seq.token_allowed(&trie, 2));
}

#[test]
fn speculative_decode_without_constraint_keeps_every_first_draw() {
    let trie = small_vocabulary();
    let mut seq = unconstrained(vec![]);
    let logits = vec![
        vec![9.0f32, 0.0, 0.0, 0.0, 0.0],
        vec![0.0f32, 0.0, 0.0, 0.0, 9.0],
        vec![0.0f32, 9.0, 0.0, 0.0, 0.0],
        vec![0.0f32, 0.0, 0.0, 9.0, 0.0],
    ];
    let (sampled, drawn) = speculate(&mut seq, &trie, &logits, 4);
    let tokens: Vec<u32> = sampled.expect("nothing is refused").iter().map(|s| s.token).collect();
    assert_eq!(tokens, vec![0, 4, 1, 3]);
    assert_eq!(drawn, vec![0, 1, 2, 3]);
}

#[test]
fn speculative_decode_over_no_position_yields_nothing() {
    let trie = small_vocabulary();
    let mut seq = constrained(vec![], digits());
    let (sampled, drawn) = speculate(&mut seq, &trie, &[], 0);
    assert_eq!(sampled, Ok(vec![]));
    assert!(drawn.is_empty());
    assert!(seq.token_allowed(&trie, 2));
}

#[test]
fn speculative_decode_stops_where_a_position_admits_nothing() {
    let trie = small_vocabulary();
    let mut table = vec![vec![DEAD; 256]; 2];
    table[0][b'1' as usize] = 1;
    let dfa = ByteDfa::new(table, vec![false, false], 0).expect("well formed");
    let mut seq = constrained(vec![], dfa);
    let favour_b = vec![1.0f32, 8.0, 2.0, 3.0, 0.0];
    let logits = vec![favour_b.clone(), favour_b.clone(), favour_b];
    let (sampled, drawn) = speculate(&mut seq, &trie, &logits, 3);
    assert_eq!(sampled, Err(DecodeError::NoValidToken));
    assert_eq!(drawn, vec![0, 0, 1]);
}

/// A sampler that draws by the softmax of the logits, after the logits of
/// the tokens outside the request's set are lowered to negative infinity.
fn weighted(logits: &[f32], request: &SampleRequest, rng: &mut Isaac64Rng) -> Logprobs {
    let weights: Vec<f32> = logits
        .iter()
        .enumerate()
        .map(|(tok, logit)| match &request.allowed {
            Some(set) if !set.is_allowed(tok as u32) => 0.0,
            _ => logit.exp(),
        })
        .collect();
    let total: f32 = weights.iter().sum();
    let token = WeightedIndex::new(&weights).expect("some weight is positive").sample(rng);
    outcome(token as u32, (weights[token] / total).ln())
}

#[test]
fn random_draws_under_the_digits_grammar_are_digits() {
    let trie = small_vocabulary();
    let logits = [3.0f32, 2.5, 0.5, 1.0, 2.0];
    let mut rng = Isaac64Rng::seed_from_u64(42);
    let mut seen = [0usize; 5];
    let mut second_draws = 0;
    for _ in 0..200 {
        let mut seq = constrained(vec![], digits());
        let (mut state, mut action) = sample_sequence(
            DecodeState::Start,
            DecodeEvent::Begin,
            &mut seq,
            false,
            8,
            &trie,
            false,
        );
        let accepted = loop {
            match action {
                DecodeAction::Sample(request) => {
                    if request.allowed.is_some() {
                        second_draws += 1;
                    }
                    let sampled = weighted(&logits, &request, &mut rng);
                    let next = sample_sequence(
                        state,
                        DecodeEvent::Sampled(sampled),
                        &mut seq,
                        false,
                        8,
                        &trie,
                        false,
                    );
                    state = next.0;
                    action = next.1;
                }
                DecodeAction::Accept(accepted) => break accepted,
                DecodeAction::Fail(error) => panic!("a digit is always admitted, not {:?}", error),
            }
        };
        seen[accepted.token as usize] += 1;
        assert!(seq.token_allowed(&trie, 4));
    }
    assert_eq!(seen[0] + seen[1] + seen[4], 0);
    assert_eq!(seen[2] + seen[3], 200);
    assert!(seen[2] > 0 && seen[3] > 0);
    assert!(second_draws > 0 && second_draws < 200);
}

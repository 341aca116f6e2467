use mistralrs_core::automaton::StackRecognizer;
use mistralrs_core::recognizer::{Recognizer, SpecialToken};
use mistralrs_core::sampler::{Logprobs, SamplingParams};
use mistralrs_core::sampling::{
    sample_sequence, DecodeAction, DecodeError, DecodeEvent, DecodeState,
};
use mistralrs_core::sequence::{Sequence, SequenceRecognizer};
use mistralrs_core::toktree::TokTrie;

/// A recognizer of balanced brackets, which no finite automaton recognizes:
/// it keeps, for each byte read since the last commit, how many brackets
/// were open before it.
struct Brackets {
    open: usize,
    undo: Vec<usize>,
}

impl Recognizer for Brackets {
    fn try_push_byte(&mut self, byte: u8) -> bool {
        let next = match byte {
            b'(' => self.open + 1,
            b')' if self.open > 0 => self.open - 1,
            _ => return false,
        };
        self.undo.push(self.open);
        self.open = next;
        true
    }

    fn pop_bytes(&mut self, num: usize) {
        for _ in 0..num {
            self.open = self.undo.pop().expect("as many bytes were read");
        }
    }

    fn collapse(&mut self) {
        self.undo.clear();
    }

    fn special_allowed(&mut self, tok: SpecialToken) -> bool {
        matches!(tok, SpecialToken::EndOfSentence) && self.open == 0
    }
}

fn bracket_vocabulary() -> TokTrie {
    let words = vec![
        b"(".to_vec(),
        b")".to_vec(),
        b"()".to_vec(),
        b"))".to_vec(),
        b"(x".to_vec(),
        b"<end>".to_vec(),
        b")(".to_vec(),
    ];
    TokTrie::from(5, words).expect("the end token is in the vocabulary")
}

fn bracketed() -> Sequence<Brackets> {
    let sampler = SamplingParams {
        temperature: None,
        top_n_logprobs: 0,
        top_k: None,
        top_p: None,
        frequency_penalty: None,
        presence_penalty: None,
    };
    Sequence::new(vec![], SequenceRecognizer::Cfg(Brackets { open: 0, undo: Vec::new() }), sampler)
}

fn drawn(token: u32) -> Logprobs {
    Logprobs { token, logprob: 0, bytes: String::new(), top_logprobs: None }
}

/// One decode step in which the sampler draws `first` and, if asked again,
/// `second`. Returns the outcome and the set that the second draw was
/// confined to.
fn step(
    seq: &mut Sequence<Brackets>,
    trie: &TokTrie,
    first: u32,
    second: u32,
) -> (Result<u32, DecodeError>, Option<Vec<u32>>) {
    let (state, action) =
        sample_sequence(DecodeState::Start, DecodeEvent::Begin, seq, false, 4, trie, false);
    assert!(matches!(action, DecodeAction::Sample(ref request) if request.allowed.is_none()));
    let (state, action) =
        sample_sequence(state, DecodeEvent::Sampled(drawn(first)), seq, false, 4, trie, false);
    match action {
        DecodeAction::Accept(accepted) => (Ok(accepted.token), None),
        DecodeAction::Fail(error) => (Err(error), None),
        DecodeAction::Sample(request) => {
            let set = request.allowed.expect("a second draw is confined");
            let admitted: Vec<u32> = (0..set.len() as u32).filter(|t| set.is_allowed(*t)).collect();
            let (_, action) = sample_sequence(
                state,
                DecodeEvent::Sampled(drawn(second)),
                seq,
                false,
                4,
                trie,
                false,
            );
            match action {
                DecodeAction::Accept(accepted) => (Ok(accepted.token), Some(admitted)),
                DecodeAction::Fail(error) => (Err(error), Some(admitted)),
                DecodeAction::Sample(_) => panic!("no third draw is asked for"),
            }
        }
    }
}

#[test]
fn context_free_recognizer_constrains_the_decode_step() {
    let trie = bracket_vocabulary();
    let mut seq = bracketed();
    assert_eq!(step(&mut seq, &trie, 1, 0), (Ok(0), Some(vec![0, 2, 5])));
    assert_eq!(step(&mut seq, &trie, 0, 9), (Ok(0), None));
    assert_eq!(step(&mut seq, &trie, 5, 3), (Ok(3), Some(vec![0, 1, 2, 3, 6])));
    assert_eq!(step(&mut seq, &trie, 3, 4), (Err(DecodeError::InvalidToken { token: 4 }), Some(vec![0, 2, 5])));
    assert_eq!(step(&mut seq, &trie, 5, 9), (Ok(5), None));
    assert!(seq.token_allowed(&trie, 2));
    assert!(!seq.token_allowed(&trie, 1));
}

#[test]
fn regular_and_context_free_recognizers_share_a_sequence_type() {
    let trie = bracket_vocabulary();
    let mut table = vec![vec![usize::MAX; 256]; 2];
    table[0][b'(' as usize] = 1;
    table[1][b')' as usize] = 0;
    let dfa = mistralrs_core::automaton::ByteDfa::new(table, vec![true, false], 0)
        .expect("well formed");
    let sampler = bracketed().sampler();
    let mut regular: Sequence<Brackets> =
        Sequence::new(vec![], SequenceRecognizer::Regex(StackRecognizer::new(dfa)), sampler);
    let mut set = Vec::new();
    for tok in 0..7 {
        if regular.token_allowed(&trie, tok) {
            set.push(tok);
        }
    }
    assert_eq!(set, vec![0, 2, 5]);
    assert!(regular.advance_recognizer(&trie, 0));
    assert!(!regular.advance_recognizer(&trie, 0));
    assert!(regular.advance_recognizer(&trie, 6));
    assert!(!regular.token_allowed(&trie, 5));
}

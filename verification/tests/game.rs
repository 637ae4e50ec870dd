use wordle::feedback::{get_word_colours, ColourState};
use wordle::game::{GuessError, Outcome, WordleGame};
use wordle::letters::Word;

fn word(s: &[u8]) -> Word {
    Word::from_ascii_bytes(&s.to_vec()).unwrap()
}

fn words(list: &[&[u8]]) -> Vec<Word> {
    list.iter().map(|s| word(s)).collect()
}

#[test]
fn new_samples_answer_from_singleton_list() {
    let game = WordleGame::new(words(&[b"crane"]));
    assert_eq!(game.answer_word().to_ascii_bytes(), b"crane".to_vec());
}

#[test]
fn new_samples_answer_from_list() {
    let list: Vec<&[u8]> = vec![b"crane", b"slate", b"trace", b"brick", b"quilt"];
    let game = WordleGame::new(words(&list));
    let answer = game.answer_word().to_ascii_bytes();
    assert!(list.iter().any(|w| w.to_vec() == answer));
}

#[test]
fn with_answer_rejects_word_outside_list() {
    let list = words(&[b"crane", b"slate"]);
    assert!(WordleGame::with_answer(list, word(b"trace")).is_none());
}

#[test]
fn lost_after_six_misses() {
    let list = words(&[
        b"crane", b"slate", b"trace", b"brick", b"quilt", b"patio", b"mount",
    ]);
    let mut game = WordleGame::with_answer(list, word(b"crane")).unwrap();
    let misses: [&[u8]; 6] = [b"slate", b"trace", b"brick", b"quilt", b"patio", b"mount"];
    for (i, miss) in misses.iter().enumerate() {
        assert!(game.can_guess());
        assert_eq!(game.guess(word(miss)), Ok(()));
        assert_eq!(game.num_guesses(), i + 1);
    }
    assert!(!game.can_guess());
    assert_eq!(game.outcome(), Outcome::Lost);
    assert_eq!(
        game.guess(word(b"crane")),
        Err(GuessError::NoAttemptsRemaining)
    );
    assert_eq!(game.num_guesses(), 6);
}

#[test]
fn won_as_soon_as_a_guess_hits() {
    let list = words(&[b"crane", b"slate", b"trace"]);
    let mut game = WordleGame::with_answer(list, word(b"crane")).unwrap();
    assert_eq!(game.guess(word(b"slate")), Ok(()));
    assert_eq!(game.outcome(), Outcome::InProgress);
    assert_eq!(game.guess(word(b"crane")), Ok(()));
    assert_eq!(game.outcome(), Outcome::Won);
    assert!(!game.can_guess());
    assert_eq!(
        game.guess(word(b"trace")),
        Err(GuessError::NoAttemptsRemaining)
    );
    assert_eq!(game.num_guesses(), 2);
}

#[test]
fn unknown_word_consumes_no_attempt() {
    let list = words(&[b"crane", b"slate"]);
    let mut game = WordleGame::with_answer(list, word(b"crane")).unwrap();
    assert_eq!(game.guess(word(b"trace")), Err(GuessError::UnknownWord));
    assert_eq!(game.num_guesses(), 0);
    assert_eq!(game.outcome(), Outcome::InProgress);
    assert!(game.can_guess());
}

#[test]
fn wrong_length_input_never_reaches_the_game() {
    // A line of the wrong length fails word construction, so no attempt
    // can be consumed by it.
    let list = words(&[b"crane", b"slate"]);
    let mut game = WordleGame::with_answer(list, word(b"crane")).unwrap();
    assert!(Word::from_ascii_bytes(&b"cran".to_vec()).is_err());
    assert_eq!(game.num_guesses(), 0);
    assert_eq!(game.guess(word(b"slate")), Ok(()));
    assert_eq!(game.num_guesses(), 1);
}

#[test]
fn end_to_end_crane_round() {
    let list = words(&[b"crane", b"slate", b"trace"]);
    let mut game = WordleGame::with_answer(list, word(b"crane")).unwrap();

    assert_eq!(game.guess(word(b"slate")), Ok(()));
    let marks = get_word_colours(&game.guess_word(0), &game.answer_word());
    // "slate" against "crane": the 'a' and the 'e' sit at their exact
    // positions; every other letter is absent.
    let expected = vec![
        ColourState::Grey,
        ColourState::Grey,
        ColourState::Green,
        ColourState::Grey,
        ColourState::Green,
    ];
    assert_eq!(marks, expected);
    assert_eq!(game.outcome(), Outcome::InProgress);

    assert_eq!(game.guess(word(b"crane")), Ok(()));
    let marks = get_word_colours(&game.guess_word(1), &game.answer_word());
    assert_eq!(marks, vec![ColourState::Green; 5]);
    assert_eq!(game.outcome(), Outcome::Won);
}

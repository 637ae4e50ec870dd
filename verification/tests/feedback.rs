use wordle::feedback::{get_word_colours, ColourState};
use wordle::letters::Word;

fn word(s: &[u8]) -> Word {
    Word::from_ascii_bytes(&s.to_vec()).unwrap()
}

#[test]
fn all_exact_on_equal_words() {
    let colours = get_word_colours(&word(b"crane"), &word(b"crane"));
    assert_eq!(colours, vec![ColourState::Green; 5]);
}

#[test]
fn exact_iff_positions_agree() {
    let colours = get_word_colours(&word(b"slate"), &word(b"crane"));
    for i in 0..5 {
        let agree = b"slate"[i] == b"crane"[i];
        assert_eq!(colours[i] == ColourState::Green, agree);
    }
}

#[test]
fn duplicate_letters_consume_leftmost_pool_entries() {
    // guess "sassy" against "class": the final 's' of the answer is matched
    // exactly; the pool left over is {c, l, a, s}. The first guessed 's'
    // takes the pooled 's', the 'a' takes the pooled 'a', and the remaining
    // 's' and 'y' find nothing.
    let colours = get_word_colours(&word(b"sassy"), &word(b"class"));
    let expected = vec![
        ColourState::Yellow,
        ColourState::Yellow,
        ColourState::Grey,
        ColourState::Green,
        ColourState::Grey,
    ];
    assert_eq!(colours, expected);
}

#[test]
fn feedback_is_idempotent() {
    let g = word(b"sassy");
    let a = word(b"class");
    let first = get_word_colours(&g, &a);
    let second = get_word_colours(&g, &a);
    assert_eq!(first, second);
}

#[test]
fn marks_never_outnumber_answer_occurrences() {
    // "lllll" against "hello": the answer holds two 'l's, so at most two
    // positions may be marked green or yellow.
    let colours = get_word_colours(&word(b"lllll"), &word(b"hello"));
    let marked = colours
        .iter()
        .filter(|c| **c != ColourState::Grey)
        .count();
    assert_eq!(marked, 2);
    assert_eq!(colours[2], ColourState::Green);
    assert_eq!(colours[3], ColourState::Green);
}

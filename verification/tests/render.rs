use wordle::feedback::ColourState;
use wordle::game::WordleGame;
use wordle::letters::Word;
use wordle::render::DrawOp;

fn word(s: &[u8]) -> Word {
    Word::from_ascii_bytes(&s.to_vec()).unwrap()
}

fn words(list: &[&[u8]]) -> Vec<Word> {
    list.iter().map(|s| word(s)).collect()
}

#[test]
fn fallback_renders_one_marked_line_per_guess() {
    let list = words(&[b"crane", b"slate"]);
    let mut game = WordleGame::with_answer(list, word(b"crane")).unwrap();
    game.guess(word(b"slate")).unwrap();
    let ops = game.print_guesses(None);
    // "slate" against "crane": letter codes s=18 l=11 a=0 t=19 e=4; the 'a'
    // and the 'e' are exact, the rest absent.
    let expected = vec![
        DrawOp::Cell { letter: 18, colour: ColourState::Grey },
        DrawOp::Cell { letter: 11, colour: ColourState::Grey },
        DrawOp::Cell { letter: 0, colour: ColourState::Green },
        DrawOp::Cell { letter: 19, colour: ColourState::Grey },
        DrawOp::Cell { letter: 4, colour: ColourState::Green },
        DrawOp::EndLine,
    ];
    assert_eq!(ops, expected);
}

#[test]
fn fallback_is_empty_before_any_guess() {
    let game = WordleGame::with_answer(words(&[b"crane"]), word(b"crane")).unwrap();
    assert_eq!(game.print_guesses(None), Vec::new());
}

fn pad_line(ops: &mut Vec<DrawOp>, wg: usize) {
    ops.push(DrawOp::Bar);
    for _ in 0..5 {
        ops.push(DrawOp::Gap { n: 2 * wg + 1 });
        ops.push(DrawOp::Bar);
    }
}

#[test]
fn grid_at_minimum_size_has_no_gaps() {
    let game = WordleGame::with_answer(words(&[b"crane"]), word(b"crane")).unwrap();
    let ops = game.print_guesses(Some((6, 7)));
    // Layout (6, 7) leaves every gap and margin zero, so the board starts
    // at column 1, row 1, rules are 11 dashes wide, and each of the six
    // empty row slots takes three lines.
    let mut expected = Vec::new();
    expected.push(DrawOp::MoveTo { col: 1, row: 1 });
    expected.push(DrawOp::Dashes { n: 11 });
    expected.push(DrawOp::MoveTo { col: 1, row: 2 });
    let mut y = 2;
    for _ in 0..6 {
        pad_line(&mut expected, 0);
        expected.push(DrawOp::MoveTo { col: 1, row: y + 1 });
        expected.push(DrawOp::MoveTo { col: 1, row: y + 2 });
        expected.push(DrawOp::Dashes { n: 11 });
        expected.push(DrawOp::MoveTo { col: 1, row: y + 3 });
        y += 3;
    }
    expected.push(DrawOp::MoveTo { col: 1, row: y + 1 });
    assert_eq!(ops, expected);
}

#[test]
fn grid_with_vertical_gap_pads_each_row_slot() {
    let list = words(&[b"crane", b"slate"]);
    let mut game = WordleGame::with_answer(list, word(b"crane")).unwrap();
    game.guess(word(b"slate")).unwrap();
    // Width 26 gives width_gap (26-6)/10 = 2 and left margin
    // (26 - 26) / 2 = 0; height 31 gives height_gap 1 and top margin
    // (31 - 19) / 2 = 6.
    let ops = game.print_guesses(Some((26, 31)));
    let mut expected = Vec::new();
    expected.push(DrawOp::MoveTo { col: 1, row: 7 });
    expected.push(DrawOp::Dashes { n: 31 });
    expected.push(DrawOp::MoveTo { col: 1, row: 8 });
    let mut y = 8;
    for row in 0..6 {
        pad_line(&mut expected, 2);
        expected.push(DrawOp::MoveTo { col: 1, row: y + 1 });
        if row == 0 {
            // the recorded guess "slate" against "crane"
            let letters = [18, 11, 0, 19, 4];
            let colours = [
                ColourState::Grey,
                ColourState::Grey,
                ColourState::Green,
                ColourState::Grey,
                ColourState::Green,
            ];
            expected.push(DrawOp::Bar);
            for i in 0..5 {
                expected.push(DrawOp::Gap { n: 2 });
                expected.push(DrawOp::Cell { letter: letters[i], colour: colours[i] });
                expected.push(DrawOp::Gap { n: 2 });
                expected.push(DrawOp::Bar);
            }
        } else {
            pad_line(&mut expected, 2);
        }
        expected.push(DrawOp::MoveTo { col: 1, row: y + 2 });
        pad_line(&mut expected, 2);
        expected.push(DrawOp::MoveTo { col: 1, row: y + 3 });
        expected.push(DrawOp::Dashes { n: 31 });
        expected.push(DrawOp::MoveTo { col: 1, row: y + 4 });
        y += 4;
    }
    expected.push(DrawOp::MoveTo { col: 1, row: y + 1 });
    assert_eq!(ops, expected);
}

//! The renderer: turns the game state and a layout into an ordered sequence
//! of draw instructions for the terminal collaborator, which alone emits
//! cursor movements and colours. With no display size available the board
//! degrades to one plain line of marked letters per submitted guess.

use vstd::prelude::*;

use crate::feedback::{feedback_spec, get_word_colours, ColourState};
use crate::game::WordleGame;
use crate::layout::{compute_layout, spec_layout, Layout};
use crate::letters::Word;

verus! {

/// One draw instruction for the terminal collaborator.
#[derive(Clone, Copy, PartialEq, Eq, Structural, Debug)]
pub enum DrawOp {
    /// Put the cursor at a column and row.
    MoveTo { col: usize, row: usize },
    /// A horizontal rule of `n` dashes.
    Dashes { n: usize },
    /// `n` blank columns.
    Gap { n: usize },
    /// One cell border column.
    Bar,
    /// One letter, held as its code in `0..26`, painted with its colour.
    Cell { letter: u8, colour: ColourState },
    /// End of one line of the plain fallback rendering.
    EndLine,
}

/// Length of a horizontal rule spanning five cells.
pub open spec fn rule_len(wg: usize) -> usize {
    ((2 * wg + 2) * 5 + 1) as usize
}

/// Borders of the empty cells from position `j` on: a blank gap the width
/// of a cell, then a bar, five times in all.
pub open spec fn pad_cells(wg: usize, j: int) -> Seq<DrawOp>
    decreases 5 - j,
{
    if j < 0 || j >= 5 {
        Seq::empty()
    } else {
        seq![DrawOp::Gap { n: (2 * wg + 1) as usize }, DrawOp::Bar] + pad_cells(wg, j + 1)
    }
}

/// A padding line: a leading bar and five empty cells.
pub open spec fn pad_line(wg: usize) -> Seq<DrawOp> {
    seq![DrawOp::Bar] + pad_cells(wg, 0)
}

/// Cells of a filled row from position `j` on: each letter of the guess,
/// padded on both sides and closed by a bar.
pub open spec fn guess_cells(word: Seq<u8>, fb: Seq<ColourState>, wg: usize, j: int) -> Seq<DrawOp>
    decreases 5 - j,
{
    if j < 0 || j >= 5 {
        Seq::empty()
    } else {
        seq![
            DrawOp::Gap { n: wg },
            DrawOp::Cell { letter: word[j], colour: fb[j] },
            DrawOp::Gap { n: wg },
            DrawOp::Bar,
        ] + guess_cells(word, fb, wg, j + 1)
    }
}

/// A row of cells: filled from a submitted guess with its feedback, else
/// blank.
pub open spec fn cells_row(guess: Option<Seq<u8>>, answer: Seq<u8>, wg: usize) -> Seq<DrawOp> {
    match guess {
        Some(w) => seq![DrawOp::Bar] + guess_cells(w, feedback_spec(w, answer), wg, 0),
        None => pad_line(wg),
    }
}

/// Padding lines above a row of cells, each followed by a cursor move to
/// the next line; the cursor stands at column `x`, row `y`.
pub open spec fn top_pads(wg: usize, x: usize, y: int, hg: usize) -> Seq<DrawOp>
    decreases hg,
{
    if hg == 0 {
        Seq::empty()
    } else {
        pad_line(wg) + seq![DrawOp::MoveTo { col: x, row: (y + 1) as usize }] + top_pads(
            wg,
            x,
            y + 1,
            (hg - 1) as usize,
        )
    }
}

/// Padding lines below a row of cells; the cursor is moved only afterwards.
pub open spec fn bottom_pads(wg: usize, hg: usize) -> Seq<DrawOp>
    decreases hg,
{
    if hg == 0 {
        Seq::empty()
    } else {
        pad_line(wg) + bottom_pads(wg, (hg - 1) as usize)
    }
}

/// One row slot of the grid, drawn with the cursor at column `x`, row `y`:
/// padding, the cells, padding, and the rule below the row.
pub open spec fn row_block(
    guess: Option<Seq<u8>>,
    answer: Seq<u8>,
    wg: usize,
    hg: usize,
    x: usize,
    y: int,
) -> Seq<DrawOp> {
    top_pads(wg, x, y, hg) + cells_row(guess, answer, wg) + seq![
        DrawOp::MoveTo { col: x, row: (y + hg + 1) as usize },
    ] + bottom_pads(wg, hg) + seq![
        DrawOp::MoveTo { col: x, row: (y + hg + 2) as usize },
        DrawOp::Dashes { n: rule_len(wg) },
        DrawOp::MoveTo { col: x, row: (y + hg + 3) as usize },
    ]
}

/// The six row slots of the grid from slot `r` on, each showing the guess
/// recorded for it if one is, and the closing cursor move below the board.
pub open spec fn rows_from(
    guesses: Seq<Seq<u8>>,
    answer: Seq<u8>,
    wg: usize,
    hg: usize,
    x: usize,
    y: int,
    r: int,
) -> Seq<DrawOp>
    decreases 6 - r,
{
    if r < 0 || r >= 6 {
        seq![DrawOp::MoveTo { col: x, row: (y + 1) as usize }]
    } else {
        let guess = if r < guesses.len() {
            Some(guesses[r])
        } else {
            None
        };
        row_block(guess, answer, wg, hg, x, y) + rows_from(
            guesses,
            answer,
            wg,
            hg,
            x,
            y + hg + 3,
            r + 1,
        )
    }
}

/// The whole grid rendering: the rule above the board, the six row slots,
/// and the closing cursor move, centred by the layout's margins.
pub open spec fn grid_ops(guesses: Seq<Seq<u8>>, answer: Seq<u8>, lay: Layout) -> Seq<DrawOp> {
    let x = (lay.left_margin + 1) as usize;
    let y0 = lay.top_margin as int + 1;
    seq![
        DrawOp::MoveTo { col: x, row: y0 as usize },
        DrawOp::Dashes { n: rule_len(lay.width_gap) },
        DrawOp::MoveTo { col: x, row: (y0 + 1) as usize },
    ] + rows_from(guesses, answer, lay.width_gap, lay.height_gap, x, y0 + 1, 0)
}

/// The letters of one guess in the plain fallback rendering, from position
/// `j` on, each tagged with its colour.
pub open spec fn plain_cells(word: Seq<u8>, fb: Seq<ColourState>, j: int) -> Seq<DrawOp>
    decreases 5 - j,
{
    if j < 0 || j >= 5 {
        Seq::empty()
    } else {
        seq![DrawOp::Cell { letter: word[j], colour: fb[j] }] + plain_cells(word, fb, j + 1)
    }
}

/// The plain fallback rendering from guess `k` on: one line of marked
/// letters per submitted guess, in submission order.
pub open spec fn plain_lines(guesses: Seq<Seq<u8>>, answer: Seq<u8>, k: int) -> Seq<DrawOp>
    decreases guesses.len() - k,
{
    if k < 0 || k >= guesses.len() {
        Seq::empty()
    } else {
        plain_cells(guesses[k], feedback_spec(guesses[k], answer), 0) + seq![DrawOp::EndLine]
            + plain_lines(guesses, answer, k + 1)
    }
}

/// Appends a padding line: a bar, then five empty cells.
fn push_pad_line(ops: &mut Vec<DrawOp>, wg: usize)
    requires
        wg <= 3,
    ensures
        final(ops)@ == old(ops)@ + pad_line(wg),
{
    let ghost target = old(ops)@ + pad_line(wg);
    ops.push(DrawOp::Bar);
    let mut j: usize = 0;
    proof {
        assert(ops@ + pad_cells(wg, 0) =~= target);
    }
    while j < 5
        invariant
            j <= 5,
            wg <= 3,
            ops@ + pad_cells(wg, j as int) == target,
        decreases 5 - j,
    {
        let ghost before = ops@;
        ops.push(DrawOp::Gap { n: 2 * wg + 1 });
        ops.push(DrawOp::Bar);
        proof {
            assert(ops@ + pad_cells(wg, j + 1) =~= before + pad_cells(wg, j as int));
        }
        j += 1;
    }
    proof {
        assert(ops@ =~= target);
    }
}

/// Appends the cells of a filled row: each letter of the guess with its
/// colour, padded and closed by a bar.
fn push_guess_cells(ops: &mut Vec<DrawOp>, word: &Word, colours: &Vec<ColourState>, wg: usize)
    requires
        wg <= 3,
        colours@.len() == 5,
    ensures
        final(ops)@ == old(ops)@ + guess_cells(word@, colours@, wg, 0),
{
    let ghost target = old(ops)@ + guess_cells(word@, colours@, wg, 0);
    let mut j: usize = 0;
    while j < 5
        invariant
            j <= 5,
            wg <= 3,
            colours@.len() == 5,
            ops@ + guess_cells(word@, colours@, wg, j as int) == target,
        decreases 5 - j,
    {
        let ghost before = ops@;
        ops.push(DrawOp::Gap { n: wg });
        ops.push(DrawOp::Cell { letter: word.letter(j).code(), colour: colours[j] });
        ops.push(DrawOp::Gap { n: wg });
        ops.push(DrawOp::Bar);
        proof {
            assert(ops@ + guess_cells(word@, colours@, wg, j + 1) =~= before + guess_cells(
                word@,
                colours@,
                wg,
                j as int,
            ));
        }
        j += 1;
    }
    proof {
        assert(ops@ =~= target);
    }
}

impl WordleGame {
    /// Produces the draw instructions for the current board. With a display
    /// size, the bordered grid centred by the computed layout; without one,
    /// the plain fallback rendering, one line per submitted guess.
    #[verifier::rlimit(100)]
    pub fn print_guesses(&self, size: Option<(u16, u16)>) -> (r: Vec<DrawOp>)
        requires
            self.wf(),
        ensures
            size matches Some(wh) ==> r@ == grid_ops(
                self.spec_guesses(),
                self.spec_answer(),
                spec_layout(wh.0 as int, wh.1 as int),
            ),
            size is None ==> r@ == plain_lines(self.spec_guesses(), self.spec_answer(), 0),
    {
        match size {
            Some((w, h)) => {
                let lay = compute_layout(w, h);
                let wg = lay.width_gap;
                let hg = lay.height_gap;
                let x = lay.left_margin + 1;
                let mut y: usize = lay.top_margin + 1;
                let mut ops: Vec<DrawOp> = Vec::new();
                ops.push(DrawOp::MoveTo { col: x, row: y });
                ops.push(DrawOp::Dashes { n: (2 * wg + 2) * 5 + 1 });
                y += 1;
                ops.push(DrawOp::MoveTo { col: x, row: y });
                let ghost target = grid_ops(self.spec_guesses(), self.spec_answer(), lay);
                proof {
                    assert(ops@ + rows_from(
                        self.spec_guesses(),
                        self.spec_answer(),
                        wg,
                        hg,
                        x,
                        y as int,
                        0,
                    ) =~= target);
                }
                let mut r: usize = 0;
                while r < 6
                    invariant
                        r <= 6,
                        self.wf(),
                        wg <= 3,
                        hg <= 1,
                        x <= 65536,
                        y <= 65537 + 4 * r,
                        ops@ + rows_from(
                            self.spec_guesses(),
                            self.spec_answer(),
                            wg,
                            hg,
                            x,
                            y as int,
                            r as int,
                        ) == target,
                    decreases 6 - r,
                {
                    let ghost y_in = y as int;
                    let ghost ops_in = ops@;
                    let ghost guess_opt = if (r as int) < self.spec_guesses().len() {
                        Some(self.spec_guesses()[r as int])
                    } else {
                        None::<Seq<u8>>
                    };
                    if hg == 1 {
                        push_pad_line(&mut ops, wg);
                        y += 1;
                        ops.push(DrawOp::MoveTo { col: x, row: y });
                        proof {
                            assert(top_pads(wg, x, y_in + 1, 0) =~= Seq::<DrawOp>::empty());
                            assert(ops@ =~= ops_in + top_pads(wg, x, y_in, hg));
                        }
                    } else {
                        proof {
                            assert(top_pads(wg, x, y_in, 0) =~= Seq::<DrawOp>::empty());
                            assert(ops@ =~= ops_in + top_pads(wg, x, y_in, hg));
                        }
                    }
                    let ghost after_tops = ops@;
                    if r < self.num_guesses() {
                        let gw = self.guess_word(r);
                        let aw = self.answer_word();
                        let colours = get_word_colours(&gw, &aw);
                        ops.push(DrawOp::Bar);
                        push_guess_cells(&mut ops, &gw, &colours, wg);
                    } else {
                        push_pad_line(&mut ops, wg);
                    }
                    proof {
                        assert(ops@ =~= after_tops + cells_row(guess_opt, self.spec_answer(), wg));
                    }
                    y += 1;
                    ops.push(DrawOp::MoveTo { col: x, row: y });
                    let ghost after_mid = ops@;
                    proof {
                        assert(after_mid =~= after_tops + cells_row(guess_opt, self.spec_answer(), wg)
                            + seq![DrawOp::MoveTo { col: x, row: (y_in + hg + 1) as usize }]);
                    }
                    if hg == 1 {
                        push_pad_line(&mut ops, wg);
                        proof {
                            assert(bottom_pads(wg, 0) =~= Seq::<DrawOp>::empty());
                            assert(ops@ =~= after_mid + bottom_pads(wg, hg));
                        }
                    } else {
                        proof {
                            assert(bottom_pads(wg, 0) =~= Seq::<DrawOp>::empty());
                            assert(ops@ =~= after_mid + bottom_pads(wg, hg));
                        }
                    }
                    y += 1;
                    ops.push(DrawOp::MoveTo { col: x, row: y });
                    ops.push(DrawOp::Dashes { n: (2 * wg + 2) * 5 + 1 });
                    y += 1;
                    ops.push(DrawOp::MoveTo { col: x, row: y });
                    proof {
                        assert(ops@ =~= ops_in + row_block(
                            guess_opt,
                            self.spec_answer(),
                            wg,
                            hg,
                            x,
                            y_in,
                        ));
                        assert(rows_from(
                            self.spec_guesses(),
                            self.spec_answer(),
                            wg,
                            hg,
                            x,
                            y_in,
                            r as int,
                        ) == row_block(guess_opt, self.spec_answer(), wg, hg, x, y_in) + rows_from(
                            self.spec_guesses(),
                            self.spec_answer(),
                            wg,
                            hg,
                            x,
                            y_in + hg + 3,
                            r as int + 1,
                        ));
                        assert(ops@ + rows_from(
                            self.spec_guesses(),
                            self.spec_answer(),
                            wg,
                            hg,
                            x,
                            y as int,
                            r as int + 1,
                        ) =~= target);
                    }
                    r += 1;
                }
                y += 1;
                ops.push(DrawOp::MoveTo { col: x, row: y });
                proof {
                    assert(ops@ =~= target);
                }
                ops
            },
            None => {
                let n = self.num_guesses();
                let aw = self.answer_word();
                let mut ops: Vec<DrawOp> = Vec::new();
                let mut k: usize = 0;
                while k < n
                    invariant
                        k <= n,
                        self.wf(),
                        n == self.spec_guesses().len(),
                        aw@ == self.spec_answer(),
                        ops@ + plain_lines(self.spec_guesses(), self.spec_answer(), k as int)
                            == plain_lines(self.spec_guesses(), self.spec_answer(), 0),
                    decreases n - k,
                {
                    let gw = self.guess_word(k);
                    let colours = get_word_colours(&gw, &aw);
                    let ghost ops_in = ops@;
                    let mut j: usize = 0;
                    while j < 5
                        invariant
                            j <= 5,
                            colours@ == feedback_spec(gw@, aw@),
                            colours@.len() == 5,
                            ops@ + plain_cells(gw@, colours@, j as int) == ops_in + plain_cells(
                                gw@,
                                colours@,
                                0,
                            ),
                        decreases 5 - j,
                    {
                        let ghost before = ops@;
                        ops.push(
                            DrawOp::Cell { letter: gw.letter(j).code(), colour: colours[j] },
                        );
                        proof {
                            assert(ops@ + plain_cells(gw@, colours@, j + 1) =~= before
                                + plain_cells(gw@, colours@, j as int));
                        }
                        j += 1;
                    }
                    ops.push(DrawOp::EndLine);
                    proof {
                        assert(plain_lines(
                            self.spec_guesses(),
                            self.spec_answer(),
                            k as int,
                        ) == plain_cells(gw@, colours@, 0) + seq![DrawOp::EndLine] + plain_lines(
                            self.spec_guesses(),
                            self.spec_answer(),
                            k as int + 1,
                        ));
                        assert(ops@ + plain_lines(
                            self.spec_guesses(),
                            self.spec_answer(),
                            k as int + 1,
                        ) =~= ops_in + plain_lines(
                            self.spec_guesses(),
                            self.spec_answer(),
                            k as int,
                        ));
                    }
                    k += 1;
                }
                ops
            },
        }
    }
}

} // verus!

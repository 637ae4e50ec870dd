//! Per-letter feedback of a guess against the answer.
//!
//! The computation runs in two passes so that repeated letters are handled
//! correctly: exact matches are marked first, and the remaining answer
//! letters form a pool that misplaced guess letters consume left to right,
//! each pool entry at most once.

use vstd::prelude::*;

use crate::letters::Word;

verus! {

/// Classification of one guessed letter against the answer: `Grey` is
/// absent, `Yellow` present but misplaced, `Green` an exact match.
#[derive(Clone, Copy, PartialEq, Eq, Structural, Debug)]
pub enum ColourState {
    Grey,
    Yellow,
    Green,
}

/// How many of the first `n` positions of `a` hold the letter `v`.
pub open spec fn letter_count(a: Seq<u8>, v: u8, n: int) -> int
    decreases n,
{
    if n <= 0 {
        0
    } else {
        letter_count(a, v, n - 1) + if a[n - 1] == v {
            1int
        } else {
            0int
        }
    }
}

/// How many of the first `n` guess positions hold `v` without matching the
/// answer exactly there.
pub open spec fn miss_count(g: Seq<u8>, a: Seq<u8>, v: u8, n: int) -> int
    decreases n,
{
    if n <= 0 {
        0
    } else {
        miss_count(g, a, v, n - 1) + if g[n - 1] == v && g[n - 1] != a[n - 1] {
            1int
        } else {
            0int
        }
    }
}

/// How many of the first `n` answer positions hold `v` without being matched
/// exactly: the pool entries of `v` that misplaced marks may consume.
pub open spec fn pool_count(g: Seq<u8>, a: Seq<u8>, v: u8, n: int) -> int
    decreases n,
{
    if n <= 0 {
        0
    } else {
        pool_count(g, a, v, n - 1) + if a[n - 1] == v && g[n - 1] != a[n - 1] {
            1int
        } else {
            0int
        }
    }
}

/// Pool entries of `v` still unconsumed once the first `i` guess positions
/// are marked: each earlier misplaced occurrence of `v` consumed one while
/// any was left.
pub open spec fn pool_left(g: Seq<u8>, a: Seq<u8>, v: u8, i: int) -> int {
    if pool_count(g, a, v, 5) - miss_count(g, a, v, i) >= 0 {
        pool_count(g, a, v, 5) - miss_count(g, a, v, i)
    } else {
        0
    }
}

/// The mark position `i` receives: green on an exact match, else yellow
/// exactly when the earlier misplaced occurrences of the letter have not
/// yet consumed every unmatched occurrence of it in the answer.
pub open spec fn colour_at(g: Seq<u8>, a: Seq<u8>, i: int) -> ColourState {
    if g[i] == a[i] {
        ColourState::Green
    } else if miss_count(g, a, g[i], i) < pool_count(g, a, g[i], 5) {
        ColourState::Yellow
    } else {
        ColourState::Grey
    }
}

/// The feedback for a whole guess.
pub open spec fn feedback_spec(g: Seq<u8>, a: Seq<u8>) -> Seq<ColourState> {
    Seq::new(5, |i: int| colour_at(g, a, i))
}

/// How many entries of a pool hold the letter `v`.
spec fn seq_count(s: Seq<u8>, v: u8) -> int
    decreases s.len(),
{
    if s.len() == 0 {
        0
    } else {
        seq_count(s.drop_last(), v) + if s.last() == v {
            1int
        } else {
            0int
        }
    }
}

proof fn lemma_seq_count_nonneg(s: Seq<u8>, v: u8)
    ensures
        seq_count(s, v) >= 0,
    decreases s.len(),
{
    if s.len() > 0 {
        lemma_seq_count_nonneg(s.drop_last(), v);
    }
}

proof fn lemma_seq_count_push(s: Seq<u8>, x: u8, v: u8)
    ensures
        seq_count(s.push(x), v) == seq_count(s, v) + if x == v {
            1int
        } else {
            0int
        },
{
    assert(s.push(x).drop_last() =~= s);
    assert(s.push(x).last() == x);
}

proof fn lemma_seq_count_present(s: Seq<u8>, j: int, v: u8)
    requires
        0 <= j < s.len(),
        s[j] == v,
    ensures
        seq_count(s, v) >= 1,
    decreases s.len(),
{
    lemma_seq_count_nonneg(s.drop_last(), v);
    if j < s.len() - 1 {
        lemma_seq_count_present(s.drop_last(), j, v);
    }
}

proof fn lemma_seq_count_absent(s: Seq<u8>, v: u8)
    requires
        forall|k: int| 0 <= k < s.len() ==> s[k] != v,
    ensures
        seq_count(s, v) == 0,
    decreases s.len(),
{
    if s.len() > 0 {
        lemma_seq_count_absent(s.drop_last(), v);
    }
}

proof fn lemma_seq_count_remove(s: Seq<u8>, j: int, v: u8)
    requires
        0 <= j < s.len(),
    ensures
        seq_count(s.remove(j), v) == seq_count(s, v) - if s[j] == v {
            1int
        } else {
            0int
        },
    decreases s.len(),
{
    if j == s.len() - 1 {
        assert(s.remove(j) =~= s.drop_last());
    } else {
        assert(s.remove(j).drop_last() =~= s.drop_last().remove(j));
        assert(s.remove(j).last() == s.last());
        lemma_seq_count_remove(s.drop_last(), j, v);
    }
}

/// The first pool entry holding `v`, if any is left.
fn find_first(pool: &Vec<u8>, v: u8) -> (r: Option<usize>)
    ensures
        r matches Some(j) ==> j < pool@.len() && pool@[j as int] == v,
        r is None ==> forall|k: int| 0 <= k < pool@.len() ==> pool@[k] != v,
{
    let mut k: usize = 0;
    while k < pool.len()
        invariant
            k <= pool@.len(),
            forall|t: int| 0 <= t < k ==> pool@[t] != v,
        decreases pool@.len() - k,
    {
        if pool[k] == v {
            return Some(k);
        }
        k += 1;
    }
    None
}

/// Computes the feedback for a guess against the answer, marking exact
/// matches first and then letting each remaining guess letter consume the
/// leftmost unconsumed equal answer letter, if one is left.
pub fn get_word_colours(word: &Word, answer: &Word) -> (r: Vec<ColourState>)
    ensures
        r@ == feedback_spec(word@, answer@),
{
    let mut pool: Vec<u8> = Vec::new();
    let mut i: usize = 0;
    while i < 5
        invariant
            i <= 5,
            forall|v: u8| #[trigger] seq_count(pool@, v) == pool_count(word@, answer@, v, i as int),
        decreases 5 - i,
    {
        let gl = word.letter(i).code();
        let al = answer.letter(i).code();
        let ghost pool0 = pool@;
        if gl != al {
            pool.push(al);
        }
        proof {
            assert forall|v: u8| #[trigger] seq_count(pool@, v) == pool_count(
                word@,
                answer@,
                v,
                i + 1,
            ) by {
                if gl != al {
                    lemma_seq_count_push(pool0, al, v);
                }
            }
        }
        i += 1;
    }
    let mut colours: Vec<ColourState> = Vec::new();
    let mut i: usize = 0;
    proof {
        assert forall|v: u8| #[trigger] seq_count(pool@, v) == pool_left(word@, answer@, v, 0) by {
            lemma_seq_count_nonneg(pool@, v);
        }
    }
    while i < 5
        invariant
            i <= 5,
            colours@.len() == i,
            forall|j: int| 0 <= j < i ==> #[trigger] colours@[j] == colour_at(word@, answer@, j),
            forall|v: u8| #[trigger] seq_count(pool@, v) == pool_left(word@, answer@, v, i as int),
        decreases 5 - i,
    {
        let gl = word.letter(i).code();
        let al = answer.letter(i).code();
        if gl == al {
            colours.push(ColourState::Green);
        } else {
            let ghost pool0 = pool@;
            match find_first(&pool, gl) {
                Some(j) => {
                    proof {
                        lemma_seq_count_present(pool@, j as int, gl);
                    }
                    colours.push(ColourState::Yellow);
                    pool.remove(j);
                    proof {
                        assert forall|v: u8| #[trigger] seq_count(pool@, v) == pool_left(
                            word@,
                            answer@,
                            v,
                            i + 1,
                        ) by {
                            lemma_seq_count_remove(pool0, j as int, v);
                        }
                    }
                },
                None => {
                    proof {
                        lemma_seq_count_absent(pool@, gl);
                    }
                    colours.push(ColourState::Grey);
                },
            }
        }
        i += 1;
    }
    proof {
        assert(colours@ =~= feedback_spec(word@, answer@));
    }
    colours
}

/// How many of the first `n` guess positions hold `v` and are marked green.
pub open spec fn green_count(g: Seq<u8>, a: Seq<u8>, v: u8, n: int) -> int
    decreases n,
{
    if n <= 0 {
        0
    } else {
        green_count(g, a, v, n - 1) + if g[n - 1] == v && g[n - 1] == a[n - 1] {
            1int
        } else {
            0int
        }
    }
}

/// How many of the first `n` guess positions hold `v` and are marked yellow.
pub open spec fn yellow_count(g: Seq<u8>, a: Seq<u8>, v: u8, n: int) -> int
    decreases n,
{
    if n <= 0 {
        0
    } else {
        yellow_count(g, a, v, n - 1) + if g[n - 1] == v && colour_at(g, a, n - 1)
            == ColourState::Yellow {
            1int
        } else {
            0int
        }
    }
}

/// How many of the first `n` guess positions hold `v` and are marked green
/// or yellow.
pub open spec fn mark_count(g: Seq<u8>, a: Seq<u8>, v: u8, n: int) -> int
    decreases n,
{
    if n <= 0 {
        0
    } else {
        mark_count(g, a, v, n - 1) + if g[n - 1] == v && colour_at(g, a, n - 1)
            != ColourState::Grey {
            1int
        } else {
            0int
        }
    }
}

proof fn lemma_miss_count_nonneg(g: Seq<u8>, a: Seq<u8>, v: u8, n: int)
    ensures
        miss_count(g, a, v, n) >= 0,
    decreases n,
{
    if n > 0 {
        lemma_miss_count_nonneg(g, a, v, n - 1);
    }
}

proof fn lemma_pool_count_nonneg(g: Seq<u8>, a: Seq<u8>, v: u8, n: int)
    ensures
        pool_count(g, a, v, n) >= 0,
    decreases n,
{
    if n > 0 {
        lemma_pool_count_nonneg(g, a, v, n - 1);
    }
}

/// The yellow marks for `v` among the first `n` positions are as many as its
/// misplaced occurrences there, until the pool of `v` runs out.
proof fn lemma_yellow_is_clipped_miss(g: Seq<u8>, a: Seq<u8>, v: u8, n: int)
    ensures
        yellow_count(g, a, v, n) == if miss_count(g, a, v, n) <= pool_count(g, a, v, 5) {
            miss_count(g, a, v, n)
        } else {
            pool_count(g, a, v, 5)
        },
    decreases n,
{
    lemma_pool_count_nonneg(g, a, v, 5);
    if n > 0 {
        lemma_yellow_is_clipped_miss(g, a, v, n - 1);
        lemma_miss_count_nonneg(g, a, v, n - 1);
    }
}

/// Greens of `v` and pool entries of `v` together account for every
/// occurrence of `v` in the answer.
proof fn lemma_green_plus_pool(g: Seq<u8>, a: Seq<u8>, v: u8, n: int)
    ensures
        green_count(g, a, v, n) + pool_count(g, a, v, n) == letter_count(a, v, n),
    decreases n,
{
    if n > 0 {
        lemma_green_plus_pool(g, a, v, n - 1);
        if a[n - 1] == v && g[n - 1] == a[n - 1] {
            assert(g[n - 1] == v);
        }
    }
}

/// A non-grey mark is green or yellow, never both.
proof fn lemma_mark_split(g: Seq<u8>, a: Seq<u8>, v: u8, n: int)
    ensures
        mark_count(g, a, v, n) == green_count(g, a, v, n) + yellow_count(g, a, v, n),
    decreases n,
{
    if n > 0 {
        lemma_mark_split(g, a, v, n - 1);
    }
}

/// Soundness of the feedback: a position is marked green exactly when guess
/// and answer agree there, and for every letter value the green and yellow
/// marks on guess positions holding it never outnumber its occurrences in
/// the answer.
pub proof fn lemma_feedback_sound(g: Seq<u8>, a: Seq<u8>, v: u8)
    requires
        g.len() == 5,
        a.len() == 5,
    ensures
        forall|i: int|
            0 <= i < 5 ==> ((#[trigger] feedback_spec(g, a)[i]) == ColourState::Green <==> g[i]
                == a[i]),
        mark_count(g, a, v, 5) <= letter_count(a, v, 5),
{
    lemma_mark_split(g, a, v, 5);
    lemma_yellow_is_clipped_miss(g, a, v, 5);
    lemma_green_plus_pool(g, a, v, 5);
    lemma_pool_count_nonneg(g, a, v, 5);
    lemma_miss_count_nonneg(g, a, v, 5);
}

/// The feedback is a pure function of guess and answer: two computations on
/// identical inputs give identical marks.
pub proof fn lemma_feedback_deterministic(
    g: Seq<u8>,
    a: Seq<u8>,
    r1: Seq<ColourState>,
    r2: Seq<ColourState>,
)
    requires
        r1 == feedback_spec(g, a),
        r2 == feedback_spec(g, a),
    ensures
        r1 == r2,
{
}

} // verus!

//! The bounded-attempt game state machine: it owns the answer, the word
//! list and the ordered log of guesses, validates each submitted word, and
//! drives the round to a win or a loss within six attempts.

use vstd::prelude::*;

use crate::letters::{word_wf, Word};

verus! {

/// Where a round stands: `InProgress` until a guess hits the answer
/// (`Won`) or six guesses miss (`Lost`); the two latter are terminal.
#[derive(Clone, Copy, PartialEq, Eq, Structural, Debug)]
pub enum Outcome {
    InProgress,
    Won,
    Lost,
}

/// Why a submitted word was rejected; a rejected word consumes no attempt.
#[derive(Clone, Copy, PartialEq, Eq, Structural, Debug)]
pub enum GuessError {
    /// The game is already over.
    NoAttemptsRemaining,
    /// The word is not in the word list.
    UnknownWord,
}

/// Whether a word stands in a word list, both seen as letter codes.
pub open spec fn word_in_list(list: Seq<Seq<u8>>, w: Seq<u8>) -> bool {
    exists|i: int| 0 <= i < list.len() && list[i] == w
}

/// Whether a word list holds an equal word.
fn contains_word(list: &Vec<Word>, w: &Word) -> (r: bool)
    ensures
        r == word_in_list(list@.map_values(|x: Word| x@), w@),
{
    let mut i: usize = 0;
    while i < list.len()
        invariant
            i <= list@.len(),
            forall|j: int| 0 <= j < i ==> (#[trigger] list@[j])@ != w@,
        decreases list@.len() - i,
    {
        if list[i] == *w {
            proof {
                assert(list@.map_values(|x: Word| x@)[i as int] == w@);
            }
            return true;
        }
        i += 1;
    }
    proof {
        let mapped = list@.map_values(|x: Word| x@);
        if word_in_list(mapped, w@) {
            let j = choose|j: int| 0 <= j < mapped.len() && #[trigger] mapped[j] == w@;
            assert(list@[j]@ == w@);
        }
    }
    false
}

/// Relies on rand::random_range over `0..n`: the sampled value lies in the
/// given non-empty range.
#[verifier::external_body]
fn random_below(n: usize) -> (r: usize)
    requires
        n > 0,
    ensures
        r < n,
{
    rand::random_range(0..n)
}

/// One round of the game.
pub struct WordleGame {
    guesses: Vec<Word>,
    answer: Word,
    word_list: Vec<Word>,
    outcome: Outcome,
}

impl WordleGame {
    /// The guesses recorded so far, oldest first, as letter codes.
    pub closed spec fn spec_guesses(&self) -> Seq<Seq<u8>> {
        self.guesses@.map_values(|w: Word| w@)
    }

    /// The hidden answer, as letter codes.
    pub closed spec fn spec_answer(&self) -> Seq<u8> {
        self.answer@
    }

    /// The word list, as letter codes.
    pub closed spec fn spec_word_list(&self) -> Seq<Seq<u8>> {
        self.word_list@.map_values(|w: Word| w@)
    }

    /// Where the round stands.
    pub closed spec fn spec_outcome(&self) -> Outcome {
        self.outcome
    }

    /// Whether another guess may be submitted.
    pub open spec fn spec_can_guess(&self) -> bool {
        self.spec_guesses().len() < 6 && self.spec_outcome() == Outcome::InProgress
    }

    /// The game invariant: the word list is non-empty and well formed, the
    /// answer and every recorded guess are drawn from it, at most six
    /// guesses stand, and the outcome tells exactly whether some guess hit
    /// the answer, with `Lost` only at six guesses and `InProgress` only
    /// below six.
    pub open spec fn wf(&self) -> bool {
        &&& self.spec_word_list().len() > 0
        &&& forall|i: int|
            0 <= i < self.spec_word_list().len() ==> word_wf(#[trigger] self.spec_word_list()[i])
        &&& word_in_list(self.spec_word_list(), self.spec_answer())
        &&& self.spec_guesses().len() <= 6
        &&& forall|i: int|
            0 <= i < self.spec_guesses().len() ==> word_in_list(
                self.spec_word_list(),
                #[trigger] self.spec_guesses()[i],
            )
        &&& (self.spec_outcome() == Outcome::Won <==> exists|i: int|
            0 <= i < self.spec_guesses().len() && self.spec_guesses()[i] == self.spec_answer())
        &&& (self.spec_outcome() == Outcome::Lost ==> self.spec_guesses().len() == 6)
        &&& (self.spec_outcome() == Outcome::InProgress ==> self.spec_guesses().len() < 6)
    }

    /// Starts a round over a non-empty word list, drawing the answer from
    /// the list at random.
    pub fn new(word_list: Vec<Word>) -> (g: WordleGame)
        requires
            word_list@.len() > 0,
            forall|i: int| 0 <= i < word_list@.len() ==> (#[trigger] word_list@[i]).wf(),
        ensures
            g.wf(),
            g.spec_word_list() == word_list@.map_values(|w: Word| w@),
            g.spec_guesses() == Seq::<Seq<u8>>::empty(),
            g.spec_outcome() == Outcome::InProgress,
            word_in_list(g.spec_word_list(), g.spec_answer()),
    {
        let idx = random_below(word_list.len());
        let answer = word_list[idx];
        let g = WordleGame { guesses: Vec::new(), answer, word_list, outcome: Outcome::InProgress };
        proof {
            assert(g.spec_guesses() =~= Seq::<Seq<u8>>::empty());
            assert(g.spec_word_list()[idx as int] == g.spec_answer());
        }
        g
    }

    /// Starts a round with a chosen answer; rejected when the answer is not
    /// in the word list.
    pub fn with_answer(word_list: Vec<Word>, answer: Word) -> (r: Option<WordleGame>)
        requires
            forall|i: int| 0 <= i < word_list@.len() ==> (#[trigger] word_list@[i]).wf(),
        ensures
            r is Some <==> word_in_list(word_list@.map_values(|w: Word| w@), answer@),
            r matches Some(g) ==> {
                &&& g.wf()
                &&& g.spec_word_list() == word_list@.map_values(|w: Word| w@)
                &&& g.spec_answer() == answer@
                &&& g.spec_guesses() == Seq::<Seq<u8>>::empty()
                &&& g.spec_outcome() == Outcome::InProgress
            },
    {
        if contains_word(&word_list, &answer) {
            let g = WordleGame {
                guesses: Vec::new(),
                answer,
                word_list,
                outcome: Outcome::InProgress,
            };
            proof {
                assert(g.spec_guesses() =~= Seq::<Seq<u8>>::empty());
            }
            Some(g)
        } else {
            None
        }
    }

    /// Whether another guess may be submitted: fewer than six recorded and
    /// the round still in progress.
    pub fn can_guess(&self) -> (r: bool)
        ensures
            r == self.spec_can_guess(),
    {
        self.guesses.len() < 6 && self.outcome == Outcome::InProgress
    }

    /// Submits a word. A word submitted after the round is over, or one not
    /// in the word list, is rejected and changes nothing. An accepted word
    /// is appended to the guesses; the round is then won when it equals the
    /// answer, lost when it was the sixth miss, and otherwise goes on.
    pub fn guess(&mut self, word: Word) -> (r: Result<(), GuessError>)
        requires
            old(self).wf(),
        ensures
            final(self).wf(),
            final(self).spec_answer() == old(self).spec_answer(),
            final(self).spec_word_list() == old(self).spec_word_list(),
            !old(self).spec_can_guess() ==> r == Err::<(), GuessError>(
                GuessError::NoAttemptsRemaining,
            ) && *final(self) == *old(self),
            old(self).spec_can_guess() && !word_in_list(old(self).spec_word_list(), word@)
                ==> r == Err::<(), GuessError>(GuessError::UnknownWord)
                    && *final(self) == *old(self),
            old(self).spec_can_guess() && word_in_list(old(self).spec_word_list(), word@)
                ==> r == Ok::<(), GuessError>(())
                    && final(self).spec_guesses() == old(self).spec_guesses().push(word@),
            old(self).spec_can_guess() && word_in_list(old(self).spec_word_list(), word@)
                && word@ == old(self).spec_answer()
                ==> final(self).spec_outcome() == Outcome::Won,
            old(self).spec_can_guess() && word_in_list(old(self).spec_word_list(), word@)
                && word@ != old(self).spec_answer() && old(self).spec_guesses().len() + 1 == 6
                ==> final(self).spec_outcome() == Outcome::Lost,
            old(self).spec_can_guess() && word_in_list(old(self).spec_word_list(), word@)
                && word@ != old(self).spec_answer() && old(self).spec_guesses().len() + 1 < 6
                ==> final(self).spec_outcome() == Outcome::InProgress,
    {
        if !self.can_guess() {
            return Err(GuessError::NoAttemptsRemaining);
        }
        if !contains_word(&self.word_list, &word) {
            return Err(GuessError::UnknownWord);
        }
        let won = word == self.answer;
        let ghost before = *self;
        self.guesses.push(word);
        proof {
            assert(self.spec_guesses() =~= before.spec_guesses().push(word@));
        }
        if won {
            self.outcome = Outcome::Won;
            proof {
                assert(self.spec_guesses()[self.spec_guesses().len() - 1] == self.spec_answer());
            }
        } else if self.guesses.len() == 6 {
            self.outcome = Outcome::Lost;
        }
        proof {
            if !won {
                assert forall|i: int|
                    0 <= i < self.spec_guesses().len() implies !(self.spec_guesses()[i]
                    == self.spec_answer() && self.spec_outcome() != Outcome::Won) by {
                    if i < before.spec_guesses().len() {
                        assert(self.spec_guesses()[i] == before.spec_guesses()[i]);
                    }
                }
            }
        }
        Ok(())
    }

    /// Where the round stands.
    pub fn outcome(&self) -> (r: Outcome)
        ensures
            r == self.spec_outcome(),
    {
        self.outcome
    }

    /// How many guesses have been recorded.
    pub fn num_guesses(&self) -> (r: usize)
        ensures
            r == self.spec_guesses().len(),
    {
        self.guesses.len()
    }

    /// The recorded guess at a position, oldest first.
    pub fn guess_word(&self, i: usize) -> (r: Word)
        requires
            i < self.spec_guesses().len(),
        ensures
            r@ == self.spec_guesses()[i as int],
    {
        self.guesses[i]
    }

    /// The hidden answer.
    pub fn answer_word(&self) -> (r: Word)
        ensures
            r@ == self.spec_answer(),
    {
        self.answer
    }
}

/// After six recorded guesses none of which hit the answer, no further
/// guess is allowed and the round stands lost.
pub proof fn lemma_six_misses_lose(g: WordleGame)
    requires
        g.wf(),
        g.spec_guesses().len() == 6,
        forall|i: int| 0 <= i < 6 ==> (#[trigger] g.spec_guesses()[i]) != g.spec_answer(),
    ensures
        !g.spec_can_guess(),
        g.spec_outcome() == Outcome::Lost,
{
    assert(g.spec_outcome() != Outcome::Won);
    assert(g.spec_outcome() != Outcome::InProgress);
}

/// Once some recorded guess has hit the answer the round stands won,
/// however many attempts remain.
pub proof fn lemma_hit_wins(g: WordleGame, i: int)
    requires
        g.wf(),
        0 <= i < g.spec_guesses().len(),
        g.spec_guesses()[i] == g.spec_answer(),
    ensures
        g.spec_outcome() == Outcome::Won,
{
}

} // verus!

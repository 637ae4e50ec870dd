//! Letters of the 26-symbol alphabet and five-letter words built from them.

use vstd::prelude::*;

verus! {

/// Whether a byte is the ASCII code of a lowercase letter, `b'a'..=b'z'`.
pub open spec fn is_letter_ascii(b: u8) -> bool {
    97 <= b <= 122
}

/// One of the 26 letters, held as a code in `0..26` standing for `'a'..='z'`.
#[derive(Clone, Copy, PartialEq, Eq, Structural, Debug)]
pub struct Letter {
    code: u8,
}

impl View for Letter {
    type V = u8;

    closed spec fn view(&self) -> u8 {
        self.code
    }
}

impl Letter {
    /// A letter is well formed when its code lies in the alphabet.
    pub open spec fn wf(&self) -> bool {
        self@ < 26
    }

    /// The letter written as a given lowercase ASCII byte.
    pub fn get_letter(input: u8) -> (r: Letter)
        requires
            is_letter_ascii(input),
        ensures
            r@ == input - 97,
            r.wf(),
    {
        Letter { code: input - 97 }
    }

    /// Like `get_letter`, with every other byte rejected instead of excluded.
    pub fn try_from_ascii(input: u8) -> (r: Option<Letter>)
        ensures
            r is Some <==> is_letter_ascii(input),
            r matches Some(l) ==> l@ == input - 97 && l.wf(),
    {
        if 97 <= input && input <= 122 {
            Some(Letter { code: input - 97 })
        } else {
            None
        }
    }

    /// The code of the letter, in `0..26` when the letter is well formed.
    pub fn code(&self) -> (r: u8)
        ensures
            r == self@,
    {
        self.code
    }

    /// The lowercase ASCII byte that writes this letter.
    pub fn to_ascii(&self) -> (r: u8)
        requires
            self.wf(),
        ensures
            r == self@ + 97,
            is_letter_ascii(r),
    {
        self.code + 97
    }
}

/// Why a submitted line of bytes is no word.
#[derive(Clone, Copy, PartialEq, Eq, Structural, Debug)]
pub enum WordError {
    /// The line does not hold exactly five symbols.
    InvalidLength,
    /// A symbol of the line lies outside the 26-letter alphabet.
    InvalidSymbol,
}

/// The letter codes a line of lowercase ASCII bytes spells.
pub open spec fn decode_ascii(line: Seq<u8>) -> Seq<u8> {
    line.map_values(|b: u8| (b - 97) as u8)
}

/// Whether a line of bytes spells a valid word: exactly five lowercase
/// ASCII letters.
pub open spec fn line_ok(line: Seq<u8>) -> bool {
    line.len() == 5 && forall|i: int| 0 <= i < 5 ==> is_letter_ascii(#[trigger] line[i])
}

/// Whether a sequence of letter codes forms a well-formed word.
pub open spec fn word_wf(w: Seq<u8>) -> bool {
    w.len() == 5 && forall|i: int| 0 <= i < 5 ==> #[trigger] w[i] < 26
}

/// An ordered sequence of exactly five letters, immutable once built.
#[derive(Clone, Copy, Debug)]
pub struct Word {
    letters: [Letter; 5],
}

impl View for Word {
    type V = Seq<u8>;

    closed spec fn view(&self) -> Seq<u8> {
        Seq::new(5, |i: int| self.letters[i]@)
    }
}

impl PartialEq for Word {
    /// Two words are equal exactly when all five positions match.
    fn eq(&self, other: &Word) -> (r: bool) {
        let r = self.letters[0].code() == other.letters[0].code()
            && self.letters[1].code() == other.letters[1].code()
            && self.letters[2].code() == other.letters[2].code()
            && self.letters[3].code() == other.letters[3].code()
            && self.letters[4].code() == other.letters[4].code();
        proof {
            if r {
                assert(self@ =~= other@);
            } else {
                assert(!(self@ == other@)) by {
                    if self@ == other@ {
                        assert(self@[0] == other@[0]);
                        assert(self@[1] == other@[1]);
                        assert(self@[2] == other@[2]);
                        assert(self@[3] == other@[3]);
                        assert(self@[4] == other@[4]);
                    }
                }
            }
        }
        r
    }
}

impl vstd::std_specs::cmp::PartialEqSpecImpl for Word {
    open spec fn obeys_eq_spec() -> bool {
        true
    }

    open spec fn eq_spec(&self, other: &Word) -> bool {
        self@ == other@
    }
}

impl Word {
    /// A word is well formed when each of its letters is.
    pub open spec fn wf(&self) -> bool {
        word_wf(self@)
    }

    /// Builds a word from a line of bytes: rejects a line that is not
    /// exactly five symbols, and one holding a symbol outside the alphabet.
    pub fn from_ascii_bytes(bytes: &Vec<u8>) -> (r: Result<Word, WordError>)
        ensures
            r is Ok <==> line_ok(bytes@),
            r == Err::<Word, WordError>(WordError::InvalidLength) <==> bytes@.len() != 5,
            r == Err::<Word, WordError>(WordError::InvalidSymbol) <==> bytes@.len() == 5
                && !line_ok(bytes@),
            r matches Ok(w) ==> w@ == decode_ascii(bytes@) && w.wf(),
    {
        if bytes.len() != 5 {
            return Err(WordError::InvalidLength);
        }
        let l0 = match Letter::try_from_ascii(bytes[0]) {
            Some(l) => l,
            None => return Err(WordError::InvalidSymbol),
        };
        let l1 = match Letter::try_from_ascii(bytes[1]) {
            Some(l) => l,
            None => return Err(WordError::InvalidSymbol),
        };
        let l2 = match Letter::try_from_ascii(bytes[2]) {
            Some(l) => l,
            None => return Err(WordError::InvalidSymbol),
        };
        let l3 = match Letter::try_from_ascii(bytes[3]) {
            Some(l) => l,
            None => return Err(WordError::InvalidSymbol),
        };
        let l4 = match Letter::try_from_ascii(bytes[4]) {
            Some(l) => l,
            None => return Err(WordError::InvalidSymbol),
        };
        let w = Word { letters: [l0, l1, l2, l3, l4] };
        proof {
            assert(w@ =~= decode_ascii(bytes@));
        }
        Ok(w)
    }

    /// The letter at a position.
    pub fn letter(&self, i: usize) -> (r: Letter)
        requires
            i < 5,
        ensures
            r@ == self@[i as int],
    {
        self.letters[i]
    }

    /// The word written back as five lowercase ASCII bytes.
    pub fn to_ascii_bytes(&self) -> (r: Vec<u8>)
        requires
            self.wf(),
        ensures
            r@.len() == 5,
            forall|i: int| 0 <= i < 5 ==> #[trigger] r@[i] == self@[i] + 97,
    {
        let mut out: Vec<u8> = Vec::new();
        let mut i: usize = 0;
        while i < 5
            invariant
                i <= 5,
                self.wf(),
                out@.len() == i,
                forall|j: int| 0 <= j < i ==> #[trigger] out@[j] == self@[j] + 97,
            decreases 5 - i,
        {
            out.push(self.letter(i).to_ascii());
            i += 1;
        }
        out
    }
}

/// Why a word list fails to load.
#[derive(Clone, Copy, PartialEq, Eq, Structural, Debug)]
pub enum WordListError {
    /// Some line of the list is not a valid five-letter word.
    InvalidWordList,
}

/// Builds the word list from the lines of its source: every line must spell
/// a valid five-letter word, else the whole list is rejected.
pub fn parse_word_list(lines: &Vec<Vec<u8>>) -> (r: Result<Vec<Word>, WordListError>)
    ensures
        r is Ok <==> (forall|i: int| 0 <= i < lines@.len() ==> line_ok(#[trigger] lines@[i]@)),
        r matches Ok(ws) ==> {
            &&& ws@.len() == lines@.len()
            &&& forall|i: int|
                0 <= i < ws@.len() ==> (#[trigger] ws@[i])@ == decode_ascii(lines@[i]@)
                    && ws@[i].wf()
        },
{
    let mut words: Vec<Word> = Vec::new();
    let mut i: usize = 0;
    while i < lines.len()
        invariant
            i <= lines@.len(),
            words@.len() == i,
            forall|j: int| 0 <= j < i ==> line_ok(#[trigger] lines@[j]@),
            forall|j: int|
                0 <= j < i ==> (#[trigger] words@[j])@ == decode_ascii(lines@[j]@)
                    && words@[j].wf(),
        decreases lines@.len() - i,
    {
        match Word::from_ascii_bytes(&lines[i]) {
            Ok(w) => words.push(w),
            Err(_) => {
                return Err(WordListError::InvalidWordList);
            },
        }
        i += 1;
    }
    Ok(words)
}

} // verus!

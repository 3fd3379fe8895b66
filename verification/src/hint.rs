//! Per-letter feedback for a guessed word.

use vstd::prelude::*;
use vstd::string::StrSliceExecFns;
use crate::words::str_eq;

verus! {

/// Feedback for one letter of a guess.
#[derive(Eq, PartialEq, Copy, Clone, Debug, Structural)]
pub enum LetterHint {
    /// The letter in the guess word is the same as in the target word.
    Correct,
    /// The letter appears in the target word but is not placed correctly
    /// in the guess word (and the letter's supply is not yet exhausted).
    PlacementIncorrect,
    /// The letter does not appear in the target word, or every occurrence
    /// of it in the target is already taken.
    Incorrect,
}

/// How many positions `j < end` carry `letter` in the target without the
/// guess matching the target exactly there: the supply of `letter` that is
/// left over for out-of-place matches.
pub open spec fn misplaced_supply(
    guess: Seq<char>,
    target: Seq<char>,
    letter: char,
    end: int,
) -> nat
    decreases end,
{
    if end <= 0 {
        0
    } else {
        misplaced_supply(guess, target, letter, end - 1) + (if target[end - 1] == letter
            && guess[end - 1] != target[end - 1] {
            1nat
        } else {
            0nat
        })
    }
}

/// How many positions `j < end` carry `letter` in the guess without
/// matching the target exactly there: the amount of the supply of `letter`
/// that the guess positions before `end` have already consumed.
pub open spec fn misplaced_demand(
    guess: Seq<char>,
    target: Seq<char>,
    letter: char,
    end: int,
) -> nat
    decreases end,
{
    if end <= 0 {
        0
    } else {
        misplaced_demand(guess, target, letter, end - 1) + (if guess[end - 1] == letter && guess[
            end - 1] != target[end - 1] {
            1nat
        } else {
            0nat
        })
    }
}

/// The hint for position `i`: an exact match is `Correct`; otherwise the
/// letter is `PlacementIncorrect` while earlier out-of-place occurrences of
/// the same letter have not yet consumed its whole leftover supply in the
/// target, and `Incorrect` once they have.
pub open spec fn hint_at(guess: Seq<char>, target: Seq<char>, i: int) -> LetterHint {
    if guess[i] == target[i] {
        LetterHint::Correct
    } else if misplaced_demand(guess, target, guess[i], i) < misplaced_supply(
        guess,
        target,
        guess[i],
        target.len() as int,
    ) {
        LetterHint::PlacementIncorrect
    } else {
        LetterHint::Incorrect
    }
}

/// The full hint sequence, one hint per guess position.
pub open spec fn hints_of(guess: Seq<char>, target: Seq<char>) -> Seq<LetterHint> {
    Seq::new(guess.len(), |i: int| hint_at(guess, target, i))
}

/// Hints for a guessed word: the pairing of one guess with the target word.
#[derive(Debug)]
pub struct GuessHint {
    guessed: String,
    word_to_guess: String,
}

/// The model of a [`GuessHint`]: the two words as character sequences.
pub ghost struct GuessHintView {
    pub guessed: Seq<char>,
    pub word_to_guess: Seq<char>,
}

impl View for GuessHint {
    type V = GuessHintView;

    closed spec fn view(&self) -> GuessHintView {
        GuessHintView { guessed: self.guessed@, word_to_guess: self.word_to_guess@ }
    }
}

impl PartialEq for GuessHint {
    fn eq(&self, other: &GuessHint) -> (r: bool) {
        str_eq(self.guessed.as_str(), other.guessed.as_str()) && str_eq(
            self.word_to_guess.as_str(),
            other.word_to_guess.as_str(),
        )
    }
}

impl vstd::std_specs::cmp::PartialEqSpecImpl for GuessHint {
    open spec fn obeys_eq_spec() -> bool {
        true
    }

    open spec fn eq_spec(&self, other: &GuessHint) -> bool {
        self@.guessed == other@.guessed && self@.word_to_guess == other@.word_to_guess
    }
}

impl GuessHint {
    /// Both words are non-empty and of the same length.
    #[verifier::type_invariant]
    spec fn wf(self) -> bool {
        self@.guessed.len() == self@.word_to_guess.len() && self@.guessed.len() > 0
    }

    /// Pair a guessed word with the target word.
    ///
    /// Both words must be non-empty and of the same length; the engine only
    /// ever constructs hints over guesses it has validated.
    pub fn new(guessed: &str, word_to_guess: &str) -> (hint: GuessHint)
        requires
            guessed@.len() == word_to_guess@.len(),
            guessed@.len() > 0,
        ensures
            hint@.guessed == guessed@,
            hint@.word_to_guess == word_to_guess@,
    {
        GuessHint { guessed: guessed.to_owned(), word_to_guess: word_to_guess.to_owned() }
    }

    /// The guessed word, exactly as it was recorded.
    pub fn guessed(&self) -> (word: &str)
        ensures
            word@ == self@.guessed,
    {
        self.guessed.as_str()
    }

    /// The per-letter feedback for the guessed word.
    ///
    /// First pass: exact matches become `Correct`. Second pass, left to
    /// right over the rest: a letter is `PlacementIncorrect` while the
    /// target still has unconsumed occurrences of it outside the exact
    /// matches, `Incorrect` afterwards.
    pub fn letter_hints(&self) -> (hints: Vec<LetterHint>)
        ensures
            hints@ == hints_of(self@.guessed, self@.word_to_guess),
    {
        proof {
            use_type_invariant(&*self);
        }
        let guess = self.guessed.as_str();
        let target = self.word_to_guess.as_str();
        let len = guess.unicode_len();
        let mut hints: Vec<LetterHint> = Vec::new();
        for i in 0..len
            invariant
                len == guess@.len(),
                guess@.len() == target@.len(),
                hints@.len() == i,
                forall|k: int| 0 <= k < i ==> hints@[k] == hint_at(guess@, target@, k),
        {
            let gc = guess.get_char(i);
            let tc = target.get_char(i);
            if gc == tc {
                hints.push(LetterHint::Correct);
            } else {
                let supply = count_misplaced_supply(guess, target, gc);
                let used = count_misplaced_demand(guess, target, gc, i);
                if used < supply {
                    hints.push(LetterHint::PlacementIncorrect);
                } else {
                    hints.push(LetterHint::Incorrect);
                }
            }
        }
        proof {
            assert(hints@ =~= hints_of(self@.guessed, self@.word_to_guess));
        }
        hints
    }

    /// Each guessed letter paired with its hint.
    pub fn guessed_letters_and_hints(&self) -> (pairs: Vec<(char, LetterHint)>)
        ensures
            pairs@.len() == self@.guessed.len(),
            forall|i: int| 0 <= i < pairs@.len() ==> #[trigger] pairs@[i] == (
            self@.guessed[i],
            hints_of(self@.guessed, self@.word_to_guess)[i],
            ),
    {
        proof {
            use_type_invariant(&*self);
        }
        let hints = self.letter_hints();
        let guess = self.guessed.as_str();
        let len = guess.unicode_len();
        let mut pairs: Vec<(char, LetterHint)> = Vec::new();
        for i in 0..len
            invariant
                len == guess@.len(),
                guess@ == self@.guessed,
                hints@ == hints_of(self@.guessed, self@.word_to_guess),
                hints@.len() == len,
                pairs@.len() == i,
                forall|k: int| 0 <= k < i ==> #[trigger] pairs@[k] == (
                    self@.guessed[k],
                    hints_of(self@.guessed, self@.word_to_guess)[k],
                ),
        {
            pairs.push((guess.get_char(i), hints[i]));
        }
        pairs
    }
}

/// The leftover supply of `letter` in the whole target word: positions
/// where the target carries `letter` but the guess does not match exactly.
fn count_misplaced_supply(guess: &str, target: &str, letter: char) -> (n: usize)
    requires
        guess@.len() == target@.len(),
    ensures
        n == misplaced_supply(guess@, target@, letter, target@.len() as int),
{
    let len = target.unicode_len();
    let mut n: usize = 0;
    for j in 0..len
        invariant
            len == target@.len(),
            guess@.len() == target@.len(),
            n == misplaced_supply(guess@, target@, letter, j as int),
            n <= j,
    {
        let tc = target.get_char(j);
        let gc = guess.get_char(j);
        if tc == letter && gc != tc {
            n = n + 1;
        }
    }
    n
}

/// How much of the supply of `letter` the guess positions before `end`
/// have already consumed: out-of-place occurrences of `letter` in the
/// guess before `end`.
fn count_misplaced_demand(guess: &str, target: &str, letter: char, end: usize) -> (n: usize)
    requires
        guess@.len() == target@.len(),
        end <= guess@.len(),
    ensures
        n == misplaced_demand(guess@, target@, letter, end as int),
{
    let mut n: usize = 0;
    for j in 0..end
        invariant
            end <= guess@.len(),
            guess@.len() == target@.len(),
            n == misplaced_demand(guess@, target@, letter, j as int),
            n <= j,
    {
        let gc = guess.get_char(j);
        let tc = target.get_char(j);
        if gc == letter && gc != tc {
            n = n + 1;
        }
    }
    n
}

/// Number of occurrences of `letter` in `s` before position `end`.
pub open spec fn occurrence_count(s: Seq<char>, letter: char, end: int) -> nat
    decreases end,
{
    if end <= 0 {
        0
    } else {
        occurrence_count(s, letter, end - 1) + (if s[end - 1] == letter {
            1nat
        } else {
            0nat
        })
    }
}

/// Occurrence counts of the letters of a word.
///
/// Stands in for a hash map keyed by characters: it keeps the letters and
/// counts on demand.
pub struct LetterOccurrences {
    letters: Vec<char>,
}

impl View for LetterOccurrences {
    type V = Seq<char>;

    closed spec fn view(&self) -> Seq<char> {
        self.letters@
    }
}

impl LetterOccurrences {
    /// How many times `letter` occurs, or `None` if it does not occur.
    pub fn get(&self, letter: char) -> (count: Option<usize>)
        ensures
            count == (if occurrence_count(self@, letter, self@.len() as int) > 0 {
                Some(occurrence_count(self@, letter, self@.len() as int) as usize)
            } else {
                None::<usize>
            }),
    {
        let mut n: usize = 0;
        let len = self.letters.len();
        for j in 0..len
            invariant
                len == self@.len(),
                n == occurrence_count(self@, letter, j as int),
                n <= j,
        {
            if self.letters[j] == letter {
                n = n + 1;
            }
        }
        if n > 0 {
            Some(n)
        } else {
            None
        }
    }
}

/// Count the number of times each letter appears in a string.
pub fn get_letter_occurrences(letters: &str) -> (occurrences: LetterOccurrences)
    ensures
        occurrences@ == letters@,
{
    let len = letters.unicode_len();
    let mut collected: Vec<char> = Vec::new();
    for i in 0..len
        invariant
            len == letters@.len(),
            collected@.len() == i,
            forall|k: int| 0 <= k < i ==> collected@[k] == letters@[k],
    {
        collected.push(letters.get_char(i));
    }
    proof {
        assert(collected@ =~= letters@);
    }
    LetterOccurrences { letters: collected }
}

} // verus!

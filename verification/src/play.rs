//! Decisions of the interactive game loop, free of input and output.

use vstd::prelude::*;
use vstd::string::StrSliceExecFns;
use crate::ansi::{format_green_bg, format_yellow_bg};
use crate::game::{already_guessed, Game};
use crate::hint::LetterHint;
use crate::words::{char_to_string, str_eq, upper_of, uppercase};

verus! {

/// Why a word typed by the player cannot be submitted.
#[derive(Debug, PartialEq, Eq, Structural)]
pub enum GuessWordError {
    /// The word has already been played.
    AlreadyPlayed,
    /// The typed line holds no word.
    Empty,
    /// The word does not have the target's length.
    LengthInvalid {
        /// Length of the word to guess.
        expected: usize,
    },
}

/// Whether `guess` has the same length as the game's target word.
pub fn word_has_correct_length(game: &Game, guess: &str) -> (correct: bool)
    ensures
        correct == (game@.target.len() == guess@.len()),
{
    game.word_to_guess().unicode_len() == guess.unicode_len()
}

/// Whether `guess` has already been played in `game`.
pub fn word_has_been_played(game: &Game, guess: &str) -> (played: bool)
    ensures
        played == already_guessed(game@.guesses, guess@),
{
    let guesses = game.guesses();
    let n = guesses.len();
    for i in 0..n
        invariant
            n == guesses@.len(),
            guesses.deep_view() == game@.guesses,
            forall|k: int| 0 <= k < i ==> game@.guesses[k] != guess@,
    {
        if str_eq(guesses[i].as_str(), guess) {
            proof {
                assert(game@.guesses[i as int] == guesses@[i as int]@);
            }
            return true;
        }
    }
    false
}

/// The error to show for the typed word `guessed` (already trimmed and
/// case-normalized by the caller), or `None` when it can be submitted.
pub fn get_guess_word_error(game: &Game, guessed: &str) -> (error: Option<GuessWordError>)
    ensures
        error == (if guessed@.len() == 0 {
            Some(GuessWordError::Empty)
        } else if guessed@.len() != game@.target.len() {
            Some(GuessWordError::LengthInvalid { expected: game@.target.len() as usize })
        } else if already_guessed(game@.guesses, guessed@) {
            Some(GuessWordError::AlreadyPlayed)
        } else {
            None::<GuessWordError>
        }),
{
    if guessed.is_empty() {
        Some(GuessWordError::Empty)
    } else if !word_has_correct_length(game, guessed) {
        Some(GuessWordError::LengthInvalid { expected: game.word_to_guess().unicode_len() })
    } else if word_has_been_played(game, guessed) {
        Some(GuessWordError::AlreadyPlayed)
    } else {
        None
    }
}

/// One letter of a guess, formatted after its hint: green background when
/// correct, yellow when misplaced, the bare letter otherwise.
pub fn format_guess_hint_letter(letter: char, hint: LetterHint) -> (r: String)
    ensures
        r@ == (match hint {
            LetterHint::Correct => "\x1b[48;5;2m"@ + seq![letter] + "\x1b[0m"@,
            LetterHint::PlacementIncorrect => "\x1b[48;5;3m"@ + seq![letter] + "\x1b[0m"@,
            LetterHint::Incorrect => seq![letter],
        }),
{
    match hint {
        LetterHint::Correct => format_green_bg(letter),
        LetterHint::PlacementIncorrect => format_yellow_bg(letter),
        LetterHint::Incorrect => char_to_string(letter),
    }
}

/// The player's answer to "keep playing?", case-insensitively:
/// `Some(true)` for yes, `Some(false)` for no, `None` when the answer
/// means neither and must be asked again.
pub fn parse_keep_playing(answer: &str) -> (decision: Option<bool>)
    ensures
        decision == (if upper_of(answer@) == "Y"@ || upper_of(answer@) == "YES"@ {
            Some(true)
        } else if upper_of(answer@) == "N"@ || upper_of(answer@) == "NO"@ {
            Some(false)
        } else {
            None::<bool>
        }),
{
    let upper = uppercase(answer);
    if str_eq(upper.as_str(), "Y") || str_eq(upper.as_str(), "YES") {
        Some(true)
    } else if str_eq(upper.as_str(), "N") || str_eq(upper.as_str(), "NO") {
        Some(false)
    } else {
        None
    }
}

} // verus!

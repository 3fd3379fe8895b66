//! Rules for a single game.

use vstd::prelude::*;
use vstd::string::StrSliceExecFns;
use crate::hint::{GuessHint, GuessHintView};
use crate::words::{str_eq, upper_of, uppercase};

verus! {

/// Number of attempts a game allows before it is lost, unless a custom
/// limit is chosen at construction.
pub const DEFAULT_ATTEMPTS_COUNT_LIMIT: usize = 6;

/// Wordle game: a secret target word, the history of guesses, and the
/// number of attempts allowed before the game is lost.
pub struct Game {
    word_to_guess: String,
    guesses: Vec<String>,
    attempts_count_limit: usize,
}

/// The model of a [`Game`]: the case-normalized target word, the recorded
/// guesses (oldest first), and the attempt limit.
pub ghost struct GameView {
    pub target: Seq<char>,
    pub guesses: Seq<Seq<char>>,
    pub limit: nat,
}

impl GameView {
    /// Validity of a game's model: a non-empty target, a positive attempt
    /// limit, and a history whose entries match the target's length and
    /// are pairwise distinct.
    pub open spec fn wf(self) -> bool {
        &&& self.target.len() > 0
        &&& self.limit >= 1
        &&& forall|i: int|
            0 <= i < self.guesses.len() ==> (#[trigger] self.guesses[i]).len()
                == self.target.len()
        &&& forall|i: int, j: int|
            0 <= i < j < self.guesses.len() ==> self.guesses[i] != self.guesses[j]
    }
}

impl View for Game {
    type V = GameView;

    closed spec fn view(&self) -> GameView {
        GameView {
            target: self.word_to_guess@,
            guesses: self.guesses.deep_view(),
            limit: self.attempts_count_limit as nat,
        }
    }
}

/// A new game could not be instantiated.
#[derive(Debug, PartialEq, Eq, Structural)]
pub enum GameNewError {
    /// The target word had a null length.
    WordToGuessEmpty,
    /// The allowed attempts (before losing the game) count was invalid.
    AttemptsCountLimitNull,
}

/// Wordle game state.
#[derive(Debug, PartialEq, Eq, Structural)]
pub enum GameState {
    /// The game is not done yet.
    Pending {
        /// Number of attempts left before losing the game.
        attempts_remaining: usize,
    },
    /// The game is won: congratulations.
    Won {
        /// Number of guesses performed to win the game.
        attempts: usize,
    },
    /// The game was lost: all allowed guesses have failed.
    Lost,
}

/// Error while guessing a word.
#[derive(Debug, PartialEq, Eq, Structural)]
pub enum GameGuessError {
    /// The guessed word length did not match the word to guess length.
    LengthInvalid {
        /// Length of the guessed word.
        given: usize,
        /// Length of the word to guess.
        expected: usize,
    },
    /// The submitted word has already been played before.
    AlreadyPlayed,
}

/// The state a game's history derives. Matching the target with the most
/// recent guess wins, even on the very attempt that exhausts the limit;
/// otherwise an exhausted limit loses; otherwise the game is pending.
pub open spec fn spec_state(g: GameView) -> GameState {
    if g.guesses.len() > 0 && g.guesses.last() == g.target {
        GameState::Won { attempts: g.guesses.len() as usize }
    } else if g.guesses.len() >= g.limit {
        GameState::Lost
    } else {
        GameState::Pending { attempts_remaining: (g.limit - g.guesses.len()) as usize }
    }
}

/// Whether `word` already occurs among the recorded guesses.
pub open spec fn already_guessed(guesses: Seq<Seq<char>>, word: Seq<char>) -> bool {
    exists|i: int| 0 <= i < guesses.len() && guesses[i] == word
}

/// The complete outcome of submitting the raw word `raw` to the game `g`:
/// the game afterwards, and the verdict. The submission is judged on the
/// case-normalized word alone; a rejected submission leaves the game
/// unchanged, an accepted one appends the word and reports the new state.
pub open spec fn spec_guess(g: GameView, raw: Seq<char>) -> (GameView, Result<
    GameState,
    GameGuessError,
>) {
    let word = upper_of(raw);
    if word.len() != g.target.len() {
        (
            g,
            Err(
                GameGuessError::LengthInvalid {
                    given: word.len() as usize,
                    expected: g.target.len() as usize,
                },
            ),
        )
    } else if already_guessed(g.guesses, word) {
        (g, Err(GameGuessError::AlreadyPlayed))
    } else {
        let stepped = GameView { guesses: g.guesses.push(word), ..g };
        (stepped, Ok(spec_state(stepped)))
    }
}

impl Game {
    #[verifier::type_invariant]
    spec fn inv(self) -> bool {
        self@.wf()
    }

    /// New game, whose goal is to guess the specified word.
    ///
    /// The word is normalized to uppercase and the attempt limit is
    /// [`DEFAULT_ATTEMPTS_COUNT_LIMIT`]; an empty word is rejected.
    pub fn new(word_to_guess: &str) -> (result: Result<Game, GameNewError>)
        ensures
            match result {
                Ok(game) => ({
                    &&& word_to_guess@.len() > 0
                    &&& game@.wf()
                    &&& game@.target == upper_of(word_to_guess@)
                    &&& game@.guesses == Seq::<Seq<char>>::empty()
                    &&& game@.limit == DEFAULT_ATTEMPTS_COUNT_LIMIT as nat
                }),
                Err(e) => word_to_guess@.len() == 0 && e == GameNewError::WordToGuessEmpty,
            },
    {
        if word_to_guess.is_empty() {
            Err(GameNewError::WordToGuessEmpty)
        } else {
            let game = Game {
                word_to_guess: uppercase(word_to_guess),
                guesses: Vec::new(),
                attempts_count_limit: DEFAULT_ATTEMPTS_COUNT_LIMIT,
            };
            proof {
                assert(game@.guesses =~= Seq::<Seq<char>>::empty());
            }
            Ok(game)
        }
    }

    /// New game with custom attempts count limit.
    ///
    /// The limit is checked first: a null limit is rejected even when the
    /// word is empty too.
    pub fn new_with_attempts_count_limit(word_to_guess: &str, attempts_count_limit: usize) -> (result:
        Result<Game, GameNewError>)
        ensures
            match result {
                Ok(game) => ({
                    &&& attempts_count_limit >= 1
                    &&& word_to_guess@.len() > 0
                    &&& game@.wf()
                    &&& game@.target == upper_of(word_to_guess@)
                    &&& game@.guesses == Seq::<Seq<char>>::empty()
                    &&& game@.limit == attempts_count_limit as nat
                }),
                Err(GameNewError::AttemptsCountLimitNull) => attempts_count_limit == 0,
                Err(GameNewError::WordToGuessEmpty) => attempts_count_limit >= 1
                    && word_to_guess@.len() == 0,
            },
    {
        if attempts_count_limit < 1 {
            Err(GameNewError::AttemptsCountLimitNull)
        } else {
            match Self::new(word_to_guess) {
                Err(e) => Err(e),
                Ok(mut result) => {
                    result.attempts_count_limit = attempts_count_limit;
                    Ok(result)
                },
            }
        }
    }

    /// Retrieve the current game state.
    ///
    /// Derived from the recorded guesses on every call; no side effects.
    pub fn state(&self) -> (state: GameState)
        ensures
            state == spec_state(self@),
    {
        proof {
            use_type_invariant(&*self);
        }
        let n = self.guesses.len();
        if n > 0 && str_eq(self.guesses[n - 1].as_str(), self.word_to_guess.as_str()) {
            GameState::Won { attempts: n }
        } else if n >= self.attempts_count_limit {
            GameState::Lost
        } else {
            GameState::Pending { attempts_remaining: self.attempts_count_limit - n }
        }
    }

    /// Whether the case-normalized `word` has already been recorded.
    fn contains_guess(&self, word: &String) -> (found: bool)
        ensures
            found == already_guessed(self@.guesses, word@),
    {
        let n = self.guesses.len();
        for i in 0..n
            invariant
                n == self.guesses.len(),
                forall|k: int| 0 <= k < i ==> self@.guesses[k] != word@,
        {
            if str_eq(self.guesses[i].as_str(), word.as_str()) {
                proof {
                    assert(self@.guesses[i as int] == self.guesses@[i as int]@);
                }
                return true;
            }
        }
        false
    }

    /// Attempt to perform a guess.
    ///
    /// The guess is normalized to uppercase, then rejected if its length
    /// differs from the target's or if it was already played — the game is
    /// left untouched in both cases. Otherwise it is appended to the
    /// history and the new game state returned. The outcome, for every
    /// input, is exactly [`spec_guess`] of the previous model.
    pub fn guess(&mut self, guess: &str) -> (result: Result<GameState, GameGuessError>)
        ensures
            final(self)@.wf(),
            final(self)@ == spec_guess(old(self)@, guess@).0,
            result == spec_guess(old(self)@, guess@).1,
    {
        proof {
            use_type_invariant(&*self);
        }
        let normalized = uppercase(guess);
        let guess_len = normalized.as_str().unicode_len();
        let target_len = self.word_to_guess.as_str().unicode_len();
        if guess_len != target_len {
            Err(GameGuessError::LengthInvalid { given: guess_len, expected: target_len })
        } else if self.contains_guess(&normalized) {
            Err(GameGuessError::AlreadyPlayed)
        } else {
            let ghost previous = self@;
            let mut recorded: Vec<String> = Vec::new();
            std::mem::swap(&mut recorded, &mut self.guesses);
            recorded.push(normalized);
            proof {
                assert(recorded.deep_view() =~= previous.guesses.push(upper_of(guess@)));
            }
            self.guesses = recorded;
            proof {
                assert(self@ == spec_guess(previous, guess@).0);
            }
            Ok(self.state())
        }
    }

    /// Get hints for guessed words, from oldest to newest.
    pub fn guess_hints(&self) -> (hints: Vec<GuessHint>)
        ensures
            hints@.len() == self@.guesses.len(),
            forall|i: int|
                0 <= i < hints@.len() ==> (#[trigger] hints@[i]@) == (GuessHintView {
                    guessed: self@.guesses[i],
                    word_to_guess: self@.target,
                }),
    {
        proof {
            use_type_invariant(&*self);
        }
        let mut hints: Vec<GuessHint> = Vec::new();
        let n = self.guesses.len();
        for i in 0..n
            invariant
                n == self.guesses.len(),
                self@.wf(),
                hints@.len() == i,
                forall|k: int|
                    0 <= k < i ==> (#[trigger] hints@[k]@) == (GuessHintView {
                        guessed: self@.guesses[k],
                        word_to_guess: self@.target,
                    }),
        {
            proof {
                assert(self@.guesses[i as int] == self.guesses@[i as int]@);
            }
            hints.push(GuessHint::new(self.guesses[i].as_str(), self.word_to_guess.as_str()));
        }
        hints
    }

    /// Get hints for the newest guessed word, if any.
    pub fn current_guess_hint(&self) -> (hint: Option<GuessHint>)
        ensures
            match hint {
                None => self@.guesses.len() == 0,
                Some(h) => self@.guesses.len() > 0 && h@ == (GuessHintView {
                    guessed: self@.guesses.last(),
                    word_to_guess: self@.target,
                }),
            },
    {
        proof {
            use_type_invariant(&*self);
        }
        let n = self.guesses.len();
        if n == 0 {
            None
        } else {
            proof {
                assert(self@.guesses[n - 1] == self.guesses@[n - 1]@);
            }
            Some(GuessHint::new(self.guesses[n - 1].as_str(), self.word_to_guess.as_str()))
        }
    }

    /// Reference to the word to guess to win the game.
    pub fn word_to_guess(&self) -> (word: &str)
        ensures
            word@ == self@.target,
    {
        self.word_to_guess.as_str()
    }

    /// The recorded guesses, oldest first.
    pub fn guesses(&self) -> (guesses: &Vec<String>)
        ensures
            guesses.deep_view() == self@.guesses,
    {
        &self.guesses
    }

    /// The number of guesses the game allows before it is lost.
    pub fn attempts_count_limit(&self) -> (limit: usize)
        ensures
            limit as nat == self@.limit,
    {
        self.attempts_count_limit
    }
}

/// Case insensitivity: two submissions whose words case-fold to the same
/// word are judged identically — the same verdict, the same recorded
/// history, for matching and for duplicate detection alike.
pub proof fn lemma_guess_case_insensitive(g: GameView, raw1: Seq<char>, raw2: Seq<char>)
    requires
        upper_of(raw1) == upper_of(raw2),
    ensures
        spec_guess(g, raw1) == spec_guess(g, raw2),
{
}

/// State ordering: a guess that matches the target word, submitted as the
/// final allowed attempt, yields `Won` with the limit as the attempts
/// count — never `Lost`.
pub proof fn lemma_match_on_final_attempt_wins(g: GameView, raw: Seq<char>)
    requires
        g.wf(),
        upper_of(raw) == g.target,
        g.guesses.len() + 1 == g.limit,
        !already_guessed(g.guesses, upper_of(raw)),
    ensures
        spec_guess(g, raw).1 == Ok::<GameState, GameGuessError>(
            GameState::Won { attempts: g.limit as usize },
        ),
{
    let stepped = spec_guess(g, raw).0;
    assert(stepped.guesses.last() == g.target);
}

/// Loss condition: once at least `attempt_limit` guesses are recorded and
/// the most recent one does not match the target, the state is `Lost`.
pub proof fn lemma_lost_after_limit(g: GameView)
    requires
        g.wf(),
        g.guesses.len() >= g.limit,
        g.guesses.last() != g.target,
    ensures
        spec_state(g) == GameState::Lost,
{
}

} // verus!

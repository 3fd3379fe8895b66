//! A verified Wordle game engine.
//!
//! The engine owns a secret target word, validates and records guesses,
//! derives the game state (pending, won or lost), and computes per-letter
//! feedback that correctly accounts for repeated letters. Around the
//! engine stand the pure parts of its terminal front: parsing of command
//! line arguments, validation of typed words, colour formatting of hints,
//! and the pickers that choose the next target word.

pub mod ansi;
pub mod cli_arguments;
pub mod game;
pub mod hint;
pub mod play;
pub mod text;
pub mod word_pick;
pub mod words;

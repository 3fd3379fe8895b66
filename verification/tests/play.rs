use wordle::game::Game;
use wordle::hint::LetterHint;
use wordle::play::{
    format_guess_hint_letter, get_guess_word_error, parse_keep_playing, word_has_been_played,
    word_has_correct_length, GuessWordError,
};

#[test]
fn get_guess_word_error_cases() {
    let mut game = Game::new("temp").expect("new game");
    game.guess("test").expect("guess accepted");
    assert_eq!(get_guess_word_error(&game, ""), Some(GuessWordError::Empty));
    assert_eq!(
        get_guess_word_error(&game, "toolong"),
        Some(GuessWordError::LengthInvalid { expected: 4 })
    );
    assert_eq!(
        get_guess_word_error(&game, "TEST"),
        Some(GuessWordError::AlreadyPlayed)
    );
    assert_eq!(get_guess_word_error(&game, "TIME"), None);
}

#[test]
fn word_length_and_history_checks() {
    let mut game = Game::new("temp").expect("new game");
    game.guess("test").expect("guess accepted");
    assert!(word_has_correct_length(&game, "ABCD"));
    assert!(!word_has_correct_length(&game, "ABC"));
    assert!(word_has_been_played(&game, "TEST"));
    assert!(!word_has_been_played(&game, "TIME"));
}

#[test]
fn format_guess_hint_letter_by_hint() {
    assert_eq!(
        format_guess_hint_letter('A', LetterHint::Correct),
        "\x1b[48;5;2mA\x1b[0m"
    );
    assert_eq!(
        format_guess_hint_letter('A', LetterHint::PlacementIncorrect),
        "\x1b[48;5;3mA\x1b[0m"
    );
    assert_eq!(format_guess_hint_letter('A', LetterHint::Incorrect), "A");
}

#[test]
fn parse_keep_playing_answers() {
    assert_eq!(parse_keep_playing("y"), Some(true));
    assert_eq!(parse_keep_playing("YES"), Some(true));
    assert_eq!(parse_keep_playing("Yes"), Some(true));
    assert_eq!(parse_keep_playing("n"), Some(false));
    assert_eq!(parse_keep_playing("no"), Some(false));
    assert_eq!(parse_keep_playing(""), None);
    assert_eq!(parse_keep_playing("maybe"), None);
}

use wordle::hint::{get_letter_occurrences, GuessHint, LetterHint};

#[test]
fn guess_hint_letters_hint() {
    let hint = GuessHint::new("AXXXX", "AAAAA");
    let letter_hints = hint.letter_hints();
    assert_eq!(
        letter_hints,
        vec![
            LetterHint::Correct,
            LetterHint::Incorrect,
            LetterHint::Incorrect,
            LetterHint::Incorrect,
            LetterHint::Incorrect
        ]
    );

    let hint = GuessHint::new("AXBCB", "AACBB");
    let letter_hints = hint.letter_hints();
    assert_eq!(
        letter_hints,
        vec![
            LetterHint::Correct,
            LetterHint::Incorrect,
            LetterHint::PlacementIncorrect,
            LetterHint::PlacementIncorrect,
            LetterHint::Correct
        ]
    );

    let hint = GuessHint::new("AAAAB", "AACBB");
    let letter_hints = hint.letter_hints();
    assert_eq!(
        letter_hints,
        vec![
            LetterHint::Correct,
            LetterHint::Correct,
            LetterHint::Incorrect,
            LetterHint::Incorrect,
            LetterHint::Correct
        ]
    );

    let hint = GuessHint::new("ABBBB", "AACBB");
    let letter_hints = hint.letter_hints();
    assert_eq!(
        letter_hints,
        vec![
            LetterHint::Correct,
            LetterHint::Incorrect,
            LetterHint::Incorrect,
            LetterHint::Correct,
            LetterHint::Correct
        ]
    );

    let hint = GuessHint::new("ABBAB", "ABBBA");
    let letter_hints = hint.letter_hints();
    assert_eq!(
        letter_hints,
        vec![
            LetterHint::Correct,
            LetterHint::Correct,
            LetterHint::Correct,
            LetterHint::PlacementIncorrect,
            LetterHint::PlacementIncorrect
        ]
    );
}

#[test]
fn test_get_letter_occurrences() {
    let occurrences = get_letter_occurrences("abcda");
    assert_eq!(occurrences.get('a'), Some(2));
    assert_eq!(occurrences.get('b'), Some(1));
    assert_eq!(occurrences.get('c'), Some(1));
    assert_eq!(occurrences.get('d'), Some(1));
    assert_eq!(occurrences.get('e'), None);
}

#[test]
fn guess_hint_guessed_is_kept() {
    let hint = GuessHint::new("TEST", "TEMP");
    assert_eq!(hint.guessed(), "TEST");
}

#[test]
fn guess_hint_letters_and_hints_pairs() {
    let hint = GuessHint::new("AXBCB", "AACBB");
    assert_eq!(
        hint.guessed_letters_and_hints(),
        vec![
            ('A', LetterHint::Correct),
            ('X', LetterHint::Incorrect),
            ('B', LetterHint::PlacementIncorrect),
            ('C', LetterHint::PlacementIncorrect),
            ('B', LetterHint::Correct)
        ]
    );
}

#[test]
fn letter_hints_recomputation_is_identical() {
    let hint = GuessHint::new("ABBAB", "ABBBA");
    let first = hint.letter_hints();
    let second = hint.letter_hints();
    assert_eq!(first, second);
    assert_eq!(hint.guessed_letters_and_hints(), hint.guessed_letters_and_hints());
}

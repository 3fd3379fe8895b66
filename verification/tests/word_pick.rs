use wordle::word_pick::{
    ListWordPicker, ListWordPickerFromIteratorError, RandomWordPicker, WordPicker,
};

fn words(list: &[&str]) -> Vec<String> {
    list.iter().map(|s| String::from(*s)).collect()
}

#[test]
fn list_word_picker_from_empty_list() {
    assert!(matches!(
        ListWordPicker::from_words(words(&[])),
        Err(ListWordPickerFromIteratorError::NoWords)
    ));
}

#[test]
fn list_word_picker_from_list() {
    let list = ListWordPicker::from_words(words(&["this", "is", "a", "test"])).unwrap();
    assert_eq!(
        list.words(),
        &vec![
            String::from("this"),
            String::from("is"),
            String::from("a"),
            String::from("test")
        ]
    );
    assert_eq!(list.current_word_index(), 0);
}

#[test]
fn list_word_implements_word_picker() {
    let mut list: Box<dyn WordPicker> =
        Box::new(ListWordPicker::from_words(words(&["this", "is", "a", "test"])).unwrap());
    assert_eq!(list.pick_word(), String::from("this"));
    assert_eq!(list.pick_word(), String::from("is"));
    assert_eq!(list.pick_word(), String::from("a"));
    assert_eq!(list.pick_word(), String::from("test"));
    assert_eq!(list.pick_word(), String::from("this"));
    assert_eq!(list.pick_word(), String::from("is"));
    assert_eq!(list.pick_word(), String::from("a"));
    assert_eq!(list.pick_word(), String::from("test"));
}

#[test]
fn list_word_implements_iterator() {
    let mut list = ListWordPicker::from_words(
        "this is a test".split_whitespace().map(String::from).collect(),
    )
    .unwrap()
    .into_iter();
    assert_eq!(list.next(), Some(String::from("this")));
    assert_eq!(list.next(), Some(String::from("is")));
    assert_eq!(list.next(), Some(String::from("a")));
    assert_eq!(list.next(), Some(String::from("test")));
    assert_eq!(list.next(), Some(String::from("this")));
}

#[test]
fn random_word_picker_from_lines() {
    let picker = RandomWordPicker::from_lines(words(&[
        "temp",
        "test",
        "done",
        "",
        "previous line is empty",
    ]))
    .expect("picker over non-empty lines");
    assert_eq!(
        picker.words(),
        &vec![
            String::from("temp"),
            String::from("test"),
            String::from("done"),
            String::from("previous line is empty")
        ]
    );
}

#[test]
fn random_word_picker_no_words() {
    assert!(RandomWordPicker::from_lines(words(&[])).is_err());
    assert!(RandomWordPicker::from_lines(words(&["", ""])).is_err());
}

#[test]
fn random_word_picker_picks_from_list() {
    let mut picker =
        RandomWordPicker::from_lines(words(&["temp", "test", "done"])).expect("picker");
    for _ in 0..20 {
        let word = picker.pick_word();
        assert!(["temp", "test", "done"].contains(&word.as_str()));
    }
}

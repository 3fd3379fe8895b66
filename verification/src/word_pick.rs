//! Select words to use as input of wordle game.

use vstd::prelude::*;
use rand::seq::SliceRandom;

verus! {

/// Declares rand's handle to the thread-local random number generator, so
/// that a picker can hold one.
#[verifier::external_type_specification]
#[verifier::external_body]
pub struct ExThreadRng(rand::rngs::ThreadRng);

/// Declares std's input/output error, so that an error enum can carry one.
#[verifier::external_type_specification]
#[verifier::external_body]
pub struct ExIoError(std::io::Error);

/// Choose a word.
pub trait WordPicker {
    /// Validity of the picker's state.
    spec fn wf(&self) -> bool;

    /// Which words the picker may hand out next.
    spec fn may_pick(&self, word: Seq<char>) -> bool;

    /// Choose a single word to play.
    fn pick_word(&mut self) -> (word: String)
        requires
            old(self).wf(),
        ensures
            final(self).wf(),
            old(self).may_pick(word@),
    ;
}

/// An infinite iterator that produces words to use as wordle game target.
pub struct WordPickerIter<P> {
    picker: P,
}

impl<P: WordPicker> WordPickerIter<P> {
    /// Validity of the underlying picker's state.
    pub closed spec fn wf(&self) -> bool {
        self.picker.wf()
    }

    /// Which words the underlying picker may hand out next.
    pub closed spec fn may_pick(&self, word: Seq<char>) -> bool {
        self.picker.may_pick(word)
    }

    /// The next word: always one that the underlying picker allows.
    pub fn next(&mut self) -> (word: Option<String>)
        requires
            old(self).wf(),
        ensures
            final(self).wf(),
            (match word {
                Some(w) => old(self).may_pick(w@),
                None => false,
            }),
    {
        Some(self.picker.pick_word())
    }
}

/// Choose a word in a list.
///
/// Goes from first word to last.
/// Wraps to the first word once the end has been reached.
#[derive(Debug)]
pub struct ListWordPicker {
    words: Vec<String>,
    current_word_index: usize,
}

/// The model of a [`ListWordPicker`]: its words and its cursor.
pub ghost struct ListWordPickerView {
    pub words: Seq<Seq<char>>,
    pub cursor: int,
}

impl View for ListWordPicker {
    type V = ListWordPickerView;

    closed spec fn view(&self) -> ListWordPickerView {
        ListWordPickerView {
            words: self.words.deep_view(),
            cursor: self.current_word_index as int,
        }
    }
}

/// Could not convert a list of words to a [`ListWordPicker`].
#[derive(Debug, PartialEq, Eq, Structural)]
pub enum ListWordPickerFromIteratorError {
    /// The list did not contain any word.
    NoWords,
}

impl ListWordPicker {
    /// The word list is never empty and the cursor stays inside it.
    #[verifier::type_invariant]
    spec fn inv(self) -> bool {
        self.words@.len() > 0 && (self.current_word_index as int) < self.words@.len()
    }

    /// Build a picker over `words`, starting at the first word.
    ///
    /// Fails when the list is empty.
    pub fn from_words(words: Vec<String>) -> (result: Result<
        ListWordPicker,
        ListWordPickerFromIteratorError,
    >)
        ensures
            match result {
                Ok(picker) => ({
                    &&& words.deep_view().len() > 0
                    &&& picker@.words == words.deep_view()
                    &&& picker@.cursor == 0
                }),
                Err(e) => words.deep_view().len() == 0 && e
                    == ListWordPickerFromIteratorError::NoWords,
            },
    {
        if words.len() == 0 {
            Err(ListWordPickerFromIteratorError::NoWords)
        } else {
            Ok(ListWordPicker { words, current_word_index: 0 })
        }
    }

    /// The words the picker cycles through, first to last.
    pub fn words(&self) -> (words: &Vec<String>)
        ensures
            words.deep_view() == self@.words,
    {
        &self.words
    }

    /// The position of the word that the next pick returns.
    pub fn current_word_index(&self) -> (index: usize)
        ensures
            index as int == self@.cursor,
    {
        self.current_word_index
    }

    /// Turn the picker into an endless iterator over picked words.
    pub fn into_iter(self) -> (iter: WordPickerIter<ListWordPicker>)
        ensures
            iter.wf(),
            forall|w: Seq<char>| #[trigger] iter.may_pick(w) <==> self.may_pick(w),
    {
        WordPickerIter { picker: self }
    }
}

impl WordPicker for ListWordPicker {
    /// The type's own invariant already guarantees a usable state.
    open spec fn wf(&self) -> bool {
        true
    }

    /// Exactly the word under the cursor.
    open spec fn may_pick(&self, word: Seq<char>) -> bool {
        word == self@.words[self@.cursor]
    }

    fn pick_word(&mut self) -> (word: String)
        ensures
            final(self).wf(),
            old(self).may_pick(word@),
    {
        proof {
            use_type_invariant(&*self);
            assert(self@.words[self@.cursor] == self.words@[self.current_word_index as int]@);
        }
        let word = self.words[self.current_word_index].clone();
        let len = self.words.len();
        self.current_word_index = (self.current_word_index + 1) % len;
        word
    }
}

/// Pick a random word from a list.
pub struct RandomWordPicker {
    words: Vec<String>,
    rng: rand::rngs::ThreadRng,
}

/// Error occurred while initializing a [`RandomWordPicker`].
#[derive(Debug)]
pub enum RandomWordPickerError {
    /// Input/output error while reading the word list.
    Io(std::io::Error),
    /// The input did not contain any word.
    NoWords,
}

/// The non-empty entries of `lines`, in order.
pub open spec fn non_empty_lines(lines: Seq<Seq<char>>) -> Seq<Seq<char>>
    decreases lines.len(),
{
    if lines.len() == 0 {
        Seq::empty()
    } else {
        let rest = non_empty_lines(lines.drop_last());
        if lines.last().len() > 0 {
            rest.push(lines.last())
        } else {
            rest
        }
    }
}

impl View for RandomWordPicker {
    type V = Seq<Seq<char>>;

    closed spec fn view(&self) -> Seq<Seq<char>> {
        self.words.deep_view()
    }
}

impl RandomWordPicker {
    /// Keep the non-empty lines as the word list.
    ///
    /// Fails with `NoWords` when nothing is left.
    pub fn from_lines(lines: Vec<String>) -> (result: Result<
        RandomWordPicker,
        RandomWordPickerError,
    >)
        ensures
            match result {
                Ok(picker) => ({
                    &&& picker@ == non_empty_lines(lines.deep_view())
                    &&& picker@.len() > 0
                }),
                Err(e) => (e is NoWords) && non_empty_lines(lines.deep_view()).len() == 0,
            },
    {
        let mut words: Vec<String> = Vec::new();
        let n = lines.len();
        for i in 0..n
            invariant
                n == lines.len(),
                words.deep_view() == non_empty_lines(lines.deep_view().take(i as int)),
        {
            proof {
                let l = lines.deep_view();
                assert(l.take(i + 1).drop_last() =~= l.take(i as int));
                assert(l.take(i + 1).last() == l[i as int]);
                assert(l[i as int] == lines@[i as int]@);
            }
            if !lines[i].as_str().is_empty() {
                let ghost before = words.deep_view();
                words.push(lines[i].clone());
                proof {
                    assert(words.deep_view() =~= before.push(lines@[i as int]@));
                }
            }
        }
        proof {
            assert(lines.deep_view().take(n as int) =~= lines.deep_view());
        }
        if words.len() == 0 {
            proof {
                assert(non_empty_lines(lines.deep_view()).len() == 0);
            }
            Err(RandomWordPickerError::NoWords)
        } else {
            Ok(RandomWordPicker { words, rng: fresh_rng() })
        }
    }

    /// The words the picker chooses from.
    pub fn words(&self) -> (words: &Vec<String>)
        ensures
            words.deep_view() == self@,
    {
        &self.words
    }

    /// Turn the picker into an endless iterator over picked words.
    pub fn into_iter(self) -> (iter: WordPickerIter<RandomWordPicker>)
        requires
            self.wf(),
        ensures
            iter.wf(),
            forall|w: Seq<char>| #[trigger] iter.may_pick(w) <==> self.may_pick(w),
    {
        WordPickerIter { picker: self }
    }
}

impl WordPicker for RandomWordPicker {
    /// The word list is never empty.
    open spec fn wf(&self) -> bool {
        self@.len() > 0
    }

    /// Any word of the list.
    open spec fn may_pick(&self, word: Seq<char>) -> bool {
        exists|i: int| 0 <= i < self@.len() && self@[i] == word
    }

    /// Pick a random word from the list.
    fn pick_word(&mut self) -> (word: String)
        ensures
            final(self).wf(),
            old(self).may_pick(word@),
    {
        let chosen = choose_word(&self.words, &mut self.rng);
        match chosen {
            Some(w) => {
                proof {
                    let i = choose|i: int|
                        0 <= i < self.words@.len() && self.words@[i] == *w;
                    assert(self@[i] == self.words@[i]@);
                }
                w.clone()
            },
            None => unreached(),
        }
    }
}

/// Relies on `rand::thread_rng` for the handle to the thread-local random
/// number generator.
#[verifier::external_body]
fn fresh_rng() -> rand::rngs::ThreadRng {
    rand::thread_rng()
}

/// Relies on rand's `SliceRandom::choose`: `None` exactly when the slice
/// is empty, otherwise `Some` of one of its elements.
#[verifier::external_body]
fn choose_word<'a>(words: &'a Vec<String>, rng: &mut rand::rngs::ThreadRng) -> (chosen: Option<
    &'a String,
>)
    ensures
        (match chosen {
            None => words@.len() == 0,
            Some(w) => exists|i: int| 0 <= i < words@.len() && words@[i] == *w,
        }),
{
    words.as_slice().choose(rng)
}

} // verus!

//! The word store: the words of the loaded text and the reader's place in them.

use vstd::prelude::*;
use crate::text::{is_blank, lemma_no_words_iff_blank, text_process, words_of};

verus! {

/// Why a text could not be loaded.
#[derive(Clone, Copy, Debug, PartialEq, Eq, Structural)]
pub enum LoadError {
    /// There is no file at the path of the text.
    Missing,
    /// The file is there and could not be read as text.
    Unreadable,
    /// The text holds no word.
    EmptyCorpus,
}

/// What the reader is told of the failure.
pub open spec fn load_message(e: LoadError) -> Seq<char> {
    match e {
        LoadError::Missing => "The text file is missing"@,
        LoadError::Unreadable => "The text file cannot be read"@,
        LoadError::EmptyCorpus => "The text holds no words"@,
    }
}

impl LoadError {
    /// What the reader is told of the failure.
    pub fn message(&self) -> (message: &'static str)
        ensures
            message@ == load_message(*self),
    {
        match self {
            LoadError::Missing => "The text file is missing",
            LoadError::Unreadable => "The text file cannot be read",
            LoadError::EmptyCorpus => "The text holds no words",
        }
    }
}

/// What a word store holds: the words and the place of the current one.
pub struct StoreView {
    pub words: Seq<Seq<char>>,
    pub index: nat,
}

impl StoreView {
    /// The store before any text is loaded.
    pub open spec fn unloaded() -> StoreView {
        StoreView { words: Seq::empty(), index: 0 }
    }

    /// The place is that of a word, or the store is unloaded.
    pub open spec fn wf(self) -> bool {
        if self.words.len() == 0 {
            self.index == 0
        } else {
            self.index < self.words.len()
        }
    }

    /// The current word; the empty word while the store holds none.
    pub open spec fn current(self) -> Seq<char> {
        if self.index < self.words.len() {
            self.words[self.index as int]
        } else {
            Seq::empty()
        }
    }

    /// Whether the place cannot move forward any more: the store is empty or
    /// the current word is the last.
    pub open spec fn at_end(self) -> bool {
        self.index + 1 >= self.words.len()
    }

    /// The store after the text `source` is offered to it: a text with a word
    /// replaces the words and puts the place at the first; a blank text
    /// changes nothing.
    pub open spec fn loaded(self, source: Seq<char>) -> StoreView {
        if words_of(source).len() == 0 {
            self
        } else {
            StoreView { words: words_of(source), index: 0 }
        }
    }

    /// The store after a move by `delta` words, forward if positive and
    /// backward if negative: the place stops at the first and at the last word.
    pub open spec fn advanced(self, delta: int) -> StoreView {
        StoreView { words: self.words, index: clamp_index(self.index, delta, self.words.len()) }
    }

    /// The store after the moves `deltas`, made one after the other.
    pub open spec fn advanced_all(self, deltas: Seq<int>) -> StoreView
        decreases deltas.len(),
    {
        if deltas.len() == 0 {
            self
        } else {
            self.advanced_all(deltas.drop_last()).advanced(deltas.last())
        }
    }
}

/// The place `index + delta`, held inside `0 ..= len - 1`; with no word to
/// stand on, the place stays where it is.
pub open spec fn clamp_index(index: nat, delta: int, len: nat) -> nat {
    if len == 0 {
        index
    } else if index + delta < 0 {
        0
    } else if index + delta > len - 1 {
        (len - 1) as nat
    } else {
        (index + delta) as nat
    }
}

/// A move in a well-formed store leaves it well formed and keeps its words:
/// the place stays that of a word, at whichever end the move would leave.
pub proof fn lemma_advanced_stays_inside(store: StoreView, delta: int)
    requires
        store.wf(),
    ensures
        store.advanced(delta).wf(),
        store.advanced(delta).words == store.words,
        store.words.len() > 0 ==> store.advanced(delta).index < store.words.len(),
{
}

/// Whatever moves are made in a store that holds words, and in whatever
/// order, the place is that of a word after each of them.
pub proof fn lemma_moves_stay_inside(store: StoreView, deltas: Seq<int>)
    requires
        store.wf(),
        store.words.len() > 0,
    ensures
        forall|k: int|
            0 <= k <= deltas.len() ==> (#[trigger] store.advanced_all(deltas.take(k))).index
                < store.words.len(),
{
    assert forall|k: int| 0 <= k <= deltas.len() implies (#[trigger] store.advanced_all(
        deltas.take(k),
    )).index < store.words.len() by {
        lemma_advanced_all_wf(store, deltas.take(k));
    }
}

/// A run of moves in a well-formed store leaves it well formed and keeps its
/// words.
pub proof fn lemma_advanced_all_wf(store: StoreView, deltas: Seq<int>)
    requires
        store.wf(),
    ensures
        store.advanced_all(deltas).wf(),
        store.advanced_all(deltas).words == store.words,
    decreases deltas.len(),
{
    if deltas.len() > 0 {
        lemma_advanced_all_wf(store, deltas.drop_last());
    }
}

/// A blank text, the empty one among them, is refused: the store stays as it
/// was.
pub proof fn lemma_blank_text_changes_nothing(store: StoreView, source: Seq<char>)
    requires
        is_blank(source),
    ensures
        words_of(source).len() == 0,
        store.loaded(source) == store,
{
    lemma_no_words_iff_blank(source);
}

/// A text with a word is taken: the store then holds its words, none of them
/// empty, and stands on the first.
pub proof fn lemma_loaded_text(store: StoreView, source: Seq<char>)
    requires
        !is_blank(source),
    ensures
        store.loaded(source).wf(),
        store.loaded(source).words == words_of(source),
        store.loaded(source).index == 0,
        store.loaded(source).words.len() > 0,
{
    lemma_no_words_iff_blank(source);
}

/// The words of a text and the place of the current word.
#[derive(Debug)]
pub struct WordStore {
    words: Vec<String>,
    place: Place,
}

/// A place among the words, with the word that stands there.
#[derive(Debug)]
struct Place {
    current_index: usize,
    current_word: String,
}

impl View for WordStore {
    type V = StoreView;

    closed spec fn view(&self) -> StoreView {
        StoreView { words: self.words.deep_view(), index: self.place.current_index as nat }
    }
}

impl WordStore {
    /// The word that the store keeps at hand for its readers.
    pub closed spec fn cached(&self) -> Seq<char> {
        self.place.current_word@
    }

    /// The place is valid and the word kept at hand is the word at the place.
    #[verifier::type_invariant]
    pub open spec fn inv(&self) -> bool {
        &&& self@.wf()
        &&& self.cached() == self@.current()
    }

    /// A store that holds no word yet.
    pub fn new() -> (store: WordStore)
        ensures
            store@ == StoreView::unloaded(),
    {
        let words: Vec<String> = Vec::new();
        assert(words.deep_view() == Seq::<Seq<char>>::empty());
        WordStore { words, place: Place { current_index: 0, current_word: String::new() } }
    }

    /// Replaces the words by those of `source` and puts the place at the first
    /// of them. A text without a word is refused and leaves the store as it was.
    pub fn load(&mut self, source: &str) -> (r: Result<(), LoadError>)
        ensures
            final(self)@ == old(self)@.loaded(source@),
            r == if words_of(source@).len() == 0 {
                Err::<(), LoadError>(LoadError::EmptyCorpus)
            } else {
                Ok::<(), LoadError>(())
            },
    {
        let words = text_process(source);
        if words.len() == 0 {
            return Err(LoadError::EmptyCorpus);
        }
        let first = words[0].clone();
        *self = WordStore { words, place: Place { current_index: 0, current_word: first } };
        Ok(())
    }

    /// Moves the place by `delta` words and returns the word it then stands on.
    pub fn advance(&mut self, delta: i64) -> (word: String)
        ensures
            final(self)@ == old(self)@.advanced(delta as int),
            word@ == final(self)@.current(),
    {
        proof {
            use_type_invariant(&*self);
        }
        let len: usize = self.words.len();
        if len == 0 {
            return self.place.current_word.clone();
        }
        let last: i128 = (len - 1) as i128;
        let target: i128 = self.place.current_index as i128 + delta as i128;
        let index: usize = if target < 0 {
            0
        } else if target > last {
            len - 1
        } else {
            target as usize
        };
        let word = self.words[index].clone();
        self.place = Place { current_index: index, current_word: word.clone() };
        word
    }

    /// The place of the current word and the number of words.
    pub fn position(&self) -> (r: (usize, usize))
        ensures
            r.0 == self@.index,
            r.1 == self@.words.len(),
            self@.wf(),
    {
        proof {
            use_type_invariant(self);
        }
        (self.place.current_index, self.words.len())
    }

    /// The number of words.
    pub fn len(&self) -> (n: usize)
        ensures
            n == self@.words.len(),
    {
        self.words.len()
    }

    /// Whether the store holds no word.
    pub fn is_empty(&self) -> (r: bool)
        ensures
            r == (self@.words.len() == 0),
    {
        self.words.len() == 0
    }

    /// The current word; empty while the store holds no word.
    pub fn current_word(&self) -> (word: &String)
        ensures
            word@ == self@.current(),
    {
        proof {
            use_type_invariant(self);
        }
        &self.place.current_word
    }

    /// Whether the place cannot move forward any more.
    pub fn at_end(&self) -> (r: bool)
        ensures
            r == self@.at_end(),
    {
        proof {
            use_type_invariant(self);
        }
        self.words.len() == 0 || self.place.current_index == self.words.len() - 1
    }
}

} // verus!

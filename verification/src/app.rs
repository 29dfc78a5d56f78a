//! The reader driven key by key: the word store, the playback switch and the
//! flag that keeps the program running.

use vstd::prelude::*;
use crate::playback::{interval_of, ReadRate, STANDARD_RATE};
use crate::store::{LoadError, StoreView, WordStore};

verus! {

/// The number of pauses that follow the start of playback.
pub const PAUSES: u64 = 5;

/// What the reader holds.
pub struct AppView {
    pub running: bool,
    pub store: StoreView,
    pub playing: bool,
    pub rate: u32,
}

impl AppView {
    /// The time for which the reader rests after the playback switch is
    /// thrown, in nanoseconds: five intervals when playback is now on and
    /// there are words to play, none otherwise.
    pub open spec fn pause(self) -> nat {
        if self.playing && self.store.index < self.store.words.len() {
            PAUSES as nat * interval_of(self.rate)
        } else {
            0
        }
    }
}

/// The reader.
#[derive(Debug)]
pub struct App {
    running: bool,
    store: WordStore,
    text_play_on: bool,
    text_read_rate: ReadRate,
}

impl View for App {
    type V = AppView;

    closed spec fn view(&self) -> AppView {
        AppView {
            running: self.running,
            store: self.store@,
            playing: self.text_play_on,
            rate: self.text_read_rate@,
        }
    }
}

impl AppView {
    /// The reader as it starts: running, without text, playback off, at the
    /// standard rate.
    pub open spec fn initial() -> AppView {
        AppView {
            running: true,
            store: StoreView::unloaded(),
            playing: false,
            rate: STANDARD_RATE,
        }
    }
}

impl Default for App {
    fn default() -> (app: App)
        ensures
            app@ == AppView::initial(),
    {
        App {
            running: true,
            store: WordStore::new(),
            text_play_on: false,
            text_read_rate: ReadRate::standard(),
        }
    }
}

impl App {
    /// Constructs the reader as it starts.
    pub fn new() -> (app: App)
        ensures
            app@ == AppView::initial(),
    {
        App::default()
    }

    /// Handles the tick of the terminal, on which the reader has nothing to do.
    pub fn tick(&self) {
    }

    /// Stops the reader: `running` is false from now on.
    pub fn quit(&mut self)
        ensures
            final(self)@ == (AppView { running: false, ..old(self)@ }),
    {
        self.running = false;
    }

    /// Loads the words of `book` and puts the place at the first of them. A
    /// book without a word is refused and leaves the reader as it was.
    pub fn text_load(&mut self, book: &str) -> (r: Result<(), LoadError>)
        ensures
            final(self)@ == (AppView { store: old(self)@.store.loaded(book@), ..old(self)@ }),
            r == if crate::text::words_of(book@).len() == 0 {
                Err::<(), LoadError>(LoadError::EmptyCorpus)
            } else {
                Ok::<(), LoadError>(())
            },
    {
        self.store.load(book)
    }

    /// Throws the playback switch. Returns the current word and the time, in
    /// nanoseconds, for which the caller is to rest before it goes on.
    pub fn sread_text(&mut self) -> (r: (String, u64))
        ensures
            final(self)@ == (AppView { playing: !old(self)@.playing, ..old(self)@ }),
            r.0@ == final(self)@.store.current(),
            r.1 == final(self)@.pause(),
    {
        self.text_play_on = !self.text_play_on;
        let (index, length) = self.store.position();
        let pause: u64 = if self.text_play_on && index < length {
            PAUSES * self.text_read_rate.interval_nanos()
        } else {
            0
        };
        (self.store.current_word().clone(), pause)
    }

    /// Steps one word forward, stopping at the last, and returns the word
    /// that the place then stands on.
    pub fn increment_word(&mut self) -> (word: String)
        ensures
            final(self)@ == (AppView { store: old(self)@.store.advanced(1), ..old(self)@ }),
            word@ == final(self)@.store.current(),
    {
        self.store.advance(1)
    }

    /// Steps one word backward, stopping at the first.
    pub fn decrement_word(&mut self)
        ensures
            final(self)@ == (AppView { store: old(self)@.store.advanced(-1), ..old(self)@ }),
    {
        let _ = self.store.advance(-1);
    }

    /// Whether the reader is still running.
    pub fn running(&self) -> (r: bool)
        ensures
            r == self@.running,
    {
        self.running
    }

    /// Whether playback is switched on.
    pub fn playing(&self) -> (r: bool)
        ensures
            r == self@.playing,
    {
        self.text_play_on
    }

    /// The words that playback shows in a second.
    pub fn read_rate(&self) -> (r: u32)
        ensures
            r == self@.rate,
            r > 0,
    {
        self.text_read_rate.per_second()
    }

    /// The current word; empty while no text is loaded.
    pub fn current_word(&self) -> (word: &String)
        ensures
            word@ == self@.store.current(),
    {
        self.store.current_word()
    }

    /// The place of the current word and the number of words.
    pub fn position(&self) -> (r: (usize, usize))
        ensures
            r.0 == self@.store.index,
            r.1 == self@.store.words.len(),
            self@.store.wf(),
    {
        self.store.position()
    }
}

} // verus!

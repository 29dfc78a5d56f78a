//! Key presses and the commands bound to them.

use vstd::prelude::*;
use crate::action::{Action, ActionView, Direction};

verus! {

/// No modifier key is held.
pub const NONE: u8 = 0;

/// The shift key is held.
pub const SHIFT: u8 = 1;

/// The control key is held.
pub const CONTROL: u8 = 2;

/// The alt key is held.
pub const ALT: u8 = 4;

/// The meta key is held.
pub const META: u8 = 32;

/// The key that was pressed. `Other` stands for every key that neither the
/// reader nor the text buffer tells from another.
#[derive(Clone, Copy, Debug, PartialEq, Eq, Structural)]
pub enum KeyCode {
    Char(char),
    Enter,
    Esc,
    Backspace,
    Delete,
    Tab,
    Left,
    Right,
    Home,
    End,
    Other,
}

/// A key press: the key and the modifier keys held with it, one bit each.
#[derive(Clone, Copy, Debug, PartialEq, Eq, Structural)]
pub struct KeyEvent {
    pub code: KeyCode,
    pub modifiers: u8,
}

impl KeyEvent {
    /// The key `code` with no modifier held.
    pub fn plain(code: KeyCode) -> (key: KeyEvent)
        ensures
            key == (KeyEvent { code, modifiers: NONE }),
    {
        KeyEvent { code, modifiers: NONE }
    }

    /// The character `c`, typed with no modifier held.
    pub fn char(c: char) -> (key: KeyEvent)
        ensures
            key == (KeyEvent { code: KeyCode::Char(c), modifiers: NONE }),
    {
        KeyEvent { code: KeyCode::Char(c), modifiers: NONE }
    }

    /// The character `c`, typed with the control key held.
    pub fn ctrl(c: char) -> (key: KeyEvent)
        ensures
            key == (KeyEvent { code: KeyCode::Char(c), modifiers: CONTROL }),
    {
        KeyEvent { code: KeyCode::Char(c), modifiers: CONTROL }
    }
}

/// The command that the latest of the bindings `s` gives to `key`.
pub open spec fn bound_to(s: Seq<(KeyEvent, Action)>, key: KeyEvent) -> Option<ActionView>
    decreases s.len(),
{
    if s.len() == 0 {
        None
    } else if s.last().0 == key {
        Some(s.last().1@)
    } else {
        bound_to(s.drop_last(), key)
    }
}

/// The commands of the reader while it waits for one: each key has at most one.
#[derive(Debug)]
pub struct Keymap {
    bindings: Vec<(KeyEvent, Action)>,
}

impl View for Keymap {
    type V = Map<KeyEvent, ActionView>;

    closed spec fn view(&self) -> Map<KeyEvent, ActionView> {
        Map::new(
            |key: KeyEvent| bound_to(self.bindings@, key) is Some,
            |key: KeyEvent| bound_to(self.bindings@, key)->0,
        )
    }
}

/// The keys of the reader and their commands.
pub open spec fn reader_keys() -> Map<KeyEvent, ActionView> {
    Map::<KeyEvent, ActionView>::empty().insert(
        KeyEvent { code: KeyCode::Char('q'), modifiers: NONE },
        ActionView::Quit,
    ).insert(KeyEvent { code: KeyCode::Char('c'), modifiers: CONTROL }, ActionView::Quit).insert(
        KeyEvent { code: KeyCode::Char('?'), modifiers: NONE },
        ActionView::ToggleShowHelp,
    ).insert(KeyEvent { code: KeyCode::Char('l'), modifiers: NONE }, ActionView::LoadText).insert(
        KeyEvent { code: KeyCode::Char(' '), modifiers: NONE },
        ActionView::TogglePlayback,
    ).insert(
        KeyEvent { code: KeyCode::Char('j'), modifiers: NONE },
        ActionView::ScheduleAdvance(Direction::Forward, 1),
    ).insert(
        KeyEvent { code: KeyCode::Char('k'), modifiers: NONE },
        ActionView::ScheduleAdvance(Direction::Backward, 1),
    ).insert(KeyEvent { code: KeyCode::Char('/'), modifiers: NONE }, ActionView::EnterInsert)
}

impl Keymap {
    /// A keymap that binds no key.
    pub fn new() -> (keymap: Keymap)
        ensures
            keymap@ == Map::<KeyEvent, ActionView>::empty(),
    {
        let keymap = Keymap { bindings: Vec::new() };
        keymap
    }

    /// Gives `key` the command `action`, in place of the one it had.
    pub fn bind(&mut self, key: KeyEvent, action: Action)
        ensures
            final(self)@ == old(self)@.insert(key, action@),
    {
        self.bindings.push((key, action));
        assert(self.bindings@.drop_last() == old(self).bindings@);
    }

    /// The command of `key`, if it has one.
    pub fn lookup(&self, key: KeyEvent) -> (r: Option<Action>)
        ensures
            match r {
                Some(action) => self@.contains_key(key) && self@[key] == action@,
                None => !self@.contains_key(key),
            },
    {
        let mut i: usize = self.bindings.len();
        assert(self.bindings@.take(i as int) == self.bindings@);
        while i > 0
            invariant
                i <= self.bindings.len(),
                bound_to(self.bindings@.take(i as int), key) == bound_to(self.bindings@, key),
            decreases i,
        {
            let ghost upto = self.bindings@.take(i as int);
            assert(upto.drop_last() == self.bindings@.take(i - 1));
            if self.bindings[i - 1].0 == key {
                return Some(self.bindings[i - 1].1.clone());
            }
            i -= 1;
        }
        None
    }

    /// The keymap of the reader: `q` and control-`c` quit, `?` shows or hides
    /// the help, `l` loads the text, the space bar starts and stops playback,
    /// `j` and `k` step one word forward and backward, `/` starts the input.
    pub fn reader() -> (keymap: Keymap)
        ensures
            keymap@ == reader_keys(),
    {
        let mut keymap = Keymap::new();
        keymap.bind(KeyEvent::char('q'), Action::Quit);
        keymap.bind(KeyEvent::ctrl('c'), Action::Quit);
        keymap.bind(KeyEvent::char('?'), Action::ToggleShowHelp);
        keymap.bind(KeyEvent::char('l'), Action::LoadText);
        keymap.bind(KeyEvent::char(' '), Action::TogglePlayback);
        keymap.bind(KeyEvent::char('j'), Action::ScheduleAdvance(Direction::Forward, 1));
        keymap.bind(KeyEvent::char('k'), Action::ScheduleAdvance(Direction::Backward, 1));
        keymap.bind(KeyEvent::char('/'), Action::EnterInsert);
        keymap
    }
}

} // verus!

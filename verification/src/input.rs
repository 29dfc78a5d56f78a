//! The line of text that the reader types into, kept by `tui_input`.
//!
//! The buffer and its editing are the work of that crate. What is stated of
//! them here is believed, not proved.

use vstd::prelude::*;
use tui_input::backend::crossterm::EventHandler;
use tui_input::Input;
use crate::key::{KeyCode, KeyEvent, NONE, SHIFT};

verus! {

#[verifier::external_type_specification]
#[verifier::external_body]
pub struct ExInput(Input);

/// The text that the buffer holds.
pub uninterp spec fn input_value(input: Input) -> Seq<char>;

/// The place of the cursor in the buffer, counted in characters from its start.
pub uninterp spec fn input_cursor(input: Input) -> nat;

/// The text and the cursor of a buffer after a key press, given the text and
/// the cursor before it: what `handle_event` makes of them.
pub uninterp spec fn input_edited(value: Seq<char>, cursor: nat, key: KeyEvent) -> (Seq<char>, nat);

/// Whether the key types the character that it holds into the buffer: a
/// character key with no modifier held, or with shift alone.
pub open spec fn types_char(key: KeyEvent) -> bool {
    key.code is Char && (key.modifiers == NONE || key.modifiers == SHIFT)
}

/// `Input::default()`: a buffer without text, the cursor at its start.
#[verifier::external_body]
pub(crate) fn input_empty() -> (input: Input)
    ensures
        input_value(input) == Seq::<char>::empty(),
        input_cursor(input) == 0,
{
    Input::default()
}

/// `Input::value()`: the text of the buffer, here copied into a `String`.
#[verifier::external_body]
pub(crate) fn input_text(input: &Input) -> (text: String)
    ensures
        text@ == input_value(*input),
{
    input.value().to_string()
}

/// `Input::handle_event()` on the press of `key`, which is handed over as a
/// key press of `crossterm` (`KeyEvent::new`) with the same key and the same
/// modifier bits; `Other` goes as the key `Null`. The text and the cursor of
/// the buffer afterwards depend on nothing but the text, the cursor and the
/// key. A key that types a character puts it where the cursor is and moves
/// the cursor one place on.
#[verifier::external_body]
pub(crate) fn input_press(input: &mut Input, key: KeyEvent)
    ensures
        (input_value(*final(input)), input_cursor(*final(input))) == input_edited(
            input_value(*old(input)),
            input_cursor(*old(input)),
            key,
        ),
        types_char(key) && input_cursor(*old(input)) <= input_value(*old(input)).len() ==> {
            &&& input_value(*final(input)) == input_value(*old(input)).insert(
                input_cursor(*old(input)) as int,
                key.code->Char_0,
            )
            &&& input_cursor(*final(input)) == input_cursor(*old(input)) + 1
        },
{
    let code = match key.code {
        KeyCode::Char(c) => crossterm::event::KeyCode::Char(c),
        KeyCode::Enter => crossterm::event::KeyCode::Enter,
        KeyCode::Esc => crossterm::event::KeyCode::Esc,
        KeyCode::Backspace => crossterm::event::KeyCode::Backspace,
        KeyCode::Delete => crossterm::event::KeyCode::Delete,
        KeyCode::Tab => crossterm::event::KeyCode::Tab,
        KeyCode::Left => crossterm::event::KeyCode::Left,
        KeyCode::Right => crossterm::event::KeyCode::Right,
        KeyCode::Home => crossterm::event::KeyCode::Home,
        KeyCode::End => crossterm::event::KeyCode::End,
        KeyCode::Other => crossterm::event::KeyCode::Null,
    };
    let modifiers = crossterm::event::KeyModifiers::from_bits_truncate(key.modifiers);
    input.handle_event(&crossterm::event::Event::Key(crossterm::event::KeyEvent::new(code, modifiers)));
}

} // verus!

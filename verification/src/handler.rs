//! What a key press does to the reader.

use vstd::prelude::*;
use crate::app::{App, AppView};
use crate::key::{KeyCode, KeyEvent, CONTROL};

verus! {

/// What is left for the caller to do after a key press.
#[derive(Clone, Copy, Debug, PartialEq, Eq, Structural)]
pub enum Request {
    /// Nothing.
    Nothing,
    /// Read the text and hand it to `text_load`.
    LoadText,
    /// Rest for so many nanoseconds.
    Pause(u64),
}

/// The reader after the press of `key`, and what is left for the caller:
/// escape, `q` and control-`c` stop the reader; the arrows to the right and to
/// the left step one word forward and backward; `l` asks for the text; the
/// space bar throws the playback switch.
pub open spec fn handled(app: AppView, key: KeyEvent) -> (AppView, Request) {
    match key.code {
        KeyCode::Esc => (AppView { running: false, ..app }, Request::Nothing),
        KeyCode::Char(c) => if c == 'q' {
            (AppView { running: false, ..app }, Request::Nothing)
        } else if c == 'c' || c == 'C' {
            if key.modifiers == CONTROL {
                (AppView { running: false, ..app }, Request::Nothing)
            } else {
                (app, Request::Nothing)
            }
        } else if c == 'l' {
            (app, Request::LoadText)
        } else if c == ' ' {
            let thrown = AppView { playing: !app.playing, ..app };
            (thrown, Request::Pause(thrown.pause() as u64))
        } else {
            (app, Request::Nothing)
        },
        KeyCode::Right => (AppView { store: app.store.advanced(1), ..app }, Request::Nothing),
        KeyCode::Left => (AppView { store: app.store.advanced(-1), ..app }, Request::Nothing),
        _ => (app, Request::Nothing),
    }
}

/// Handles a key press and updates the reader.
pub fn handle_key_events(key_event: KeyEvent, app: &mut App) -> (request: Request)
    ensures
        (final(app)@, request) == handled(old(app)@, key_event),
{
    match key_event.code {
        KeyCode::Esc => {
            app.quit();
            Request::Nothing
        },
        KeyCode::Char(c) => {
            if c == 'q' {
                app.quit();
                Request::Nothing
            } else if c == 'c' || c == 'C' {
                if key_event.modifiers == CONTROL {
                    app.quit();
                }
                Request::Nothing
            } else if c == 'l' {
                Request::LoadText
            } else if c == ' ' {
                let (_, pause) = app.sread_text();
                Request::Pause(pause)
            } else {
                Request::Nothing
            }
        },
        KeyCode::Right => {
            let _ = app.increment_word();
            Request::Nothing
        },
        KeyCode::Left => {
            app.decrement_word();
            Request::Nothing
        },
        _ => Request::Nothing,
    }
}

} // verus!

use sreader::app::{App, PAUSES};
use sreader::handler::{handle_key_events, Request};
use sreader::key::{KeyCode, KeyEvent, CONTROL, SHIFT};
use sreader::store::LoadError;

const TEN: &str = "one two three four five six seven eight nine ten";

fn loaded() -> App {
    let mut app = App::new();
    assert_eq!(app.text_load(TEN), Ok(()));
    app
}

#[test]
fn app_starts_running_without_text() {
    let app = App::new();
    assert!(app.running());
    assert!(!app.playing());
    assert_eq!(app.read_rate(), 6);
    assert_eq!(app.current_word(), "");
    assert_eq!(app.position(), (0, 0));
    app.tick();
    assert!(app.running());
    assert_eq!(app.position(), (0, 0));
    let same = App::default();
    assert!(same.running());
    assert!(!same.playing());
    assert_eq!(same.read_rate(), 6);
    assert_eq!(same.position(), (0, 0));
}

#[test]
fn app_quit_stops_running() {
    let mut app = loaded();
    app.increment_word();
    app.quit();
    assert!(!app.running());
    assert_eq!(app.position(), (1, 10));
    assert!(!app.playing());
}

#[test]
fn app_text_load_starts_at_the_first_word() {
    let mut app = App::new();
    assert_eq!(app.text_load(""), Err(LoadError::EmptyCorpus));
    assert_eq!(app.text_load("\n\t "), Err(LoadError::EmptyCorpus));
    assert_eq!(app.position(), (0, 0));
    assert_eq!(app.text_load(TEN), Ok(()));
    assert_eq!(app.position(), (0, 10));
    assert_eq!(app.current_word(), "one");
}

#[test]
fn app_steps_word_by_word() {
    let mut app = loaded();
    assert_eq!(app.increment_word(), "two");
    assert_eq!(app.increment_word(), "three");
    app.decrement_word();
    assert_eq!(app.current_word(), "two");
    assert_eq!(app.position(), (1, 10));
}

#[test]
fn app_steps_stop_at_the_ends() {
    let mut app = loaded();
    app.decrement_word();
    assert_eq!(app.position(), (0, 10));
    for _ in 0..15 {
        app.increment_word();
    }
    assert_eq!(app.position(), (9, 10));
    assert_eq!(app.increment_word(), "ten");
    for _ in 0..20 {
        app.decrement_word();
    }
    assert_eq!(app.position(), (0, 10));
    assert_eq!(app.current_word(), "one");
}

#[test]
fn app_steps_without_text_change_nothing() {
    let mut app = App::new();
    assert_eq!(app.increment_word(), "");
    app.decrement_word();
    assert_eq!(app.position(), (0, 0));
}

#[test]
fn app_playback_switch_rests_five_intervals() {
    let mut app = loaded();
    assert_eq!(PAUSES, 5);
    assert_eq!(app.sread_text(), ("one".to_string(), 833_333_330));
    assert!(app.playing());
    assert_eq!(app.sread_text(), ("one".to_string(), 0));
    assert!(!app.playing());
    app.increment_word();
    assert_eq!(app.sread_text(), ("two".to_string(), 5 * 166_666_666));
}

#[test]
fn app_playback_switch_without_text_does_not_rest() {
    let mut app = App::new();
    assert_eq!(app.sread_text(), (String::new(), 0));
    assert!(app.playing());
    assert_eq!(app.sread_text(), (String::new(), 0));
    assert!(!app.playing());
}

#[test]
fn escape_and_q_quit() {
    for key in [KeyEvent::plain(KeyCode::Esc), KeyEvent::char('q'), KeyEvent { code: KeyCode::Char('q'), modifiers: CONTROL }] {
        let mut app = loaded();
        assert_eq!(handle_key_events(key, &mut app), Request::Nothing);
        assert!(!app.running());
    }
}

#[test]
fn control_c_quits_and_plain_c_does_not() {
    for c in ['c', 'C'] {
        let mut app = loaded();
        assert_eq!(handle_key_events(KeyEvent::char(c), &mut app), Request::Nothing);
        assert!(app.running());
        assert_eq!(handle_key_events(KeyEvent { code: KeyCode::Char(c), modifiers: SHIFT }, &mut app), Request::Nothing);
        assert!(app.running());
        assert_eq!(handle_key_events(KeyEvent { code: KeyCode::Char(c), modifiers: CONTROL | SHIFT }, &mut app), Request::Nothing);
        assert!(app.running());
        assert_eq!(handle_key_events(KeyEvent::ctrl(c), &mut app), Request::Nothing);
        assert!(!app.running());
    }
}

#[test]
fn arrows_step_through_the_words() {
    let mut app = loaded();
    assert_eq!(handle_key_events(KeyEvent::plain(KeyCode::Right), &mut app), Request::Nothing);
    assert_eq!(handle_key_events(KeyEvent::plain(KeyCode::Right), &mut app), Request::Nothing);
    assert_eq!(app.position(), (2, 10));
    assert_eq!(handle_key_events(KeyEvent::plain(KeyCode::Left), &mut app), Request::Nothing);
    assert_eq!(app.position(), (1, 10));
    assert_eq!(app.current_word(), "two");
    for _ in 0..3 {
        handle_key_events(KeyEvent::plain(KeyCode::Left), &mut app);
    }
    assert_eq!(app.position(), (0, 10));
}

#[test]
fn l_asks_for_the_text() {
    let mut app = App::new();
    assert_eq!(handle_key_events(KeyEvent::char('l'), &mut app), Request::LoadText);
    assert_eq!(app.position(), (0, 0));
    assert!(app.running());
}

#[test]
fn space_throws_the_playback_switch() {
    let mut app = loaded();
    assert_eq!(handle_key_events(KeyEvent::char(' '), &mut app), Request::Pause(833_333_330));
    assert!(app.playing());
    assert_eq!(handle_key_events(KeyEvent::char(' '), &mut app), Request::Pause(0));
    assert!(!app.playing());
}

#[test]
fn other_keys_do_nothing() {
    let mut app = loaded();
    for key in [KeyEvent::char('x'), KeyEvent::plain(KeyCode::Enter), KeyEvent::plain(KeyCode::Tab), KeyEvent::plain(KeyCode::Other), KeyEvent::char('j')] {
        assert_eq!(handle_key_events(key, &mut app), Request::Nothing);
    }
    assert!(app.running());
    assert!(!app.playing());
    assert_eq!(app.position(), (0, 10));
}

use sreader::action::{Action, Direction};
use sreader::home::{bracketed, signed, Effect, Home, Mode, Step};
use sreader::key::{KeyCode, KeyEvent, Keymap, CONTROL, SHIFT};
use sreader::playback::Swap;
use sreader::queue::ActionQueue;
use sreader::store::LoadError;

const TEN: &str = "one two three four five six seven eight nine ten";

fn quiet() -> Step {
    Step { derived: None, effect: Effect::Nothing }
}

fn loaded() -> Home {
    let mut home = Home::new();
    assert_eq!(home.text_load(TEN), Ok(()));
    home
}

fn type_word(home: &mut Home, word: &str) {
    for c in word.chars() {
        assert_eq!(home.handle_key_events(KeyEvent::char(c)), Some(Action::Update));
    }
}

#[test]
fn home_starts_running_in_normal_mode() {
    let home = Home::new();
    assert!(home.running());
    assert!(!home.show_help());
    assert_eq!(home.mode(), Mode::Normal);
    assert_eq!(home.app_ticker(), 0);
    assert_eq!(home.render_ticker(), 0);
    assert_eq!(home.input().value(), "");
    assert_eq!(home.input().cursor(), 0);
    assert!(home.text().is_empty());
    assert!(home.last_events().is_empty());
    assert_eq!(home.store().position(), (0, 0));
    assert!(!home.playback().is_active());
    assert_eq!(home.playback().interval_nanos(), 166_666_666);
}

#[test]
fn default_home_is_the_new_home() {
    let home = Home::default();
    assert!(home.running());
    assert_eq!(home.mode(), Mode::Normal);
    assert_eq!(home.store().position(), (0, 0));
    assert_eq!(Mode::default(), Mode::Normal);
}

#[test]
fn signed_moves() {
    assert_eq!(signed(Direction::Forward, 3), 3);
    assert_eq!(signed(Direction::Backward, 3), -3);
    assert_eq!(signed(Direction::Forward, 0), 0);
    assert_eq!(signed(Direction::Backward, 0), 0);
    assert_eq!(signed(Direction::Forward, usize::MAX), i64::MAX);
    assert_eq!(signed(Direction::Backward, usize::MAX), -i64::MAX);
}

#[test]
fn bracketed_puts_the_marks_around() {
    assert_eq!(
        bracketed(Action::Advance(2)),
        vec![Action::EnterProcessing, Action::Advance(2), Action::ExitProcessing]
    );
}

#[test]
fn tick_counts_and_forgets_the_keys() {
    let mut home = Home::new();
    home.handle_key_events(KeyEvent::char('a'));
    home.handle_key_events(KeyEvent::char('b'));
    assert_eq!(home.last_events(), &vec![KeyEvent::char('a'), KeyEvent::char('b')]);
    assert_eq!(home.update(Action::Tick), quiet());
    assert_eq!(home.app_ticker(), 1);
    assert!(home.last_events().is_empty());
    home.tick();
    assert_eq!(home.app_ticker(), 2);
    assert_eq!(home.render_ticker(), 0);
}

#[test]
fn render_counts() {
    let mut home = Home::new();
    assert_eq!(home.update(Action::Render), quiet());
    home.render_tick();
    assert_eq!(home.render_ticker(), 2);
    assert_eq!(home.app_ticker(), 0);
}

#[test]
fn toggle_show_help_flips() {
    let mut home = Home::new();
    assert_eq!(home.update(Action::ToggleShowHelp), quiet());
    assert!(home.show_help());
    assert_eq!(home.update(Action::ToggleShowHelp), quiet());
    assert!(!home.show_help());
}

#[test]
fn mode_actions_set_the_mode() {
    let mut home = Home::new();
    assert_eq!(home.update(Action::EnterInsert), quiet());
    assert_eq!(home.mode(), Mode::Insert);
    assert_eq!(home.update(Action::EnterProcessing), quiet());
    assert_eq!(home.mode(), Mode::Processing);
    assert_eq!(home.update(Action::ExitProcessing), quiet());
    assert_eq!(home.mode(), Mode::Normal);
    assert_eq!(home.update(Action::EnterInsert), quiet());
    assert_eq!(home.update(Action::EnterNormal), quiet());
    assert_eq!(home.mode(), Mode::Normal);
}

#[test]
fn exit_processing_restores_normal_from_any_mode() {
    for enter in [Action::EnterNormal, Action::EnterInsert, Action::EnterProcessing] {
        let mut home = Home::new();
        home.update(enter);
        home.update(Action::ExitProcessing);
        assert_eq!(home.mode(), Mode::Normal);
    }
}

#[test]
fn schedule_advance_emits_a_bracketed_move() {
    let mut home = loaded();
    let step = home.update(Action::ScheduleAdvance(Direction::Forward, 3));
    assert_eq!(step.derived, None);
    assert_eq!(
        step.effect,
        Effect::Emit(vec![Action::EnterProcessing, Action::Advance(3), Action::ExitProcessing])
    );
    let step = home.update(Action::ScheduleAdvance(Direction::Backward, 2));
    assert_eq!(
        step.effect,
        Effect::Emit(vec![Action::EnterProcessing, Action::Advance(-2), Action::ExitProcessing])
    );
    assert_eq!(home.store().position(), (0, 10));
    assert_eq!(home.mode(), Mode::Normal);
}

#[test]
fn requests_are_passed_over_while_work_is_in_progress() {
    let mut home = loaded();
    home.update(Action::EnterProcessing);
    assert_eq!(home.update(Action::ScheduleAdvance(Direction::Forward, 1)), quiet());
    assert_eq!(home.update(Action::LoadText), quiet());
    assert_eq!(home.mode(), Mode::Processing);
    assert_eq!(home.store().position(), (0, 10));
}

#[test]
fn requests_are_taken_in_insert_mode() {
    let mut home = loaded();
    home.update(Action::EnterInsert);
    assert_eq!(home.update(Action::LoadText).effect, Effect::ReadCorpus);
    assert_eq!(
        home.update(Action::ScheduleAdvance(Direction::Forward, 1)).effect,
        Effect::Emit(vec![Action::EnterProcessing, Action::Advance(1), Action::ExitProcessing])
    );
}

#[test]
fn advance_moves_in_any_mode() {
    let mut home = loaded();
    assert_eq!(home.update(Action::Advance(4)), quiet());
    assert_eq!(home.store().position(), (4, 10));
    home.update(Action::EnterProcessing);
    assert_eq!(home.update(Action::Advance(-1)), quiet());
    assert_eq!(home.store().position(), (3, 10));
    assert_eq!(home.store().current_word(), "four");
    assert_eq!(home.update(Action::Advance(100)), quiet());
    assert_eq!(home.store().position(), (9, 10));
    assert_eq!(home.update(Action::Advance(-100)), quiet());
    assert_eq!(home.store().position(), (0, 10));
}

#[test]
fn load_text_asks_for_the_text() {
    let mut home = Home::new();
    assert_eq!(home.update(Action::LoadText), Step { derived: None, effect: Effect::ReadCorpus });
    assert_eq!(home.store().position(), (0, 0));
}

#[test]
fn text_loaded_fills_the_store() {
    let mut home = Home::new();
    assert_eq!(home.update(Action::TextLoaded(TEN.to_string())), quiet());
    assert_eq!(home.store().position(), (0, 10));
    assert_eq!(home.store().current_word(), "one");
}

#[test]
fn blank_text_is_refused_with_an_error_action() {
    let mut home = loaded();
    home.update(Action::Advance(2));
    let step = home.update(Action::TextLoaded(" \n ".to_string()));
    assert_eq!(step.derived, Some(Action::Error("The text holds no words".to_string())));
    assert_eq!(step.effect, Effect::Nothing);
    assert_eq!(home.store().position(), (2, 10));
    let step = home.update(Action::TextLoaded(String::new()));
    assert_eq!(step.derived, Some(Action::Error("The text holds no words".to_string())));
}

#[test]
fn complete_input_is_kept_in_insert_mode_only() {
    let mut home = Home::new();
    assert_eq!(home.update(Action::CompleteInput("dropped".to_string())), quiet());
    assert!(home.text().is_empty());
    home.update(Action::EnterInsert);
    let step = home.update(Action::CompleteInput("kept".to_string()));
    assert_eq!(step, Step { derived: Some(Action::EnterNormal), effect: Effect::Nothing });
    assert_eq!(home.text(), &vec!["kept".to_string()]);
    assert_eq!(home.mode(), Mode::Insert);
    home.update(Action::EnterProcessing);
    assert_eq!(home.update(Action::CompleteInput("dropped".to_string())), quiet());
    assert_eq!(home.text(), &vec!["kept".to_string()]);
}

#[test]
fn add_appends_a_line() {
    let mut home = Home::new();
    home.add("first".to_string());
    home.add("second".to_string());
    assert_eq!(home.text(), &vec!["first".to_string(), "second".to_string()]);
}

#[test]
fn toggle_playback_orders_the_tasks() {
    let mut home = loaded();
    let step = home.update(Action::TogglePlayback);
    assert_eq!(step.derived, None);
    assert_eq!(step.effect, Effect::Playback(Swap { cancel: None, spawn: Some(0) }));
    assert!(home.playback().is_active());
    let step = home.update(Action::TogglePlayback);
    assert_eq!(step.effect, Effect::Playback(Swap { cancel: Some(0), spawn: None }));
    assert!(!home.playback().is_active());
    assert_eq!(home.playback().handle(), None);
    assert_eq!(home.schedule_sread_text(), Swap { cancel: None, spawn: Some(1) });
    assert_eq!(home.schedule_sread_text(), Swap { cancel: Some(1), spawn: None });
}

#[test]
fn quit_stops_the_reader_and_playback() {
    let mut home = loaded();
    home.update(Action::TogglePlayback);
    let step = home.update(Action::Quit);
    assert_eq!(step.derived, None);
    assert_eq!(step.effect, Effect::Playback(Swap { cancel: Some(0), spawn: None }));
    assert!(!home.running());
    assert!(!home.playback().is_active());
    let mut idle = Home::new();
    assert_eq!(idle.update(Action::Quit).effect, Effect::Playback(Swap { cancel: None, spawn: None }));
    assert!(!idle.running());
}

#[test]
fn actions_of_the_screen_change_nothing() {
    let mut home = loaded();
    home.update(Action::Advance(3));
    home.update(Action::EnterInsert);
    for action in [
        Action::Resize(80, 24),
        Action::Suspend,
        Action::Resume,
        Action::Refresh,
        Action::Error("message".to_string()),
        Action::Help,
        Action::Update,
    ] {
        assert_eq!(home.update(action), quiet());
        assert!(home.running());
        assert_eq!(home.mode(), Mode::Insert);
        assert_eq!(home.store().position(), (3, 10));
        assert!(home.text().is_empty());
        assert!(!home.show_help());
        assert_eq!(home.app_ticker(), 0);
    }
}

#[test]
fn schedule_functions_bracket_their_work() {
    assert_eq!(
        Home::schedule_increment_text(1),
        vec![Action::EnterProcessing, Action::Advance(1), Action::ExitProcessing]
    );
    assert_eq!(
        Home::schedule_decrement_text(4),
        vec![Action::EnterProcessing, Action::Advance(-4), Action::ExitProcessing]
    );
    assert_eq!(
        Home::schedule_text_load(Ok("a b".to_string())),
        vec![Action::EnterProcessing, Action::TextLoaded("a b".to_string()), Action::ExitProcessing]
    );
    assert_eq!(
        Home::schedule_text_load(Err(LoadError::Missing)),
        vec![
            Action::EnterProcessing,
            Action::Error("The text file is missing".to_string()),
            Action::ExitProcessing
        ]
    );
    assert_eq!(
        Home::schedule_text_load(Err(LoadError::Unreadable)),
        vec![
            Action::EnterProcessing,
            Action::Error("The text file cannot be read".to_string()),
            Action::ExitProcessing
        ]
    );
}

#[test]
fn text_load_and_moves_by_hand() {
    let mut home = Home::new();
    assert_eq!(home.text_load(""), Err(LoadError::EmptyCorpus));
    assert_eq!(home.text_load(TEN), Ok(()));
    home.increment_text(3);
    assert_eq!(home.store().position(), (3, 10));
    home.decrement_text(1);
    assert_eq!(home.store().position(), (2, 10));
    home.increment_text(usize::MAX);
    assert_eq!(home.store().position(), (9, 10));
    home.decrement_text(usize::MAX);
    assert_eq!(home.store().position(), (0, 10));
}

#[test]
fn playback_task_emits_while_it_drives_and_words_are_left() {
    let mut home = loaded();
    assert_eq!(home.sread_text(0), None);
    home.update(Action::TogglePlayback);
    assert_eq!(
        home.sread_text(0),
        Some(vec![Action::EnterProcessing, Action::Advance(1), Action::ExitProcessing])
    );
    assert_eq!(home.sread_text(1), None);
    home.update(Action::Advance(8));
    assert!(home.sread_text(0).is_some());
    home.update(Action::Advance(1));
    assert_eq!(home.store().position(), (9, 10));
    assert_eq!(home.sread_text(0), None);
    home.update(Action::Advance(-5));
    assert!(home.sread_text(0).is_some());
    home.update(Action::TogglePlayback);
    assert_eq!(home.sread_text(0), None);
}

#[test]
fn playback_task_has_nothing_to_emit_without_words() {
    let mut home = Home::new();
    home.update(Action::TogglePlayback);
    assert_eq!(home.sread_text(0), None);
}

#[test]
fn a_stale_task_stops_after_a_restart() {
    let mut home = loaded();
    home.update(Action::TogglePlayback);
    home.update(Action::TogglePlayback);
    home.update(Action::TogglePlayback);
    assert_eq!(home.sread_text(0), None);
    assert!(home.sread_text(1).is_some());
}

#[test]
fn keys_are_commands_in_normal_mode() {
    let mut home = Home::new().keymap(Keymap::reader());
    assert_eq!(home.handle_key_events(KeyEvent::char('q')), Some(Action::Quit));
    assert_eq!(home.handle_key_events(KeyEvent::char('j')), Some(Action::ScheduleAdvance(Direction::Forward, 1)));
    assert_eq!(home.handle_key_events(KeyEvent::char('k')), Some(Action::ScheduleAdvance(Direction::Backward, 1)));
    assert_eq!(home.handle_key_events(KeyEvent::char(' ')), Some(Action::TogglePlayback));
    assert_eq!(home.handle_key_events(KeyEvent::char('l')), Some(Action::LoadText));
    assert_eq!(home.handle_key_events(KeyEvent::char('/')), Some(Action::EnterInsert));
    assert_eq!(home.handle_key_events(KeyEvent::char('z')), None);
    assert_eq!(home.handle_key_events(KeyEvent::plain(KeyCode::Enter)), None);
    assert_eq!(home.input().value(), "");
    assert_eq!(home.last_events().len(), 8);
    assert_eq!(home.mode(), Mode::Normal);
}

#[test]
fn keys_give_nothing_without_bindings() {
    let mut home = Home::new();
    assert_eq!(home.handle_key_events(KeyEvent::char('q')), None);
    assert_eq!(home.last_events(), &vec![KeyEvent::char('q')]);
}

#[test]
fn keys_are_passed_over_while_work_is_in_progress() {
    let mut home = Home::new().keymap(Keymap::reader());
    home.update(Action::EnterProcessing);
    for key in [KeyEvent::char('q'), KeyEvent::char('j'), KeyEvent::plain(KeyCode::Esc), KeyEvent::plain(KeyCode::Enter)] {
        assert_eq!(home.handle_key_events(key), None);
    }
    assert_eq!(home.input().value(), "");
    assert_eq!(home.last_events().len(), 4);
}

#[test]
fn typed_characters_gather_in_the_line_of_input() {
    let mut home = Home::new().keymap(Keymap::reader());
    home.update(Action::EnterInsert);
    type_word(&mut home, "quite");
    assert_eq!(home.input().value(), "quite");
    assert_eq!(home.input().cursor(), 5);
    assert_eq!(
        home.handle_key_events(KeyEvent { code: KeyCode::Char('Q'), modifiers: SHIFT }),
        Some(Action::Update)
    );
    assert_eq!(home.input().value(), "quiteQ");
    assert_eq!(home.mode(), Mode::Insert);
}

#[test]
fn enter_gives_the_line_of_input() {
    let mut home = Home::new();
    home.update(Action::EnterInsert);
    type_word(&mut home, "hi there");
    assert_eq!(
        home.handle_key_events(KeyEvent::plain(KeyCode::Enter)),
        Some(Action::CompleteInput("hi there".to_string()))
    );
    assert_eq!(home.input().value(), "hi there");
    assert!(home.text().is_empty());
}

#[test]
fn escape_leaves_insert_mode_without_a_line() {
    let mut home = Home::new();
    home.update(Action::EnterInsert);
    type_word(&mut home, "abandoned");
    let action = home.handle_key_events(KeyEvent::plain(KeyCode::Esc));
    assert_eq!(action, Some(Action::EnterNormal));
    home.update(action.unwrap());
    assert_eq!(home.mode(), Mode::Normal);
    assert!(home.text().is_empty());
}

#[test]
fn editing_keys_edit_the_line_of_input() {
    let mut home = Home::new();
    home.update(Action::EnterInsert);
    type_word(&mut home, "abc");
    assert_eq!(home.handle_key_events(KeyEvent::plain(KeyCode::Backspace)), Some(Action::Update));
    assert_eq!(home.input().value(), "ab");
    home.handle_key_events(KeyEvent::plain(KeyCode::Left));
    assert_eq!(home.input().cursor(), 1);
    home.handle_key_events(KeyEvent::char('x'));
    assert_eq!(home.input().value(), "axb");
    assert_eq!(home.input().cursor(), 2);
    home.handle_key_events(KeyEvent::plain(KeyCode::Home));
    assert_eq!(home.input().cursor(), 0);
    home.handle_key_events(KeyEvent::plain(KeyCode::Delete));
    assert_eq!(home.input().value(), "xb");
    home.handle_key_events(KeyEvent::plain(KeyCode::End));
    assert_eq!(home.input().cursor(), 2);
    home.handle_key_events(KeyEvent::plain(KeyCode::Right));
    assert_eq!(home.input().cursor(), 2);
    assert_eq!(home.handle_key_events(KeyEvent::plain(KeyCode::Tab)), Some(Action::Update));
    assert_eq!(home.handle_key_events(KeyEvent::plain(KeyCode::Other)), Some(Action::Update));
    assert_eq!(home.input().value(), "xb");
    home.handle_key_events(KeyEvent { code: KeyCode::Char('u'), modifiers: CONTROL });
    assert_eq!(home.input().value(), "");
    assert_eq!(home.input().cursor(), 0);
}

#[test]
fn a_line_of_input_goes_through_the_loop() {
    let mut home = Home::new().keymap(Keymap::reader());
    let mut queue = ActionQueue::new();
    queue.push(home.handle_key_events(KeyEvent::char('/')).unwrap());
    assert_eq!(home.dispatch(&mut queue), Effect::Nothing);
    assert_eq!(home.mode(), Mode::Insert);
    type_word(&mut home, "note");
    queue.push(home.handle_key_events(KeyEvent::plain(KeyCode::Enter)).unwrap());
    assert_eq!(home.dispatch(&mut queue), Effect::Nothing);
    assert_eq!(home.text(), &vec!["note".to_string()]);
    assert_eq!(home.mode(), Mode::Normal);
    assert!(queue.is_empty());
}

#[test]
fn dispatch_takes_the_actions_in_their_order() {
    let mut home = loaded();
    let mut queue = ActionQueue::new();
    queue.push(Action::Advance(100));
    queue.push(Action::Advance(-2));
    queue.push(Action::Advance(1));
    assert_eq!(home.dispatch(&mut queue), Effect::Nothing);
    assert_eq!(home.store().position(), (8, 10));
    assert!(queue.is_empty());
    queue.push(Action::Advance(1));
    queue.push(Action::Advance(-2));
    queue.push(Action::Advance(100));
    assert_eq!(home.dispatch(&mut queue), Effect::Nothing);
    assert_eq!(home.store().position(), (9, 10));
}

#[test]
fn dispatch_on_an_empty_queue_does_nothing() {
    let mut home = Home::new();
    let mut queue = ActionQueue::new();
    assert_eq!(home.dispatch(&mut queue), Effect::Nothing);
    assert!(home.running());
    assert_eq!(home.app_ticker(), 0);
}

#[test]
fn dispatch_puts_a_derived_action_at_the_back() {
    let mut home = Home::new();
    let mut queue = ActionQueue::new();
    queue.push(Action::EnterInsert);
    queue.push(Action::CompleteInput("first".to_string()));
    queue.push(Action::CompleteInput("second".to_string()));
    queue.push(Action::LoadText);
    assert_eq!(home.dispatch(&mut queue), Effect::ReadCorpus);
    assert_eq!(home.text(), &vec!["first".to_string(), "second".to_string()]);
    assert_eq!(home.mode(), Mode::Insert);
    assert_eq!(queue.len(), 2);
    assert_eq!(queue.pop(), Some(Action::EnterNormal));
    assert_eq!(queue.pop(), Some(Action::EnterNormal));
}

#[test]
fn dispatch_stops_at_work_for_the_caller_and_goes_on_afterwards() {
    let mut home = loaded();
    let mut queue = ActionQueue::new();
    queue.push(Action::Tick);
    queue.push(Action::ScheduleAdvance(Direction::Forward, 2));
    queue.push(Action::Render);
    let effect = home.dispatch(&mut queue);
    assert_eq!(
        effect,
        Effect::Emit(vec![Action::EnterProcessing, Action::Advance(2), Action::ExitProcessing])
    );
    assert_eq!(home.app_ticker(), 1);
    assert_eq!(home.render_ticker(), 0);
    assert_eq!(queue.len(), 1);
    if let Effect::Emit(actions) = effect {
        queue.extend(&actions);
    }
    assert_eq!(home.dispatch(&mut queue), Effect::Nothing);
    assert_eq!(home.render_ticker(), 1);
    assert_eq!(home.store().position(), (2, 10));
    assert_eq!(home.mode(), Mode::Normal);
    assert!(queue.is_empty());
}

#[test]
fn dispatch_stops_for_good_at_quit() {
    let mut home = loaded();
    let mut queue = ActionQueue::new();
    queue.push(Action::Advance(1));
    queue.push(Action::Quit);
    queue.push(Action::Advance(1));
    queue.push(Action::Tick);
    assert_eq!(home.dispatch(&mut queue), Effect::Playback(Swap { cancel: None, spawn: None }));
    assert!(!home.running());
    assert_eq!(home.store().position(), (1, 10));
    assert_eq!(queue.len(), 2);
    assert_eq!(home.dispatch(&mut queue), Effect::Nothing);
    assert_eq!(queue.len(), 2);
    assert_eq!(home.store().position(), (1, 10));
    assert_eq!(home.app_ticker(), 0);
}

#[test]
fn a_bracketed_load_ends_in_normal_mode() {
    let mut home = Home::new();
    let mut queue = ActionQueue::new();
    queue.push(Action::EnterInsert);
    queue.extend(&Home::schedule_text_load(Ok(TEN.to_string())));
    assert_eq!(home.dispatch(&mut queue), Effect::Nothing);
    assert_eq!(home.mode(), Mode::Normal);
    assert_eq!(home.store().position(), (0, 10));
    assert!(queue.is_empty());
}

#[test]
fn a_bracketed_failure_ends_in_normal_mode() {
    for actions in [
        Home::schedule_text_load(Err(LoadError::Missing)),
        Home::schedule_text_load(Ok("  ".to_string())),
    ] {
        let mut home = loaded();
        let mut queue = ActionQueue::new();
        queue.extend(&actions);
        assert_eq!(home.dispatch(&mut queue), Effect::Nothing);
        assert_eq!(home.mode(), Mode::Normal);
        assert_eq!(home.store().position(), (0, 10));
        assert!(queue.is_empty());
    }
}

#[test]
fn a_request_inside_a_bracket_is_passed_over() {
    let mut home = loaded();
    let mut queue = ActionQueue::new();
    queue.push(Action::EnterProcessing);
    queue.push(Action::ScheduleAdvance(Direction::Forward, 1));
    queue.push(Action::Advance(1));
    queue.push(Action::ExitProcessing);
    assert_eq!(home.dispatch(&mut queue), Effect::Nothing);
    assert_eq!(home.store().position(), (1, 10));
    assert_eq!(home.mode(), Mode::Normal);
}

#[test]
fn playback_runs_to_the_last_word() {
    let mut home = loaded();
    let mut queue = ActionQueue::new();
    queue.push(Action::TogglePlayback);
    assert_eq!(home.dispatch(&mut queue), Effect::Playback(Swap { cancel: None, spawn: Some(0) }));
    let mut rounds = 0;
    while let Some(actions) = home.sread_text(0) {
        queue.extend(&actions);
        assert_eq!(home.dispatch(&mut queue), Effect::Nothing);
        assert_eq!(home.mode(), Mode::Normal);
        rounds += 1;
        assert!(rounds <= 9);
    }
    assert_eq!(rounds, 9);
    assert_eq!(home.store().position(), (9, 10));
    assert_eq!(home.store().current_word(), "ten");
    assert!(home.playback().is_active());
}

#[test]
fn tickers_stop_at_the_largest_number() {
    let mut home = Home::new();
    for _ in 0..1000 {
        home.tick();
        home.render_tick();
    }
    assert_eq!(home.app_ticker(), 1000);
    assert_eq!(home.render_ticker(), 1000);
}

#[test]
fn fifteen_actions_forward_then_twenty_backward() {
    let mut home = loaded();
    let mut queue = ActionQueue::new();
    for _ in 0..15 {
        queue.push(Action::Advance(1));
    }
    assert_eq!(home.dispatch(&mut queue), Effect::Nothing);
    assert_eq!(home.store().position(), (9, 10));
    for _ in 0..20 {
        queue.push(Action::Advance(-1));
    }
    assert_eq!(home.dispatch(&mut queue), Effect::Nothing);
    assert_eq!(home.store().position(), (0, 10));
    assert_eq!(home.store().current_word(), "one");
}

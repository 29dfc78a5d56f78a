//! The reader driven by actions: the state that the dispatch loop owns, the
//! step that one action makes, and the loop that takes the actions from the
//! queue, one at a time and in their order.
//!
//! Work that cannot be done here (reading the text, running the playback
//! task, handing actions over from a task in the background) is named in the
//! `Effect` that a step returns. The caller does that work and reports back
//! with actions on the queue.

use vstd::prelude::*;
use tui_input::Input;
use crate::action::{view_of, views, Action, ActionView, Direction};
use crate::input::{
    input_cursor, input_edited, input_empty, input_press, input_text, input_value, types_char,
};
use crate::key::{KeyCode, KeyEvent, Keymap};
use crate::playback::{PlaybackState, PlaybackView, ReadRate, Swap, STANDARD_RATE};
use crate::queue::ActionQueue;
use crate::store::{load_message, LoadError, StoreView, WordStore};
use crate::text::{chars_of, lemma_no_words_iff_blank, string_of, words_of};

verus! {

/// How key presses are read.
#[derive(Clone, Copy, Debug, PartialEq, Eq, Structural)]
pub enum Mode {
    /// Keys are commands.
    Normal,
    /// Keys go into the line of input.
    Insert,
    /// Work is in progress and keys are passed over.
    Processing,
}

impl Default for Mode {
    fn default() -> (mode: Mode)
        ensures
            mode == Mode::Normal,
    {
        Mode::Normal
    }
}

/// Work that a step leaves to the caller.
#[derive(Debug, PartialEq, Eq)]
pub enum Effect {
    /// No work.
    Nothing,
    /// Hand these actions to the queue from the background, in this order.
    Emit(Vec<Action>),
    /// Read the text, then hand the actions of `schedule_text_load` to the
    /// queue.
    ReadCorpus,
    /// Cancel and start playback tasks as the order says.
    Playback(Swap),
}

/// An effect as a value of mathematics.
pub enum EffectView {
    Nothing,
    Emit(Seq<ActionView>),
    ReadCorpus,
    Playback(Swap),
}

impl View for Effect {
    type V = EffectView;

    open spec fn view(&self) -> EffectView {
        match *self {
            Effect::Nothing => EffectView::Nothing,
            Effect::Emit(actions) => EffectView::Emit(views(actions@)),
            Effect::ReadCorpus => EffectView::ReadCorpus,
            Effect::Playback(swap) => EffectView::Playback(swap),
        }
    }
}

/// What a step returns: the action that follows from it, which goes to the
/// back of the queue, and the work left to the caller.
#[derive(Debug, PartialEq, Eq)]
pub struct Step {
    pub derived: Option<Action>,
    pub effect: Effect,
}

/// The state after a step, with what the step returns.
pub struct StepView {
    pub next: HomeView,
    pub derived: Option<ActionView>,
    pub effect: EffectView,
}

/// The state after a run of the dispatch loop, the queue it leaves, and the
/// work on which it stopped.
pub struct DispatchView {
    pub home: HomeView,
    pub queue: Seq<ActionView>,
    pub effect: EffectView,
}

/// What the reader holds.
pub struct HomeView {
    /// False once the reader was told to quit.
    pub running: bool,
    pub show_help: bool,
    /// The ticks counted so far.
    pub app_ticker: usize,
    /// The renderings counted so far.
    pub render_ticker: usize,
    pub mode: Mode,
    /// The text of the line of input.
    pub buffer: Seq<char>,
    /// The place of the cursor in the line of input.
    pub cursor: nat,
    pub keymap: Map<KeyEvent, ActionView>,
    /// The lines of input that were completed.
    pub text: Seq<Seq<char>>,
    /// The keys pressed since the last tick.
    pub last_events: Seq<KeyEvent>,
    pub store: StoreView,
    pub playback: PlaybackView,
}

/// `n + 1`, or `n` where there is no larger number.
pub open spec fn counted(n: usize) -> usize {
    if n == usize::MAX {
        n
    } else {
        (n + 1) as usize
    }
}

/// The move of `amount` words in `direction`, as a signed number; an amount
/// above the largest signed number counts as that number.
pub open spec fn signed_delta(direction: Direction, amount: usize) -> i64 {
    let steps: i64 = if amount > i64::MAX {
        i64::MAX
    } else {
        amount as i64
    };
    match direction {
        Direction::Forward => steps,
        Direction::Backward => (-steps) as i64,
    }
}

/// The action `payload` between the two that mark work in progress.
pub open spec fn bracket(payload: ActionView) -> Seq<ActionView> {
    seq![ActionView::EnterProcessing, payload, ActionView::ExitProcessing]
}

/// The actions that report how the reading of the text went: the text, or
/// the message of the failure, bracketed.
pub open spec fn load_report(outcome: Result<Seq<char>, LoadError>) -> Seq<ActionView> {
    match outcome {
        Ok(text) => bracket(ActionView::TextLoaded(text)),
        Err(e) => bracket(ActionView::Error(load_message(e))),
    }
}

/// How many steps an action can cause: itself and the action derived from it.
pub open spec fn weight(action: ActionView) -> nat {
    match action {
        ActionView::CompleteInput(_) => 2,
        ActionView::TextLoaded(_) => 2,
        _ => 1,
    }
}

/// How many steps the actions of `queue` can cause together.
pub open spec fn load(queue: Seq<ActionView>) -> nat
    decreases queue.len(),
{
    if queue.len() == 0 {
        0
    } else {
        weight(queue[0]) + load(queue.drop_first())
    }
}

/// An action at the back of the queue adds its own weight.
pub proof fn lemma_load_push(queue: Seq<ActionView>, action: ActionView)
    ensures
        load(queue.push(action)) == load(queue) + weight(action),
    decreases queue.len(),
{
    if queue.len() == 0 {
        assert(queue.push(action).drop_first() == queue);
    } else {
        assert(queue.push(action).drop_first() == queue.drop_first().push(action));
        lemma_load_push(queue.drop_first(), action);
    }
}

/// The queue after its first action was taken and `derived`, if any, was put
/// at its back.
pub open spec fn requeued(queue: Seq<ActionView>, derived: Option<ActionView>) -> Seq<ActionView> {
    match derived {
        Some(action) => queue.drop_first().push(action),
        None => queue.drop_first(),
    }
}

impl HomeView {
    /// The place is inside the words, or there are none, and the rate of
    /// playback is above zero.
    pub open spec fn wf(self) -> bool {
        self.store.wf() && self.playback.rate > 0
    }

    /// The state in which the reader starts.
    pub open spec fn initial() -> HomeView {
        HomeView {
            running: true,
            show_help: false,
            app_ticker: 0,
            render_ticker: 0,
            mode: Mode::Normal,
            buffer: Seq::empty(),
            cursor: 0,
            keymap: Map::empty(),
            text: Seq::empty(),
            last_events: Seq::empty(),
            store: StoreView::unloaded(),
            playback: PlaybackView { active: false, rate: STANDARD_RATE, handle: None, serial: 0 },
        }
    }

    /// A step that changes the state and asks for nothing.
    pub open spec fn quiet(self) -> StepView {
        StepView { next: self, derived: None, effect: EffectView::Nothing }
    }

    /// The step that `action` makes from this state.
    ///
    /// Requests for work (`ScheduleAdvance`, `LoadText`) are passed over while
    /// work is in progress. A line of input is taken only in `Insert` mode and
    /// is followed by `EnterNormal`. A text without words is refused and
    /// followed by an `Error` that says so. `Quit` stops the reader and shuts
    /// playback down. The actions of the screen (`Resize`, `Suspend`,
    /// `Resume`, `Refresh`, `Error`, `Help`, `Update`) change nothing here.
    pub open spec fn step(self, action: ActionView) -> StepView {
        match action {
            ActionView::Tick => HomeView {
                app_ticker: counted(self.app_ticker),
                last_events: Seq::empty(),
                ..self
            }.quiet(),
            ActionView::Render => HomeView {
                render_ticker: counted(self.render_ticker),
                ..self
            }.quiet(),
            ActionView::ToggleShowHelp => HomeView { show_help: !self.show_help, ..self }.quiet(),
            ActionView::ScheduleAdvance(direction, amount) => if self.mode == Mode::Processing {
                self.quiet()
            } else {
                StepView {
                    next: self,
                    derived: None,
                    effect: EffectView::Emit(
                        bracket(ActionView::Advance(signed_delta(direction, amount))),
                    ),
                }
            },
            ActionView::Advance(delta) => HomeView {
                store: self.store.advanced(delta as int),
                ..self
            }.quiet(),
            ActionView::TogglePlayback => StepView {
                next: HomeView { playback: self.playback.toggled().0, ..self },
                derived: None,
                effect: EffectView::Playback(self.playback.toggled().1),
            },
            ActionView::LoadText => if self.mode == Mode::Processing {
                self.quiet()
            } else {
                StepView { next: self, derived: None, effect: EffectView::ReadCorpus }
            },
            ActionView::TextLoaded(text) => StepView {
                next: HomeView { store: self.store.loaded(text), ..self },
                derived: if words_of(text).len() == 0 {
                    Some(ActionView::Error(load_message(LoadError::EmptyCorpus)))
                } else {
                    None
                },
                effect: EffectView::Nothing,
            },
            ActionView::CompleteInput(line) => if self.mode == Mode::Insert {
                StepView {
                    next: HomeView { text: self.text.push(line), ..self },
                    derived: Some(ActionView::EnterNormal),
                    effect: EffectView::Nothing,
                }
            } else {
                self.quiet()
            },
            ActionView::EnterNormal => HomeView { mode: Mode::Normal, ..self }.quiet(),
            ActionView::EnterInsert => HomeView { mode: Mode::Insert, ..self }.quiet(),
            ActionView::EnterProcessing => HomeView { mode: Mode::Processing, ..self }.quiet(),
            ActionView::ExitProcessing => HomeView { mode: Mode::Normal, ..self }.quiet(),
            ActionView::Quit => StepView {
                next: HomeView { running: false, playback: self.playback.stopped().0, ..self },
                derived: None,
                effect: EffectView::Playback(self.playback.stopped().1),
            },
            ActionView::Resize(_, _) => self.quiet(),
            ActionView::Suspend => self.quiet(),
            ActionView::Resume => self.quiet(),
            ActionView::Refresh => self.quiet(),
            ActionView::Error(_) => self.quiet(),
            ActionView::Help => self.quiet(),
            ActionView::Update => self.quiet(),
        }
    }

    /// The state after the actions of `actions` made their steps, one after
    /// the other.
    pub open spec fn run(self, actions: Seq<ActionView>) -> HomeView
        decreases actions.len(),
    {
        if actions.len() == 0 {
            self
        } else {
            self.run(actions.drop_last()).step(actions.last()).next
        }
    }

    /// One run of the dispatch loop over `queue`. While the reader runs and an
    /// action waits, the action at the front of the queue makes its step and
    /// the action derived from it goes to the back. The run ends when the
    /// reader has quit, when nothing waits, or with the first step that leaves
    /// work to the caller.
    pub open spec fn dispatched(self, queue: Seq<ActionView>) -> DispatchView
        decreases load(queue),
    {
        if !self.running || queue.len() == 0 {
            DispatchView { home: self, queue, effect: EffectView::Nothing }
        } else {
            let step = self.step(queue[0]);
            let rest = requeued(queue, step.derived);
            proof {
                lemma_load_requeued(self, queue);
            }
            if step.effect is Nothing {
                step.next.dispatched(rest)
            } else {
                DispatchView { home: step.next, queue: rest, effect: step.effect }
            }
        }
    }

    /// The press of `key`: the state after it and the action that it gives.
    ///
    /// The key is noted. In `Normal` mode it gives its command, if the keymap
    /// binds it. In `Processing` mode it gives nothing. In `Insert` mode
    /// escape gives `EnterNormal`, enter gives the line of input as
    /// `CompleteInput`, and every other key goes to the line of input and
    /// gives `Update`.
    pub open spec fn keyed(self, key: KeyEvent) -> (HomeView, Option<ActionView>) {
        let noted = HomeView { last_events: self.last_events.push(key), ..self };
        match self.mode {
            Mode::Processing => (noted, None),
            Mode::Normal => (
                noted,
                if self.keymap.contains_key(key) {
                    Some(self.keymap[key])
                } else {
                    None
                },
            ),
            Mode::Insert => match key.code {
                KeyCode::Esc => (noted, Some(ActionView::EnterNormal)),
                KeyCode::Enter => (noted, Some(ActionView::CompleteInput(self.buffer))),
                _ => (
                    HomeView {
                        buffer: input_edited(self.buffer, self.cursor, key).0,
                        cursor: input_edited(self.buffer, self.cursor, key).1,
                        ..noted
                    },
                    Some(ActionView::Update),
                ),
            },
        }
    }

    /// What the playback task `task` is to hand to the queue after its rest:
    /// one step forward, bracketed, as long as playback is on, the task is the
    /// one that playback holds and a word is left to step to; nothing, and
    /// the end of the task, otherwise.
    pub open spec fn emission(self, task: u64) -> Option<Seq<ActionView>> {
        if self.playback.drives(task) && !self.store.at_end() {
            Some(bracket(ActionView::Advance(1)))
        } else {
            None
        }
    }
}

/// A step takes more weight from the queue than it puts back.
pub proof fn lemma_load_requeued(home: HomeView, queue: Seq<ActionView>)
    requires
        queue.len() > 0,
    ensures
        load(requeued(queue, home.step(queue[0]).derived)) < load(queue),
{
    let step = home.step(queue[0]);
    match step.derived {
        Some(action) => {
            lemma_load_push(queue.drop_first(), action);
        },
        None => {},
    }
}

/// Every step keeps the place inside the words and the rate of playback
/// above zero.
pub proof fn lemma_step_keeps_wf(home: HomeView, action: ActionView)
    requires
        home.wf(),
    ensures
        home.step(action).next.wf(),
{
    match action {
        ActionView::TextLoaded(text) => {
            lemma_no_words_iff_blank(text);
        },
        _ => {},
    }
}

/// Every run of steps keeps the place inside the words and the rate of
/// playback above zero.
pub proof fn lemma_run_keeps_wf(home: HomeView, actions: Seq<ActionView>)
    requires
        home.wf(),
    ensures
        home.run(actions).wf(),
    decreases actions.len(),
{
    if actions.len() > 0 {
        lemma_run_keeps_wf(home, actions.drop_last());
        lemma_step_keeps_wf(home.run(actions.drop_last()), actions.last());
    }
}

/// Whatever the action, its step leaves no playback task running but the one
/// that playback then holds, once the order that the step gives is carried
/// out: at most one playback task runs at any time.
pub proof fn lemma_step_keeps_one_task(home: HomeView, action: ActionView, alive: Set<u64>)
    requires
        home.playback.owns(alive),
    ensures
        match home.step(action).effect {
            EffectView::Playback(swap) => home.step(action).next.playback.owns(
                swap.carried_out(alive),
            ),
            _ => home.step(action).next.playback.owns(alive),
        },
{
}

/// Whether the step of `action` only changes the state: it asks for no work
/// and no action follows from it, whatever the state.
pub open spec fn is_quiet(action: ActionView) -> bool {
    match action {
        ActionView::ScheduleAdvance(_, _) => false,
        ActionView::TogglePlayback => false,
        ActionView::LoadText => false,
        ActionView::TextLoaded(_) => false,
        ActionView::CompleteInput(_) => false,
        ActionView::Quit => false,
        _ => true,
    }
}

/// Whether `payload` is one of the actions that the library brackets as work
/// in progress: a move, a text that was read, or the message of a failure.
pub open spec fn is_bracketed_work(payload: ActionView) -> bool {
    payload is Advance || payload is TextLoaded || payload is Error
}

/// A run of actions that ends with `ExitProcessing` ends in `Normal` mode,
/// whatever the state before it and whatever the actions between.
pub proof fn lemma_exit_restores_normal(home: HomeView, actions: Seq<ActionView>)
    requires
        actions.len() > 0,
        actions.last() == ActionView::ExitProcessing,
    ensures
        home.run(actions).mode == Mode::Normal,
{
}

/// Bracketed work is done in `Processing` mode and leaves the reader in
/// `Normal` mode, from whatever state it starts.
pub proof fn lemma_bracket_restores_normal(home: HomeView, payload: ActionView)
    ensures
        home.run(bracket(payload).take(1)).mode == Mode::Processing,
        is_bracketed_work(payload) ==> home.run(bracket(payload).take(2)).mode == Mode::Processing,
        home.run(bracket(payload)).mode == Mode::Normal,
{
    assert(bracket(payload).take(2).drop_last() == bracket(payload).take(1));
}

/// The dispatch loop carries bracketed work through to its end: with the
/// bracket alone on the queue of a running reader, the loop empties the queue
/// without leaving work to the caller and ends in `Normal` mode. A request
/// for work that stood between the bracket's ends would have been passed over.
pub proof fn lemma_bracket_dispatched(home: HomeView, payload: ActionView)
    requires
        home.running,
        is_bracketed_work(payload),
    ensures
        home.dispatched(bracket(payload)).home.mode == Mode::Normal,
        home.dispatched(bracket(payload)).queue.len() == 0,
        home.dispatched(bracket(payload)).effect is Nothing,
        home.step(ActionView::EnterProcessing).next.step(ActionView::LoadText)
            == home.step(ActionView::EnterProcessing).next.quiet(),
{
    reveal_with_fuel(HomeView::dispatched, 6);
}

/// The actions of a run can be taken from the front as well as from the back.
pub proof fn lemma_run_from_front(home: HomeView, actions: Seq<ActionView>)
    requires
        actions.len() > 0,
    ensures
        home.run(actions) == home.step(actions[0]).next.run(actions.drop_first()),
    decreases actions.len(),
{
    let rest = actions.drop_first();
    if rest.len() == 0 {
        assert(home.run(actions.drop_last()) == home);
    } else {
        lemma_run_from_front(home, actions.drop_last());
        assert(actions.drop_last().drop_first() == rest.drop_last());
    }
}

/// The dispatch loop makes the steps in the order of the queue: where every
/// action that waits is quiet, one run of the loop leaves a running reader in
/// the state that the steps of those actions, made one after the other from
/// the front of the queue to its back, lead to, and leaves the queue empty.
pub proof fn lemma_dispatch_in_order(home: HomeView, queue: Seq<ActionView>)
    requires
        home.running,
        forall|i: int| 0 <= i < queue.len() ==> is_quiet(#[trigger] queue[i]),
    ensures
        home.dispatched(queue) == (DispatchView {
            home: home.run(queue),
            queue: Seq::empty(),
            effect: EffectView::Nothing,
        }),
    decreases queue.len(),
{
    if queue.len() == 0 {
        assert(queue == Seq::<ActionView>::empty());
    } else {
        lemma_dispatch_in_order(home.step(queue[0]).next, queue.drop_first());
        lemma_run_from_front(home, queue);
    }
}

/// The move of `amount` words in `direction`, as a signed number.
pub fn signed(direction: Direction, amount: usize) -> (delta: i64)
    ensures
        delta == signed_delta(direction, amount),
{
    let steps: i64 = if amount as u64 > i64::MAX as u64 {
        i64::MAX
    } else {
        amount as i64
    };
    match direction {
        Direction::Forward => steps,
        Direction::Backward => -steps,
    }
}

/// The action `payload` between the two that mark work in progress.
pub fn bracketed(payload: Action) -> (actions: Vec<Action>)
    ensures
        views(actions@) == bracket(payload@),
{
    let mut actions: Vec<Action> = Vec::new();
    actions.push(Action::EnterProcessing);
    actions.push(payload);
    actions.push(Action::ExitProcessing);
    actions
}

/// The reader driven by actions.
#[derive(Debug)]
pub struct Home {
    running: bool,
    show_help: bool,
    app_ticker: usize,
    render_ticker: usize,
    mode: Mode,
    input: Input,
    keymap: Keymap,
    text: Vec<String>,
    last_events: Vec<KeyEvent>,
    store: WordStore,
    playback: PlaybackState,
}

impl View for Home {
    type V = HomeView;

    closed spec fn view(&self) -> HomeView {
        HomeView {
            running: self.running,
            show_help: self.show_help,
            app_ticker: self.app_ticker,
            render_ticker: self.render_ticker,
            mode: self.mode,
            buffer: input_value(self.input),
            cursor: input_cursor(self.input),
            keymap: self.keymap@,
            text: self.text.deep_view(),
            last_events: self.last_events@,
            store: self.store@,
            playback: self.playback@,
        }
    }
}

impl Default for Home {
    fn default() -> (home: Home)
        ensures
            home@ == HomeView::initial(),
    {
        let text: Vec<String> = Vec::new();
        assert(text.deep_view() == Seq::<Seq<char>>::empty());
        Home {
            running: true,
            show_help: false,
            app_ticker: 0,
            render_ticker: 0,
            mode: Mode::Normal,
            input: input_empty(),
            keymap: Keymap::new(),
            text,
            last_events: Vec::new(),
            store: WordStore::new(),
            playback: PlaybackState::new(ReadRate::standard()),
        }
    }
}

impl Home {
    /// The reader as it starts: running, in `Normal` mode, without text,
    /// without bindings, playback off.
    pub fn new() -> (home: Home)
        ensures
            home@ == HomeView::initial(),
    {
        Home::default()
    }

    /// The same reader with `keymap` for its commands.
    pub fn keymap(self, keymap: Keymap) -> (home: Home)
        ensures
            home@ == (HomeView { keymap: keymap@, ..self@ }),
    {
        let mut home = self;
        home.keymap = keymap;
        home
    }

    /// Counts a tick and forgets the keys noted since the last one.
    pub fn tick(&mut self)
        ensures
            final(self)@ == old(self)@.step(ActionView::Tick).next,
    {
        if self.app_ticker < usize::MAX {
            self.app_ticker = self.app_ticker + 1;
        }
        self.last_events.clear();
    }

    /// Counts a rendering.
    pub fn render_tick(&mut self)
        ensures
            final(self)@ == old(self)@.step(ActionView::Render).next,
    {
        if self.render_ticker < usize::MAX {
            self.render_ticker = self.render_ticker + 1;
        }
    }

    /// Keeps the completed line of input `s`.
    pub fn add(&mut self, s: String)
        ensures
            final(self)@ == (HomeView { text: old(self)@.text.push(s@), ..old(self)@ }),
    {
        self.text.push(s);
        assert(self.text.deep_view() =~= old(self).text.deep_view().push(s@));
    }

    /// The actions that report how the reading of the text went, for the
    /// background to hand to the queue: the text, or the message of the
    /// failure, bracketed as work in progress.
    pub fn schedule_text_load(outcome: Result<String, LoadError>) -> (actions: Vec<Action>)
        ensures
            views(actions@) == load_report(
                match outcome {
                    Ok(text) => Ok(text@),
                    Err(e) => Err(e),
                },
            ),
    {
        match outcome {
            Ok(text) => bracketed(Action::TextLoaded(text)),
            Err(e) => {
                let message = chars_of(e.message());
                bracketed(Action::Error(string_of(message.as_slice())))
            },
        }
    }

    /// The actions of a move of `i` words forward, bracketed as work in
    /// progress.
    pub fn schedule_increment_text(i: usize) -> (actions: Vec<Action>)
        ensures
            views(actions@) == bracket(ActionView::Advance(signed_delta(Direction::Forward, i))),
    {
        bracketed(Action::Advance(signed(Direction::Forward, i)))
    }

    /// The actions of a move of `i` words backward, bracketed as work in
    /// progress.
    pub fn schedule_decrement_text(i: usize) -> (actions: Vec<Action>)
        ensures
            views(actions@) == bracket(ActionView::Advance(signed_delta(Direction::Backward, i))),
    {
        bracketed(Action::Advance(signed(Direction::Backward, i)))
    }

    /// Throws the playback switch and returns the order for the tasks.
    pub fn schedule_sread_text(&mut self) -> (swap: Swap)
        ensures
            final(self)@ == (HomeView { playback: old(self)@.playback.toggled().0, ..old(self)@ }),
            swap == old(self)@.playback.toggled().1,
    {
        self.playback.toggle()
    }

    /// Loads the words of `book` and puts the place at the first of them. A
    /// book without a word is refused and leaves the reader as it was.
    pub fn text_load(&mut self, book: &str) -> (r: Result<(), LoadError>)
        ensures
            final(self)@ == (HomeView { store: old(self)@.store.loaded(book@), ..old(self)@ }),
            r == if words_of(book@).len() == 0 {
                Err::<(), LoadError>(LoadError::EmptyCorpus)
            } else {
                Ok::<(), LoadError>(())
            },
    {
        self.store.load(book)
    }

    /// What the playback task `task` is to hand to the queue after its rest;
    /// nothing when the task is to end.
    pub fn sread_text(&self, task: u64) -> (r: Option<Vec<Action>>)
        ensures
            match r {
                Some(actions) => self@.emission(task) == Some(views(actions@)),
                None => self@.emission(task) is None,
            },
    {
        if self.playback.drives(task) && !self.store.at_end() {
            Some(bracketed(Action::Advance(1)))
        } else {
            None
        }
    }

    /// Moves `i` words forward, stopping at the last.
    pub fn increment_text(&mut self, i: usize)
        ensures
            final(self)@ == (HomeView {
                store: old(self)@.store.advanced(signed_delta(Direction::Forward, i) as int),
                ..old(self)@
            }),
    {
        let _ = self.store.advance(signed(Direction::Forward, i));
    }

    /// Moves `i` words backward, stopping at the first.
    pub fn decrement_text(&mut self, i: usize)
        ensures
            final(self)@ == (HomeView {
                store: old(self)@.store.advanced(signed_delta(Direction::Backward, i) as int),
                ..old(self)@
            }),
    {
        let _ = self.store.advance(signed(Direction::Backward, i));
    }

    /// Takes a key press and returns the action that it gives, if any.
    ///
    /// A key that types a character into the line of input puts it where the
    /// cursor is.
    pub fn handle_key_events(&mut self, key: KeyEvent) -> (r: Option<Action>)
        ensures
            (final(self)@, view_of(r)) == old(self)@.keyed(key),
            old(self)@.mode == Mode::Insert && types_char(key) && old(self)@.cursor <= old(
                self,
            )@.buffer.len() ==> {
                &&& final(self)@.buffer == old(self)@.buffer.insert(
                    old(self)@.cursor as int,
                    key.code->Char_0,
                )
                &&& final(self)@.cursor == old(self)@.cursor + 1
            },
    {
        self.last_events.push(key);
        match self.mode {
            Mode::Processing => None,
            Mode::Normal => self.keymap.lookup(key),
            Mode::Insert => match key.code {
                KeyCode::Esc => Some(Action::EnterNormal),
                KeyCode::Enter => Some(Action::CompleteInput(input_text(&self.input))),
                _ => {
                    input_press(&mut self.input, key);
                    Some(Action::Update)
                },
            },
        }
    }

    /// Makes the step of `action` and returns what follows from it.
    pub fn update(&mut self, action: Action) -> (step: Step)
        ensures
            old(self)@.step(action@) == (StepView {
                next: final(self)@,
                derived: view_of(step.derived),
                effect: step.effect@,
            }),
    {
        match action {
            Action::Tick => {
                self.tick();
                Step { derived: None, effect: Effect::Nothing }
            },
            Action::Render => {
                self.render_tick();
                Step { derived: None, effect: Effect::Nothing }
            },
            Action::ToggleShowHelp => {
                self.show_help = !self.show_help;
                Step { derived: None, effect: Effect::Nothing }
            },
            Action::ScheduleAdvance(direction, amount) => {
                if self.mode == Mode::Processing {
                    Step { derived: None, effect: Effect::Nothing }
                } else {
                    let actions = match direction {
                        Direction::Forward => Home::schedule_increment_text(amount),
                        Direction::Backward => Home::schedule_decrement_text(amount),
                    };
                    Step { derived: None, effect: Effect::Emit(actions) }
                }
            },
            Action::Advance(delta) => {
                let _ = self.store.advance(delta);
                Step { derived: None, effect: Effect::Nothing }
            },
            Action::TogglePlayback => {
                let swap = self.schedule_sread_text();
                Step { derived: None, effect: Effect::Playback(swap) }
            },
            Action::LoadText => {
                if self.mode == Mode::Processing {
                    Step { derived: None, effect: Effect::Nothing }
                } else {
                    Step { derived: None, effect: Effect::ReadCorpus }
                }
            },
            Action::TextLoaded(text) => {
                match self.text_load(text.as_str()) {
                    Ok(()) => Step { derived: None, effect: Effect::Nothing },
                    Err(e) => {
                        let message = chars_of(e.message());
                        Step {
                            derived: Some(Action::Error(string_of(message.as_slice()))),
                            effect: Effect::Nothing,
                        }
                    },
                }
            },
            Action::CompleteInput(line) => {
                if self.mode == Mode::Insert {
                    self.add(line);
                    Step { derived: Some(Action::EnterNormal), effect: Effect::Nothing }
                } else {
                    Step { derived: None, effect: Effect::Nothing }
                }
            },
            Action::EnterNormal => {
                self.mode = Mode::Normal;
                Step { derived: None, effect: Effect::Nothing }
            },
            Action::EnterInsert => {
                self.mode = Mode::Insert;
                Step { derived: None, effect: Effect::Nothing }
            },
            Action::EnterProcessing => {
                self.mode = Mode::Processing;
                Step { derived: None, effect: Effect::Nothing }
            },
            Action::ExitProcessing => {
                self.mode = Mode::Normal;
                Step { derived: None, effect: Effect::Nothing }
            },
            Action::Quit => {
                self.running = false;
                let swap = self.playback.stop();
                Step { derived: None, effect: Effect::Playback(swap) }
            },
            Action::Resize(_, _) => Step { derived: None, effect: Effect::Nothing },
            Action::Suspend => Step { derived: None, effect: Effect::Nothing },
            Action::Resume => Step { derived: None, effect: Effect::Nothing },
            Action::Refresh => Step { derived: None, effect: Effect::Nothing },
            Action::Error(_) => Step { derived: None, effect: Effect::Nothing },
            Action::Help => Step { derived: None, effect: Effect::Nothing },
            Action::Update => Step { derived: None, effect: Effect::Nothing },
        }
    }

    /// Runs the dispatch loop over `queue`: takes the actions from its front,
    /// one at a time, makes the step of each and puts the action derived from
    /// it at the back. Returns when the reader has quit, when nothing waits,
    /// or with the work that a step leaves to the caller.
    pub fn dispatch(&mut self, queue: &mut ActionQueue) -> (effect: Effect)
        ensures
            old(self)@.dispatched(old(queue)@) == (DispatchView {
                home: final(self)@,
                queue: final(queue)@,
                effect: effect@,
            }),
    {
        loop
            invariant
                self@.dispatched(queue@) == old(self)@.dispatched(old(queue)@),
            decreases load(queue@),
        {
            if !self.running {
                return Effect::Nothing;
            }
            let ghost before = self@;
            let ghost waiting = queue@;
            let action = match queue.pop() {
                Some(action) => action,
                None => {
                    return Effect::Nothing;
                },
            };
            let step = self.update(action);
            if let Some(derived) = step.derived {
                queue.push(derived);
            }
            proof {
                lemma_load_requeued(before, waiting);
            }
            match step.effect {
                Effect::Nothing => {},
                effect => {
                    return effect;
                },
            }
        }
    }

    /// Whether the reader is still running.
    pub fn running(&self) -> (r: bool)
        ensures
            r == self@.running,
    {
        self.running
    }

    /// Whether the help is shown.
    pub fn show_help(&self) -> (r: bool)
        ensures
            r == self@.show_help,
    {
        self.show_help
    }

    /// How key presses are read at present.
    pub fn mode(&self) -> (mode: Mode)
        ensures
            mode == self@.mode,
    {
        self.mode
    }

    /// The ticks counted so far.
    pub fn app_ticker(&self) -> (n: usize)
        ensures
            n == self@.app_ticker,
    {
        self.app_ticker
    }

    /// The renderings counted so far.
    pub fn render_ticker(&self) -> (n: usize)
        ensures
            n == self@.render_ticker,
    {
        self.render_ticker
    }

    /// The line of input.
    pub fn input(&self) -> (input: &Input)
        ensures
            input_value(*input) == self@.buffer,
            input_cursor(*input) == self@.cursor,
    {
        &self.input
    }

    /// The lines of input that were completed.
    pub fn text(&self) -> (text: &Vec<String>)
        ensures
            text.deep_view() == self@.text,
    {
        &self.text
    }

    /// The keys pressed since the last tick.
    pub fn last_events(&self) -> (keys: &Vec<KeyEvent>)
        ensures
            keys@ == self@.last_events,
    {
        &self.last_events
    }

    /// The words and the place in them.
    pub fn store(&self) -> (store: &WordStore)
        ensures
            store@ == self@.store,
    {
        &self.store
    }

    /// The playback scheduler.
    pub fn playback(&self) -> (playback: &PlaybackState)
        ensures
            playback@ == self@.playback,
    {
        &self.playback
    }
}

} // verus!

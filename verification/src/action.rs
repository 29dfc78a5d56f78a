//! The actions that drive the reader, and how they are written as text.
//!
//! An action without payload is written as its name: `Quit`. An action with a
//! payload is written as its name and the payload in round brackets:
//! `Resize(80, 24)`, `Error(no such file)`, `Advance(-3)`.

use vstd::prelude::*;
use crate::scan::{
    digits_of, has_prefix, is_word, lemma_digits_of, lemma_digits_round_trip,
    lemma_numeral_is_solid, lemma_numeral_round_trip, lemma_split_two, lemma_trimmed_after_space,
    lemma_trimmed_solid, lemma_unwrap, numeral, parse_signed, parse_unsigned, read_signed,
    read_unsigned, split, split_on, starts_with, strip_prefixes, strip_trailing, strip_wrapping,
    trim, trimmed, write_signed, write_unsigned, write_word, NumberError,
};
use crate::text::{chars_of, is_space, string_of};

verus! {

/// The way a move through the words goes.
#[derive(Clone, Copy, Debug, PartialEq, Eq, Structural)]
pub enum Direction {
    Forward,
    Backward,
}

/// An event or a command on its way to the dispatch loop.
#[derive(Debug, PartialEq, Eq)]
pub enum Action {
    Tick,
    Render,
    Resize(u16, u16),
    Suspend,
    Resume,
    Quit,
    Refresh,
    Error(String),
    Help,
    ToggleShowHelp,
    /// Asks for a move by so many words, bracketed as work in progress.
    ScheduleAdvance(Direction, usize),
    /// Moves by so many words: forward if positive, backward if negative.
    Advance(i64),
    TogglePlayback,
    /// Asks for the text to be read and loaded.
    LoadText,
    /// Brings the text that was read.
    TextLoaded(String),
    CompleteInput(String),
    EnterNormal,
    EnterInsert,
    EnterProcessing,
    ExitProcessing,
    Update,
}

/// An action as a value of mathematics: texts are sequences of characters.
pub enum ActionView {
    Tick,
    Render,
    Resize(u16, u16),
    Suspend,
    Resume,
    Quit,
    Refresh,
    Error(Seq<char>),
    Help,
    ToggleShowHelp,
    ScheduleAdvance(Direction, usize),
    Advance(i64),
    TogglePlayback,
    LoadText,
    TextLoaded(Seq<char>),
    CompleteInput(Seq<char>),
    EnterNormal,
    EnterInsert,
    EnterProcessing,
    ExitProcessing,
    Update,
}

impl View for Action {
    type V = ActionView;

    open spec fn view(&self) -> ActionView {
        match *self {
            Action::Tick => ActionView::Tick,
            Action::Render => ActionView::Render,
            Action::Resize(w, h) => ActionView::Resize(w, h),
            Action::Suspend => ActionView::Suspend,
            Action::Resume => ActionView::Resume,
            Action::Quit => ActionView::Quit,
            Action::Refresh => ActionView::Refresh,
            Action::Error(message) => ActionView::Error(message@),
            Action::Help => ActionView::Help,
            Action::ToggleShowHelp => ActionView::ToggleShowHelp,
            Action::ScheduleAdvance(direction, amount) => ActionView::ScheduleAdvance(
                direction,
                amount,
            ),
            Action::Advance(delta) => ActionView::Advance(delta),
            Action::TogglePlayback => ActionView::TogglePlayback,
            Action::LoadText => ActionView::LoadText,
            Action::TextLoaded(text) => ActionView::TextLoaded(text@),
            Action::CompleteInput(text) => ActionView::CompleteInput(text@),
            Action::EnterNormal => ActionView::EnterNormal,
            Action::EnterInsert => ActionView::EnterInsert,
            Action::EnterProcessing => ActionView::EnterProcessing,
            Action::ExitProcessing => ActionView::ExitProcessing,
            Action::Update => ActionView::Update,
        }
    }
}

impl Clone for Action {
    fn clone(&self) -> (r: Action)
        ensures
            r@ == self@,
    {
        match self {
            Action::Tick => Action::Tick,
            Action::Render => Action::Render,
            Action::Resize(w, h) => Action::Resize(*w, *h),
            Action::Suspend => Action::Suspend,
            Action::Resume => Action::Resume,
            Action::Quit => Action::Quit,
            Action::Refresh => Action::Refresh,
            Action::Error(message) => Action::Error(message.clone()),
            Action::Help => Action::Help,
            Action::ToggleShowHelp => Action::ToggleShowHelp,
            Action::ScheduleAdvance(direction, amount) => Action::ScheduleAdvance(
                *direction,
                *amount,
            ),
            Action::Advance(delta) => Action::Advance(*delta),
            Action::TogglePlayback => Action::TogglePlayback,
            Action::LoadText => Action::LoadText,
            Action::TextLoaded(text) => Action::TextLoaded(text.clone()),
            Action::CompleteInput(text) => Action::CompleteInput(text.clone()),
            Action::EnterNormal => Action::EnterNormal,
            Action::EnterInsert => Action::EnterInsert,
            Action::EnterProcessing => Action::EnterProcessing,
            Action::ExitProcessing => Action::ExitProcessing,
            Action::Update => Action::Update,
        }
    }
}

/// The actions of `actions` as values of mathematics, in the same order.
pub open spec fn views(actions: Seq<Action>) -> Seq<ActionView> {
    actions.map_values(|action: Action| action@)
}

/// The action that `action` holds, if any, as a value of mathematics.
pub open spec fn view_of(action: Option<Action>) -> Option<ActionView> {
    match action {
        Some(action) => Some(action@),
        None => None,
    }
}

/// A variant whose payload is made of parts.
#[derive(Clone, Copy, Debug, PartialEq, Eq, Structural)]
pub enum Tag {
    Resize,
    ScheduleAdvance,
}

/// A part of a payload that holds a number.
#[derive(Clone, Copy, Debug, PartialEq, Eq, Structural)]
pub enum Field {
    /// The first part of `Resize`.
    Width,
    /// The second part of `Resize`.
    Height,
    /// The payload of `Advance`.
    Delta,
    /// The second part of `ScheduleAdvance`.
    Amount,
}

/// Why a text is not the written form of an action.
#[derive(Clone, Copy, Debug, PartialEq, Eq, Structural)]
pub enum ActionDecodeError {
    /// The text is no name of a variant and begins with none.
    UnknownVariant,
    /// The payload is not made of two parts with one comma between them.
    PartCount(Tag),
    /// A part does not hold a number of its type.
    Number(Field, NumberError),
    /// The first part of `ScheduleAdvance` is neither `Forward` nor `Backward`.
    Direction,
}

impl ActionView {
    /// Whether the action carries no payload.
    pub open spec fn is_plain(self) -> bool {
        match self {
            ActionView::Resize(_, _) => false,
            ActionView::Error(_) => false,
            ActionView::ScheduleAdvance(_, _) => false,
            ActionView::Advance(_) => false,
            ActionView::TextLoaded(_) => false,
            ActionView::CompleteInput(_) => false,
            _ => true,
        }
    }

    /// The name of the variant.
    pub open spec fn name(self) -> Seq<char> {
        match self {
            ActionView::Tick => "Tick"@,
            ActionView::Render => "Render"@,
            ActionView::Resize(_, _) => "Resize"@,
            ActionView::Suspend => "Suspend"@,
            ActionView::Resume => "Resume"@,
            ActionView::Quit => "Quit"@,
            ActionView::Refresh => "Refresh"@,
            ActionView::Error(_) => "Error"@,
            ActionView::Help => "Help"@,
            ActionView::ToggleShowHelp => "ToggleShowHelp"@,
            ActionView::ScheduleAdvance(_, _) => "ScheduleAdvance"@,
            ActionView::Advance(_) => "Advance"@,
            ActionView::TogglePlayback => "TogglePlayback"@,
            ActionView::LoadText => "LoadText"@,
            ActionView::TextLoaded(_) => "TextLoaded"@,
            ActionView::CompleteInput(_) => "CompleteInput"@,
            ActionView::EnterNormal => "EnterNormal"@,
            ActionView::EnterInsert => "EnterInsert"@,
            ActionView::EnterProcessing => "EnterProcessing"@,
            ActionView::ExitProcessing => "ExitProcessing"@,
            ActionView::Update => "Update"@,
        }
    }

    /// The payload as it is written between the brackets.
    pub open spec fn payload(self) -> Seq<char> {
        match self {
            ActionView::Resize(w, h) => digits_of(w as nat) + ", "@ + digits_of(h as nat),
            ActionView::Error(message) => message,
            ActionView::ScheduleAdvance(direction, amount) => direction_name(direction) + ", "@
                + digits_of(amount as nat),
            ActionView::Advance(delta) => numeral(delta as int),
            ActionView::TextLoaded(text) => text,
            ActionView::CompleteInput(text) => text,
            _ => Seq::empty(),
        }
    }

    /// The written form of the action.
    pub open spec fn encoded(self) -> Seq<char> {
        if self.is_plain() {
            self.name()
        } else {
            self.name() + "("@ + self.payload() + ")"@
        }
    }
}

/// How a direction is written.
pub open spec fn direction_name(direction: Direction) -> Seq<char> {
    match direction {
        Direction::Forward => "Forward"@,
        Direction::Backward => "Backward"@,
    }
}

/// The action without payload whose name is `s`, if there is one.
pub open spec fn plain_named(s: Seq<char>) -> Option<ActionView> {
    if s == "Tick"@ {
        Some(ActionView::Tick)
    } else if s == "Render"@ {
        Some(ActionView::Render)
    } else if s == "Suspend"@ {
        Some(ActionView::Suspend)
    } else if s == "Resume"@ {
        Some(ActionView::Resume)
    } else if s == "Quit"@ {
        Some(ActionView::Quit)
    } else if s == "Refresh"@ {
        Some(ActionView::Refresh)
    } else if s == "Help"@ {
        Some(ActionView::Help)
    } else if s == "ToggleShowHelp"@ {
        Some(ActionView::ToggleShowHelp)
    } else if s == "TogglePlayback"@ {
        Some(ActionView::TogglePlayback)
    } else if s == "LoadText"@ {
        Some(ActionView::LoadText)
    } else if s == "EnterNormal"@ {
        Some(ActionView::EnterNormal)
    } else if s == "EnterInsert"@ {
        Some(ActionView::EnterInsert)
    } else if s == "EnterProcessing"@ {
        Some(ActionView::EnterProcessing)
    } else if s == "ExitProcessing"@ {
        Some(ActionView::ExitProcessing)
    } else if s == "Update"@ {
        Some(ActionView::Update)
    } else {
        None
    }
}

/// What stands between the brackets of `s`, which begins with `open`: `s`
/// without `open`, as often as it stands at the start, and without the closing
/// brackets at the end, however many.
pub open spec fn bracketed(s: Seq<char>, open: Seq<char>) -> Seq<char> {
    strip_trailing(strip_prefixes(s, open), ')')
}

/// The size that the payload `body` of `Resize` writes.
pub open spec fn resize_of(body: Seq<char>) -> Result<ActionView, ActionDecodeError> {
    let parts = split_on(body, ',');
    if parts.len() != 2 {
        Err(ActionDecodeError::PartCount(Tag::Resize))
    } else {
        match parse_unsigned(trimmed(parts[0]), 0xffff) {
            Err(e) => Err(ActionDecodeError::Number(Field::Width, e)),
            Ok(w) => match parse_unsigned(trimmed(parts[1]), 0xffff) {
                Err(e) => Err(ActionDecodeError::Number(Field::Height, e)),
                Ok(h) => Ok(ActionView::Resize(w as u16, h as u16)),
            },
        }
    }
}

/// The move that the payload `body` of `Advance` writes.
pub open spec fn advance_of(body: Seq<char>) -> Result<ActionView, ActionDecodeError> {
    match parse_signed(trimmed(body), 0x8000_0000_0000_0000, 0x7fff_ffff_ffff_ffff) {
        Err(e) => Err(ActionDecodeError::Number(Field::Delta, e)),
        Ok(n) => Ok(ActionView::Advance(n as i64)),
    }
}

/// The direction that `s` names.
pub open spec fn direction_of(s: Seq<char>) -> Option<Direction> {
    if s == "Forward"@ {
        Some(Direction::Forward)
    } else if s == "Backward"@ {
        Some(Direction::Backward)
    } else {
        None
    }
}

/// The request that the payload `body` of `ScheduleAdvance` writes.
pub open spec fn schedule_of(body: Seq<char>) -> Result<ActionView, ActionDecodeError> {
    let parts = split_on(body, ',');
    if parts.len() != 2 {
        Err(ActionDecodeError::PartCount(Tag::ScheduleAdvance))
    } else {
        match direction_of(trimmed(parts[0])) {
            None => Err(ActionDecodeError::Direction),
            Some(direction) => match parse_unsigned(trimmed(parts[1]), usize::MAX as nat) {
                Err(e) => Err(ActionDecodeError::Number(Field::Amount, e)),
                Ok(n) => Ok(ActionView::ScheduleAdvance(direction, n as usize)),
            },
        }
    }
}

/// The action that `s` writes, or why it writes none.
pub open spec fn decoded(s: Seq<char>) -> Result<ActionView, ActionDecodeError> {
    if let Some(action) = plain_named(s) {
        Ok(action)
    } else if has_prefix(s, "Error("@) {
        Ok(ActionView::Error(bracketed(s, "Error("@)))
    } else if has_prefix(s, "Resize("@) {
        resize_of(bracketed(s, "Resize("@))
    } else if has_prefix(s, "CompleteInput("@) {
        Ok(ActionView::CompleteInput(bracketed(s, "CompleteInput("@)))
    } else if has_prefix(s, "TextLoaded("@) {
        Ok(ActionView::TextLoaded(bracketed(s, "TextLoaded("@)))
    } else if has_prefix(s, "Advance("@) {
        advance_of(bracketed(s, "Advance("@))
    } else if has_prefix(s, "ScheduleAdvance("@) {
        schedule_of(bracketed(s, "ScheduleAdvance("@))
    } else {
        Err(ActionDecodeError::UnknownVariant)
    }
}

/// Reading back what was written of an action without payload gives that
/// action.
pub proof fn lemma_plain_round_trip(action: ActionView)
    requires
        action.is_plain(),
    ensures
        decoded(action.encoded()) == Ok::<ActionView, ActionDecodeError>(action),
{
    reveal_strlit("Tick");
    reveal_strlit("Render");
    reveal_strlit("Suspend");
    reveal_strlit("Resume");
    reveal_strlit("Quit");
    reveal_strlit("Refresh");
    reveal_strlit("Help");
    reveal_strlit("ToggleShowHelp");
    reveal_strlit("TogglePlayback");
    reveal_strlit("LoadText");
    reveal_strlit("EnterNormal");
    reveal_strlit("EnterInsert");
    reveal_strlit("EnterProcessing");
    reveal_strlit("ExitProcessing");
    reveal_strlit("Update");
    assert("Tick"@[0] == 'T' && "Quit"@[0] == 'Q' && "Help"@[0] == 'H');
    assert("Render"@[2] == 'n' && "Resume"@[2] == 's' && "Update"@[2] == 'd');
    assert("Suspend"@[0] == 'S' && "Refresh"@[0] == 'R');
    assert("EnterNormal"@[5] == 'N' && "EnterInsert"@[5] == 'I');
    assert("ToggleShowHelp"@[6] == 'S' && "TogglePlayback"@[6] == 'P' && "ExitProcessing"@[6]
        == 'o');
}

/// Whether the text `text` comes back as it is from the brackets of the
/// variant named `name`: it does not end with a closing bracket, and with one
/// behind it, it does not begin with the name and an opening bracket.
pub open spec fn keeps_text(text: Seq<char>, name: Seq<char>) -> bool {
    &&& !has_prefix(text + seq![')'], name + seq!['('])
    &&& (text.len() == 0 || text.last() != ')')
}

impl ActionView {
    /// Whether the action is read back as it was written: every action is,
    /// but one whose text does not come back from its brackets as it is.
    pub open spec fn is_faithful(self) -> bool {
        match self {
            ActionView::Error(message) => keeps_text(message, self.name()),
            ActionView::TextLoaded(text) => keeps_text(text, self.name()),
            ActionView::CompleteInput(text) => keeps_text(text, self.name()),
            _ => true,
        }
    }
}

/// The brackets and the comma, character by character.
proof fn lemma_marks()
    ensures
        "("@ == seq!['('],
        ")"@ == seq![')'],
        ", "@ == seq![',', ' '],
{
    reveal_strlit("(");
    reveal_strlit(")");
    reveal_strlit(", ");
}

/// The names of the variants with payload, followed by the opening bracket.
proof fn lemma_openings()
    ensures
        "Error"@ + seq!['('] == "Error("@,
        "Resize"@ + seq!['('] == "Resize("@,
        "CompleteInput"@ + seq!['('] == "CompleteInput("@,
        "TextLoaded"@ + seq!['('] == "TextLoaded("@,
        "Advance"@ + seq!['('] == "Advance("@,
        "ScheduleAdvance"@ + seq!['('] == "ScheduleAdvance("@,
        "Error("@.len() > 0 && "Error("@[0] == 'E',
        "Resize("@.len() > 0 && "Resize("@[0] == 'R',
        "CompleteInput("@.len() > 0 && "CompleteInput("@[0] == 'C',
        "TextLoaded("@.len() > 0 && "TextLoaded("@[0] == 'T',
        "Advance("@.len() > 0 && "Advance("@[0] == 'A',
        "ScheduleAdvance("@.len() > 0 && "ScheduleAdvance("@[0] == 'S',
{
    reveal_strlit("Error");
    reveal_strlit("Error(");
    assert("Error"@ + seq!['('] =~= "Error("@);
    reveal_strlit("Resize");
    reveal_strlit("Resize(");
    assert("Resize"@ + seq!['('] =~= "Resize("@);
    reveal_strlit("CompleteInput");
    reveal_strlit("CompleteInput(");
    assert("CompleteInput"@ + seq!['('] =~= "CompleteInput("@);
    reveal_strlit("TextLoaded");
    reveal_strlit("TextLoaded(");
    assert("TextLoaded"@ + seq!['('] =~= "TextLoaded("@);
    reveal_strlit("Advance");
    reveal_strlit("Advance(");
    assert("Advance"@ + seq!['('] =~= "Advance("@);
    reveal_strlit("ScheduleAdvance");
    reveal_strlit("ScheduleAdvance(");
    assert("ScheduleAdvance"@ + seq!['('] =~= "ScheduleAdvance("@);
    assert("Error("@[0] == 'E');
    assert("Resize("@[0] == 'R');
    assert("CompleteInput("@[0] == 'C');
    assert("TextLoaded("@[0] == 'T');
    assert("Advance("@[0] == 'A');
    assert("ScheduleAdvance("@[0] == 'S');
}

/// A text with an opening bracket where the name of a variant with payload
/// ends is the name of no action without payload.
proof fn lemma_not_plain(s: Seq<char>, k: int)
    requires
        0 <= k < s.len(),
        s[k] == '(',
        k == 5 || k == 6 || k == 7 || k == 10 || k == 13 || k == 15,
    ensures
        plain_named(s) is None,
{
    reveal_strlit("Tick");
    reveal_strlit("Render");
    reveal_strlit("Suspend");
    reveal_strlit("Resume");
    reveal_strlit("Quit");
    reveal_strlit("Refresh");
    reveal_strlit("Help");
    reveal_strlit("ToggleShowHelp");
    reveal_strlit("TogglePlayback");
    reveal_strlit("LoadText");
    reveal_strlit("EnterNormal");
    reveal_strlit("EnterInsert");
    reveal_strlit("EnterProcessing");
    reveal_strlit("ExitProcessing");
    reveal_strlit("Update");
    if k == 5 {
        assert("Render"@[5] != '(');
        assert("Suspend"@[5] != '(');
        assert("Resume"@[5] != '(');
        assert("Refresh"@[5] != '(');
        assert("ToggleShowHelp"@[5] != '(');
        assert("TogglePlayback"@[5] != '(');
        assert("LoadText"@[5] != '(');
        assert("EnterNormal"@[5] != '(');
        assert("EnterInsert"@[5] != '(');
        assert("EnterProcessing"@[5] != '(');
        assert("ExitProcessing"@[5] != '(');
        assert("Update"@[5] != '(');
    }
    if k == 6 {
        assert("Suspend"@[6] != '(');
        assert("Refresh"@[6] != '(');
        assert("ToggleShowHelp"@[6] != '(');
        assert("TogglePlayback"@[6] != '(');
        assert("LoadText"@[6] != '(');
        assert("EnterNormal"@[6] != '(');
        assert("EnterInsert"@[6] != '(');
        assert("EnterProcessing"@[6] != '(');
        assert("ExitProcessing"@[6] != '(');
    }
    if k == 7 {
        assert("ToggleShowHelp"@[7] != '(');
        assert("TogglePlayback"@[7] != '(');
        assert("LoadText"@[7] != '(');
        assert("EnterNormal"@[7] != '(');
        assert("EnterInsert"@[7] != '(');
        assert("EnterProcessing"@[7] != '(');
        assert("ExitProcessing"@[7] != '(');
    }
    if k == 10 {
        assert("ToggleShowHelp"@[10] != '(');
        assert("TogglePlayback"@[10] != '(');
        assert("EnterNormal"@[10] != '(');
        assert("EnterInsert"@[10] != '(');
        assert("EnterProcessing"@[10] != '(');
        assert("ExitProcessing"@[10] != '(');
    }
    if k == 13 {
        assert("ToggleShowHelp"@[13] != '(');
        assert("TogglePlayback"@[13] != '(');
        assert("EnterProcessing"@[13] != '(');
        assert("ExitProcessing"@[13] != '(');
    }
}

/// A text begins like its prefix.
proof fn lemma_prefix_first(s: Seq<char>, p: Seq<char>)
    requires
        has_prefix(s, p),
        p.len() > 0,
    ensures
        s.len() > 0,
        s[0] == p[0],
{
}

/// A text begins with at most one of the names with an opening bracket.
proof fn lemma_one_opening(s: Seq<char>)
    requires
        s.len() > 0,
    ensures
        s[0] != 'E' ==> !has_prefix(s, "Error("@),
        s[0] != 'R' ==> !has_prefix(s, "Resize("@),
        s[0] != 'C' ==> !has_prefix(s, "CompleteInput("@),
        s[0] != 'T' ==> !has_prefix(s, "TextLoaded("@),
        s[0] != 'A' ==> !has_prefix(s, "Advance("@),
        s[0] != 'S' ==> !has_prefix(s, "ScheduleAdvance("@),
{
    lemma_openings();
    if has_prefix(s, "Error("@) {
        lemma_prefix_first(s, "Error("@);
    }
    if has_prefix(s, "Resize("@) {
        lemma_prefix_first(s, "Resize("@);
    }
    if has_prefix(s, "CompleteInput("@) {
        lemma_prefix_first(s, "CompleteInput("@);
    }
    if has_prefix(s, "TextLoaded("@) {
        lemma_prefix_first(s, "TextLoaded("@);
    }
    if has_prefix(s, "Advance("@) {
        lemma_prefix_first(s, "Advance("@);
    }
    if has_prefix(s, "ScheduleAdvance("@) {
        lemma_prefix_first(s, "ScheduleAdvance("@);
    }
}

/// The name of a direction is read back as that direction; it holds no
/// comma and no separator and begins with a letter of its own.
proof fn lemma_direction_name(direction: Direction)
    ensures
        direction_of(direction_name(direction)) == Some(direction),
        direction_name(direction).len() > 0,
        direction_name(direction)[0] == 'F' || direction_name(direction)[0] == 'B',
        forall|i: int|
            0 <= i < direction_name(direction).len() ==> {
                let c = #[trigger] direction_name(direction)[i];
                c != ',' && !is_space(c)
            },
{
    reveal_strlit("Forward");
    reveal_strlit("Backward");
}

/// What the payload of a written action is unwrapped to, and that the text
/// is read as that of a variant with payload: the common part of reading
/// back.
proof fn lemma_unwrapped(action: ActionView, open: Seq<char>)
    requires
        !action.is_plain(),
        open == action.name() + seq!['('],
        !has_prefix(action.payload() + seq![')'], open),
        action.payload().len() == 0 || action.payload().last() != ')',
    ensures
        action.encoded() == open + action.payload() + seq![')'],
        plain_named(action.encoded()) is None,
        has_prefix(action.encoded(), open),
        bracketed(action.encoded(), open) == action.payload(),
        action.encoded().len() > 0,
        action.encoded()[0] == open[0],
{
    lemma_marks();
    lemma_openings();
    let s = action.encoded();
    let k = action.name().len() as int;
    assert(s == open + action.payload() + seq![')']);
    assert(s[k] == '(');
    reveal_strlit("Resize");
    reveal_strlit("Error");
    reveal_strlit("ScheduleAdvance");
    reveal_strlit("Advance");
    reveal_strlit("TextLoaded");
    reveal_strlit("CompleteInput");
    lemma_not_plain(s, k);
    lemma_unwrap(open, action.payload(), ')');
    lemma_prefix_first(s, open);
}

/// A size is read back as it was written.
proof fn lemma_resize_round_trip(w: u16, h: u16)
    ensures
        decoded(ActionView::Resize(w, h).encoded()) == Ok::<ActionView, ActionDecodeError>(
            ActionView::Resize(w, h),
        ),
{
    let action = ActionView::Resize(w, h);
    let dw = digits_of(w as nat);
    let dh = digits_of(h as nat);
    let payload = action.payload();
    lemma_marks();
    lemma_openings();
    lemma_digits_of(w as nat);
    lemma_digits_of(h as nat);
    let second = seq![' '] + dh;
    assert(payload == dw + seq![','] + second);
    let wrapped = payload + seq![')'];
    if has_prefix(wrapped, "Resize("@) {
        lemma_prefix_first(wrapped, "Resize("@);
    }
    lemma_unwrapped(action, "Resize("@);
    lemma_one_opening(action.encoded());
    assert(forall|i: int| 0 <= i < dw.len() ==> #[trigger] dw[i] != ',');
    assert(forall|i: int| 0 <= i < second.len() ==> #[trigger] second[i] != ',');
    lemma_split_two(dw, second, ',');
    lemma_trimmed_solid(dw);
    lemma_trimmed_after_space(dh);
    lemma_digits_round_trip(w as nat, 0xffff);
    lemma_digits_round_trip(h as nat, 0xffff);
}

/// A move is read back as it was written.
proof fn lemma_advance_round_trip(delta: i64)
    ensures
        decoded(ActionView::Advance(delta).encoded()) == Ok::<ActionView, ActionDecodeError>(
            ActionView::Advance(delta),
        ),
{
    let action = ActionView::Advance(delta);
    let payload = action.payload();
    lemma_marks();
    lemma_openings();
    lemma_numeral_is_solid(delta as int);
    let wrapped = payload + seq![')'];
    if has_prefix(wrapped, "Advance("@) {
        lemma_prefix_first(wrapped, "Advance("@);
    }
    lemma_unwrapped(action, "Advance("@);
    lemma_one_opening(action.encoded());
    lemma_trimmed_solid(payload);
    lemma_numeral_round_trip(delta as int, 0x8000_0000_0000_0000, 0x7fff_ffff_ffff_ffff);
}

/// A request for a move is read back as it was written.
proof fn lemma_schedule_round_trip(direction: Direction, amount: usize)
    ensures
        decoded(ActionView::ScheduleAdvance(direction, amount).encoded()) == Ok::<
            ActionView,
            ActionDecodeError,
        >(ActionView::ScheduleAdvance(direction, amount)),
{
    let action = ActionView::ScheduleAdvance(direction, amount);
    let name = direction_name(direction);
    let digits = digits_of(amount as nat);
    let payload = action.payload();
    lemma_marks();
    lemma_openings();
    lemma_direction_name(direction);
    lemma_digits_of(amount as nat);
    let second = seq![' '] + digits;
    assert(payload == name + seq![','] + second);
    let wrapped = payload + seq![')'];
    if has_prefix(wrapped, "ScheduleAdvance("@) {
        lemma_prefix_first(wrapped, "ScheduleAdvance("@);
    }
    lemma_unwrapped(action, "ScheduleAdvance("@);
    lemma_one_opening(action.encoded());
    assert(forall|i: int| 0 <= i < second.len() ==> #[trigger] second[i] != ',');
    lemma_split_two(name, second, ',');
    lemma_trimmed_solid(name);
    lemma_trimmed_after_space(digits);
    lemma_digits_round_trip(amount as nat, usize::MAX as nat);
}

/// An action with a text is read back as it was written, where the text
/// comes back from the brackets as it is.
proof fn lemma_text_round_trip(action: ActionView)
    requires
        action is Error || action is TextLoaded || action is CompleteInput,
        action.is_faithful(),
    ensures
        decoded(action.encoded()) == Ok::<ActionView, ActionDecodeError>(action),
{
    lemma_openings();
    let open = action.name() + seq!['('];
    lemma_unwrapped(action, open);
    lemma_one_opening(action.encoded());
}

/// Reading back what was written of an action gives that action: of every
/// action without payload, of every action whose payload is made of numbers
/// and directions, and of every action with a text that comes back from the
/// brackets as it is.
pub proof fn lemma_round_trip(action: ActionView)
    requires
        action.is_faithful(),
    ensures
        decoded(action.encoded()) == Ok::<ActionView, ActionDecodeError>(action),
{
    match action {
        ActionView::Resize(w, h) => lemma_resize_round_trip(w, h),
        ActionView::Advance(delta) => lemma_advance_round_trip(delta),
        ActionView::ScheduleAdvance(direction, amount) => lemma_schedule_round_trip(
            direction,
            amount,
        ),
        ActionView::Error(_) => lemma_text_round_trip(action),
        ActionView::TextLoaded(_) => lemma_text_round_trip(action),
        ActionView::CompleteInput(_) => lemma_text_round_trip(action),
        _ => lemma_plain_round_trip(action),
    }
}

/// Why the number is refused, in words.
pub open spec fn number_reason(e: NumberError) -> Seq<char> {
    match e {
        NumberError::Empty => "cannot parse integer from empty string"@,
        NumberError::InvalidDigit => "invalid digit found in string"@,
        NumberError::TooLarge => "number too large to fit in target type"@,
        NumberError::TooSmall => "number too small to fit in target type"@,
    }
}

/// The part of the payload that the field is, in words.
pub open spec fn field_title(field: Field) -> Seq<char> {
    match field {
        Field::Width => "Invalid Resize width: "@,
        Field::Height => "Invalid Resize height: "@,
        Field::Delta => "Invalid Advance amount: "@,
        Field::Amount => "Invalid ScheduleAdvance amount: "@,
    }
}

/// What is said of the text `value` that was refused with `e`: which variant
/// or part could not be read, and the text or the reason.
pub open spec fn described(e: ActionDecodeError, value: Seq<char>) -> Seq<char> {
    match e {
        ActionDecodeError::UnknownVariant => "Unknown Action variant: "@ + value,
        ActionDecodeError::PartCount(Tag::Resize) => "Invalid Resize format: "@ + value,
        ActionDecodeError::PartCount(Tag::ScheduleAdvance) => "Invalid ScheduleAdvance format: "@
            + value,
        ActionDecodeError::Number(field, reason) => field_title(field) + number_reason(reason),
        ActionDecodeError::Direction => "Invalid ScheduleAdvance direction: "@ + value,
    }
}

impl ActionDecodeError {
    /// The message for the reader of a log: what of `value`, the text that
    /// was refused, could not be read.
    pub fn describe(&self, value: &str) -> (message: String)
        ensures
            message@ == described(*self, value@),
    {
        let mut out: Vec<char> = Vec::new();
        match self {
            ActionDecodeError::UnknownVariant => {
                write_word(&mut out, "Unknown Action variant: ");
                write_word(&mut out, value);
            },
            ActionDecodeError::PartCount(Tag::Resize) => {
                write_word(&mut out, "Invalid Resize format: ");
                write_word(&mut out, value);
            },
            ActionDecodeError::PartCount(Tag::ScheduleAdvance) => {
                write_word(&mut out, "Invalid ScheduleAdvance format: ");
                write_word(&mut out, value);
            },
            ActionDecodeError::Number(field, reason) => {
                match field {
                    Field::Width => write_word(&mut out, "Invalid Resize width: "),
                    Field::Height => write_word(&mut out, "Invalid Resize height: "),
                    Field::Delta => write_word(&mut out, "Invalid Advance amount: "),
                    Field::Amount => write_word(&mut out, "Invalid ScheduleAdvance amount: "),
                }
                match reason {
                    NumberError::Empty => write_word(
                        &mut out,
                        "cannot parse integer from empty string",
                    ),
                    NumberError::InvalidDigit => write_word(
                        &mut out,
                        "invalid digit found in string",
                    ),
                    NumberError::TooLarge => write_word(
                        &mut out,
                        "number too large to fit in target type",
                    ),
                    NumberError::TooSmall => write_word(
                        &mut out,
                        "number too small to fit in target type",
                    ),
                }
            },
            ActionDecodeError::Direction => {
                write_word(&mut out, "Invalid ScheduleAdvance direction: ");
                write_word(&mut out, value);
            },
        }
        string_of(out.as_slice())
    }
}

impl Direction {
    /// The name of the direction.
    pub fn name(&self) -> (name: &'static str)
        ensures
            name@ == direction_name(*self),
    {
        match self {
            Direction::Forward => "Forward",
            Direction::Backward => "Backward",
        }
    }
}

/// Writes the characters `v` at the end of `out`.
fn write_chars(out: &mut Vec<char>, v: &Vec<char>)
    ensures
        final(out)@ == old(out)@ + v@,
{
    let mut k: usize = 0;
    while k < v.len()
        invariant
            k <= v.len(),
            out@ == old(out)@ + v@.take(k as int),
        decreases v.len() - k,
    {
        out.push(v[k]);
        k += 1;
    }
}

/// Reads the payload of `Resize`.
fn decode_resize(body: &Vec<char>) -> (r: Result<Action, ActionDecodeError>)
    ensures
        match r {
            Ok(action) => resize_of(body@) == Ok::<ActionView, ActionDecodeError>(action@),
            Err(e) => resize_of(body@) == Err::<ActionView, ActionDecodeError>(e),
        },
{
    let parts = split(body, ',');
    if parts.len() != 2 {
        return Err(ActionDecodeError::PartCount(Tag::Resize));
    }
    let first = trim(&parts[0]);
    let second = trim(&parts[1]);
    let width: u64 = match read_unsigned(&first, 0xffff) {
        Ok(n) => n,
        Err(e) => {
            return Err(ActionDecodeError::Number(Field::Width, e));
        },
    };
    let height: u64 = match read_unsigned(&second, 0xffff) {
        Ok(n) => n,
        Err(e) => {
            return Err(ActionDecodeError::Number(Field::Height, e));
        },
    };
    Ok(Action::Resize(width as u16, height as u16))
}

/// Reads the payload of `Advance`.
fn decode_advance(body: &Vec<char>) -> (r: Result<Action, ActionDecodeError>)
    ensures
        match r {
            Ok(action) => advance_of(body@) == Ok::<ActionView, ActionDecodeError>(action@),
            Err(e) => advance_of(body@) == Err::<ActionView, ActionDecodeError>(e),
        },
{
    let number = trim(body);
    match read_signed(&number) {
        Ok(n) => Ok(Action::Advance(n)),
        Err(e) => Err(ActionDecodeError::Number(Field::Delta, e)),
    }
}

/// Reads the payload of `ScheduleAdvance`.
fn decode_schedule(body: &Vec<char>) -> (r: Result<Action, ActionDecodeError>)
    ensures
        match r {
            Ok(action) => schedule_of(body@) == Ok::<ActionView, ActionDecodeError>(action@),
            Err(e) => schedule_of(body@) == Err::<ActionView, ActionDecodeError>(e),
        },
{
    let parts = split(body, ',');
    if parts.len() != 2 {
        return Err(ActionDecodeError::PartCount(Tag::ScheduleAdvance));
    }
    let first = trim(&parts[0]);
    let second = trim(&parts[1]);
    let direction = if is_word(&first, "Forward") {
        Direction::Forward
    } else if is_word(&first, "Backward") {
        Direction::Backward
    } else {
        return Err(ActionDecodeError::Direction);
    };
    match read_unsigned(&second, usize::MAX as u64) {
        Ok(n) => Ok(Action::ScheduleAdvance(direction, n as usize)),
        Err(e) => Err(ActionDecodeError::Number(Field::Amount, e)),
    }
}

/// Reads the name of an action without payload.
fn decode_plain(chars: &Vec<char>) -> (r: Option<Action>)
    ensures
        match r {
            Some(action) => plain_named(chars@) == Some(action@),
            None => plain_named(chars@) is None,
        },
{
    if is_word(chars, "Tick") {
        Some(Action::Tick)
    } else if is_word(chars, "Render") {
        Some(Action::Render)
    } else if is_word(chars, "Suspend") {
        Some(Action::Suspend)
    } else if is_word(chars, "Resume") {
        Some(Action::Resume)
    } else if is_word(chars, "Quit") {
        Some(Action::Quit)
    } else if is_word(chars, "Refresh") {
        Some(Action::Refresh)
    } else if is_word(chars, "Help") {
        Some(Action::Help)
    } else if is_word(chars, "ToggleShowHelp") {
        Some(Action::ToggleShowHelp)
    } else if is_word(chars, "TogglePlayback") {
        Some(Action::TogglePlayback)
    } else if is_word(chars, "LoadText") {
        Some(Action::LoadText)
    } else if is_word(chars, "EnterNormal") {
        Some(Action::EnterNormal)
    } else if is_word(chars, "EnterInsert") {
        Some(Action::EnterInsert)
    } else if is_word(chars, "EnterProcessing") {
        Some(Action::EnterProcessing)
    } else if is_word(chars, "ExitProcessing") {
        Some(Action::ExitProcessing)
    } else if is_word(chars, "Update") {
        Some(Action::Update)
    } else {
        None
    }
}

impl Action {
    /// The name of the variant.
    pub fn name(&self) -> (name: &'static str)
        ensures
            name@ == self@.name(),
    {
        match self {
            Action::Tick => "Tick",
            Action::Render => "Render",
            Action::Resize(_, _) => "Resize",
            Action::Suspend => "Suspend",
            Action::Resume => "Resume",
            Action::Quit => "Quit",
            Action::Refresh => "Refresh",
            Action::Error(_) => "Error",
            Action::Help => "Help",
            Action::ToggleShowHelp => "ToggleShowHelp",
            Action::ScheduleAdvance(_, _) => "ScheduleAdvance",
            Action::Advance(_) => "Advance",
            Action::TogglePlayback => "TogglePlayback",
            Action::LoadText => "LoadText",
            Action::TextLoaded(_) => "TextLoaded",
            Action::CompleteInput(_) => "CompleteInput",
            Action::EnterNormal => "EnterNormal",
            Action::EnterInsert => "EnterInsert",
            Action::EnterProcessing => "EnterProcessing",
            Action::ExitProcessing => "ExitProcessing",
            Action::Update => "Update",
        }
    }

    /// The written form of the action.
    pub fn encode(&self) -> (text: String)
        ensures
            text@ == self@.encoded(),
    {
        let mut body: Vec<char> = Vec::new();
        let plain: bool = match self {
            Action::Resize(w, h) => {
                write_unsigned(&mut body, *w as u64);
                write_word(&mut body, ", ");
                write_unsigned(&mut body, *h as u64);
                false
            },
            Action::Error(message) => {
                write_word(&mut body, message.as_str());
                false
            },
            Action::ScheduleAdvance(direction, amount) => {
                write_word(&mut body, direction.name());
                write_word(&mut body, ", ");
                write_unsigned(&mut body, *amount as u64);
                false
            },
            Action::Advance(delta) => {
                write_signed(&mut body, *delta);
                false
            },
            Action::TextLoaded(text) => {
                write_word(&mut body, text.as_str());
                false
            },
            Action::CompleteInput(text) => {
                write_word(&mut body, text.as_str());
                false
            },
            _ => true,
        };
        let mut out: Vec<char> = Vec::new();
        write_word(&mut out, self.name());
        if !plain {
            write_word(&mut out, "(");
            write_chars(&mut out, &body);
            write_word(&mut out, ")");
        }
        string_of(out.as_slice())
    }

    /// Reads an action from its written form, or says why `value` is none.
    pub fn decode(value: &str) -> (r: Result<Action, ActionDecodeError>)
        ensures
            match r {
                Ok(action) => decoded(value@) == Ok::<ActionView, ActionDecodeError>(action@),
                Err(e) => decoded(value@) == Err::<ActionView, ActionDecodeError>(e),
            },
    {
        let chars = chars_of(value);
        if let Some(action) = decode_plain(&chars) {
            return Ok(action);
        }
        if starts_with(&chars, "Error(") {
            let body = strip_wrapping(&chars, "Error(", ')');
            Ok(Action::Error(string_of(body.as_slice())))
        } else if starts_with(&chars, "Resize(") {
            let body = strip_wrapping(&chars, "Resize(", ')');
            decode_resize(&body)
        } else if starts_with(&chars, "CompleteInput(") {
            let body = strip_wrapping(&chars, "CompleteInput(", ')');
            Ok(Action::CompleteInput(string_of(body.as_slice())))
        } else if starts_with(&chars, "TextLoaded(") {
            let body = strip_wrapping(&chars, "TextLoaded(", ')');
            Ok(Action::TextLoaded(string_of(body.as_slice())))
        } else if starts_with(&chars, "Advance(") {
            let body = strip_wrapping(&chars, "Advance(", ')');
            decode_advance(&body)
        } else if starts_with(&chars, "ScheduleAdvance(") {
            let body = strip_wrapping(&chars, "ScheduleAdvance(", ')');
            decode_schedule(&body)
        } else {
            Err(ActionDecodeError::UnknownVariant)
        }
    }
}

} // verus!

//! The interface as a state machine: what a key press does to the state,
//! and what the surrounding event loop has to do afterwards.

use vstd::prelude::*;
use crate::app::{field_view, App, AppView, CurrentScreen, Field, FieldView, InputMode};
use crate::list::{list_down, list_up};
use crate::text::{
    drop_last_char, ends_in_multibyte_char, joined, last_byte_splits_char, with_char,
    without_last_byte,
};

verus! {

/// The key of a key event.
#[derive(Debug, Clone, Copy, PartialEq, Eq, Structural)]
pub enum KeyCode {
    Char(char),
    Enter,
    Backspace,
    Esc,
    Tab,
    Up,
    Down,
    /// Any key that the interface does not react to.
    Other,
}

/// Whether a key went down, repeats while held, or went up.
#[derive(Debug, Clone, Copy, PartialEq, Eq, Structural)]
pub enum KeyEventKind {
    Press,
    Repeat,
    Release,
}

/// A key event.
#[derive(Debug, Clone, Copy, PartialEq, Eq, Structural)]
pub struct KeyEvent {
    pub code: KeyCode,
    pub kind: KeyEventKind,
}

/// What the event loop does after a key has been handled.
#[derive(Debug, Clone, Copy, PartialEq, Eq, Structural)]
pub enum Action {
    /// Draw the interface again and wait for the next event.
    Proceed,
    /// Leave the interface; the user confirmed.
    Exit,
    /// Send the scanner the message that begins a memory scan, then report
    /// the outcome with `record_scan_request`.
    SendScanRequest,
    /// Load the list of processes and open the one at this index of it,
    /// with `choose_process`.
    ChooseProcess(usize),
}

/// How the first, input-mode stage of key handling ends.
#[derive(Debug, Clone, Copy, PartialEq, Eq, Structural)]
pub enum InputOutcome {
    /// The key is consumed; the screen stage is skipped.
    Skip,
    /// The screen stage follows.
    Next,
    /// A scan request is to be sent; the screen stage follows.
    SendThenNext,
}

/// Whether typed characters go into a text field.
pub open spec fn is_editing(m: InputMode) -> bool {
    m != InputMode::Normal
}

/// A field after a character is typed: the cursor moves one to the right
/// and the character is appended.
pub open spec fn field_typed(f: FieldView, c: char) -> FieldView {
    ((f.0 + 1) as i32, f.1.push(c))
}

/// A field after a backspace: the cursor moves one to the left, but not
/// below zero, and the last character is removed.
pub open spec fn field_erased(f: FieldView) -> FieldView {
    (if f.0 - 1 < 0 { 0 } else { (f.0 - 1) as i32 }, drop_last_char(f.1))
}

/// Whether editing `f` with the key `code` stays within what the field can
/// hold: the cursor fits in an `i32`, and a backspace removes a whole
/// character.
pub open spec fn field_accepts(f: FieldView, code: KeyCode) -> bool {
    match code {
        KeyCode::Char(_) => f.0 < i32::MAX,
        KeyCode::Backspace => f.0 > i32::MIN && !last_byte_splits_char(f.1),
        _ => true,
    }
}

/// Whether handling `k` in state `s` is defined: the edited field accepts
/// the key (see `field_accepts`).
pub open spec fn key_accepted(s: AppView, k: KeyEvent) -> bool {
    k.kind != KeyEventKind::Press || match s.input_mode {
        InputMode::Normal => true,
        InputMode::EditingQuery => field_accepts(s.query, k.code),
        InputMode::EditingLowerBound => field_accepts(s.bounds.0, k.code),
        InputMode::EditingUpperBound => field_accepts(s.bounds.1, k.code),
    }
}

pub open spec fn with_input_mode(s: AppView, m: InputMode) -> AppView {
    AppView { input_mode: m, ..s }
}

pub open spec fn with_screen(s: AppView, screen: CurrentScreen) -> AppView {
    AppView { current_screen: screen, ..s }
}

/// The first stage of handling a key that is not a release: what the key
/// does in the current input mode.
/// - In normal mode, `s` starts editing the query and `b` the lower bound,
///   both only on the main screen (elsewhere the key is consumed); `t` is
///   consumed; Enter asks for a scan.
/// - While editing the query, pressed characters are typed, Backspace erases
///   and Esc returns to normal mode.
/// - While editing a bound, the same holds for the bound being edited, and
///   Tab switches between the two bounds.
/// Repeated keys do nothing in this stage while editing.
pub open spec fn input_stage(s: AppView, k: KeyEvent) -> (AppView, InputOutcome) {
    match s.input_mode {
        InputMode::Normal => match k.code {
            KeyCode::Char(c) => if c == 's' {
                if s.current_screen != CurrentScreen::Main {
                    (s, InputOutcome::Skip)
                } else {
                    (with_input_mode(s, InputMode::EditingQuery), InputOutcome::Next)
                }
            } else if c == 't' {
                (s, InputOutcome::Skip)
            } else if c == 'b' {
                if s.current_screen != CurrentScreen::Main {
                    (s, InputOutcome::Skip)
                } else {
                    (with_input_mode(s, InputMode::EditingLowerBound), InputOutcome::Next)
                }
            } else {
                (s, InputOutcome::Next)
            },
            KeyCode::Enter => (with_input_mode(s, InputMode::Normal), InputOutcome::SendThenNext),
            _ => (s, InputOutcome::Next),
        },
        InputMode::EditingQuery => if k.kind != KeyEventKind::Press {
            (s, InputOutcome::Next)
        } else {
            match k.code {
                KeyCode::Char(c) => (
                    AppView { query: field_typed(s.query, c), ..s },
                    InputOutcome::Next,
                ),
                KeyCode::Backspace => (
                    AppView { query: field_erased(s.query), ..s },
                    InputOutcome::Next,
                ),
                KeyCode::Esc => (with_input_mode(s, InputMode::Normal), InputOutcome::Next),
                _ => (s, InputOutcome::Next),
            }
        },
        InputMode::EditingUpperBound | InputMode::EditingLowerBound => if k.kind
            != KeyEventKind::Press {
            (s, InputOutcome::Next)
        } else {
            let lower = s.input_mode == InputMode::EditingLowerBound;
            match k.code {
                KeyCode::Esc => (with_input_mode(s, InputMode::Normal), InputOutcome::Next),
                KeyCode::Char(c) => (
                    AppView {
                        bounds: if lower {
                            (field_typed(s.bounds.0, c), s.bounds.1)
                        } else {
                            (s.bounds.0, field_typed(s.bounds.1, c))
                        },
                        ..s
                    },
                    InputOutcome::Next,
                ),
                KeyCode::Backspace => (
                    AppView {
                        bounds: if lower {
                            (field_erased(s.bounds.0), s.bounds.1)
                        } else {
                            (s.bounds.0, field_erased(s.bounds.1))
                        },
                        ..s
                    },
                    InputOutcome::Next,
                ),
                KeyCode::Tab => (
                    with_input_mode(
                        s,
                        if lower {
                            InputMode::EditingUpperBound
                        } else {
                            InputMode::EditingLowerBound
                        },
                    ),
                    InputOutcome::Next,
                ),
                _ => (s, InputOutcome::Next),
            }
        },
    }
}

/// The second stage of handling a key: what it does on the current screen.
/// - Main screen: `q` opens the exit screen and `p` the process list, both
///   only in normal mode (while editing, typing takes priority); `j`/Up and
///   `k`/Down move the selection in the memory view.
/// - Exit screen: `y` or `q` leaves, `c` cancels back to the main screen.
/// - Process list: `q` goes back, `j`/Up and `k`/Down move the selection, `c`
///   opens the selected process (when one is selected).
pub open spec fn screen_stage(s: AppView, k: KeyEvent) -> (AppView, Action) {
    match s.current_screen {
        CurrentScreen::Main => match k.code {
            KeyCode::Char(c) => if c == 'q' {
                if is_editing(s.input_mode) {
                    (s, Action::Proceed)
                } else {
                    (with_screen(s, CurrentScreen::Exiting), Action::Proceed)
                }
            } else if c == 'p' {
                if is_editing(s.input_mode) {
                    (s, Action::Proceed)
                } else {
                    (with_screen(s, CurrentScreen::SelectingProcess), Action::Proceed)
                }
            } else if c == 'j' {
                (AppView { mem_view_list: list_up(s.mem_view_list), ..s }, Action::Proceed)
            } else if c == 'k' {
                (AppView { mem_view_list: list_down(s.mem_view_list), ..s }, Action::Proceed)
            } else {
                (s, Action::Proceed)
            },
            KeyCode::Up => (
                AppView { mem_view_list: list_up(s.mem_view_list), ..s },
                Action::Proceed,
            ),
            KeyCode::Down => (
                AppView { mem_view_list: list_down(s.mem_view_list), ..s },
                Action::Proceed,
            ),
            _ => (s, Action::Proceed),
        },
        CurrentScreen::Exiting => match k.code {
            KeyCode::Char(c) => if c == 'y' || c == 'q' {
                (s, Action::Exit)
            } else if c == 'c' {
                (with_screen(s, CurrentScreen::Main), Action::Proceed)
            } else {
                (s, Action::Proceed)
            },
            _ => (s, Action::Proceed),
        },
        CurrentScreen::SelectingProcess => match k.code {
            KeyCode::Char(c) => if c == 'q' {
                (with_screen(s, CurrentScreen::Main), Action::Proceed)
            } else if c == 'j' {
                (AppView { proc_list: list_up(s.proc_list), ..s }, Action::Proceed)
            } else if c == 'k' {
                (AppView { proc_list: list_down(s.proc_list), ..s }, Action::Proceed)
            } else if c == 'c' {
                match s.proc_list.state.selected {
                    Some(i) => (s, Action::ChooseProcess(i)),
                    None => (s, Action::Proceed),
                }
            } else {
                (s, Action::Proceed)
            },
            KeyCode::Up => (AppView { proc_list: list_up(s.proc_list), ..s }, Action::Proceed),
            KeyCode::Down => (
                AppView { proc_list: list_down(s.proc_list), ..s },
                Action::Proceed,
            ),
            _ => (s, Action::Proceed),
        },
    }
}

/// What handling the key event `k` in state `s` gives: the next state and
/// what the event loop does next. Releases are ignored; otherwise the input
/// stage runs, then, unless it consumed the key, the screen stage.
pub open spec fn key_step(s: AppView, k: KeyEvent) -> (AppView, Action) {
    if k.kind == KeyEventKind::Release {
        (s, Action::Proceed)
    } else {
        let (s1, outcome) = input_stage(s, k);
        match outcome {
            InputOutcome::Skip => (s1, Action::Proceed),
            InputOutcome::Next => screen_stage(s1, k),
            InputOutcome::SendThenNext => (screen_stage(s1, k).0, Action::SendScanRequest),
        }
    }
}

/// The field `f` after the character `c` is typed.
fn typed(f: &Field, c: char) -> (r: Field)
    requires
        f.0 < i32::MAX,
    ensures
        field_view(r) == field_typed(field_view(*f), c),
{
    (f.0 + 1, with_char(&f.1, c))
}

/// The field `f` after a backspace.
fn erased(f: &Field) -> (r: Field)
    requires
        f.0 > i32::MIN,
        !last_byte_splits_char(f.1@),
    ensures
        field_view(r) == field_erased(field_view(*f)),
{
    let cursor = f.0 - 1;
    (if cursor < 0 {
        0
    } else {
        cursor
    }, without_last_byte(&f.1))
}

/// The input stage (see `input_stage`).
fn run_input_stage(app: &mut App, key: KeyEvent) -> (o: InputOutcome)
    requires
        key.kind != KeyEventKind::Release,
        key_accepted(old(app)@, key),
    ensures
        (final(app)@, o) == input_stage(old(app)@, key),
{
    match app.input_mode {
        InputMode::Normal => match key.code {
            KeyCode::Char(c) => {
                if c == 's' {
                    if app.current_screen != CurrentScreen::Main {
                        InputOutcome::Skip
                    } else {
                        app.input_mode = InputMode::EditingQuery;
                        InputOutcome::Next
                    }
                } else if c == 't' {
                    InputOutcome::Skip
                } else if c == 'b' {
                    if app.current_screen != CurrentScreen::Main {
                        InputOutcome::Skip
                    } else {
                        app.input_mode = InputMode::EditingLowerBound;
                        InputOutcome::Next
                    }
                } else {
                    InputOutcome::Next
                }
            },
            KeyCode::Enter => {
                app.input_mode = InputMode::Normal;
                InputOutcome::SendThenNext
            },
            _ => InputOutcome::Next,
        },
        InputMode::EditingQuery => {
            if key.kind != KeyEventKind::Press {
                return InputOutcome::Next;
            }
            match key.code {
                KeyCode::Char(c) => {
                    app.query = typed(&app.query, c);
                },
                KeyCode::Backspace => {
                    app.query = erased(&app.query);
                },
                KeyCode::Esc => {
                    app.input_mode = InputMode::Normal;
                },
                _ => {},
            }
            InputOutcome::Next
        },
        InputMode::EditingUpperBound | InputMode::EditingLowerBound => {
            if key.kind != KeyEventKind::Press {
                return InputOutcome::Next;
            }
            let lower = app.input_mode == InputMode::EditingLowerBound;
            match key.code {
                KeyCode::Esc => {
                    app.input_mode = InputMode::Normal;
                },
                KeyCode::Char(c) => {
                    if lower {
                        app.bounds.0 = typed(&app.bounds.0, c);
                    } else {
                        app.bounds.1 = typed(&app.bounds.1, c);
                    }
                },
                KeyCode::Backspace => {
                    if lower {
                        app.bounds.0 = erased(&app.bounds.0);
                    } else {
                        app.bounds.1 = erased(&app.bounds.1);
                    }
                },
                KeyCode::Tab => {
                    app.input_mode =
                        if lower {
                            InputMode::EditingUpperBound
                        } else {
                            InputMode::EditingLowerBound
                        };
                },
                _ => {},
            }
            InputOutcome::Next
        },
    }
}

/// The screen stage (see `screen_stage`).
fn run_screen_stage(app: &mut App, key: KeyEvent) -> (a: Action)
    ensures
        (final(app)@, a) == screen_stage(old(app)@, key),
{
    match app.current_screen {
        CurrentScreen::Main => match key.code {
            KeyCode::Char(c) => {
                if c == 'q' {
                    if app.input_mode != InputMode::Normal {
                        return Action::Proceed;
                    }
                    app.current_screen = CurrentScreen::Exiting;
                } else if c == 'p' {
                    if app.input_mode != InputMode::Normal {
                        return Action::Proceed;
                    }
                    app.current_screen = CurrentScreen::SelectingProcess;
                } else if c == 'j' {
                    app.mem_view_list.state.select_previous();
                } else if c == 'k' {
                    app.mem_view_list.state.select_next();
                }
                Action::Proceed
            },
            KeyCode::Up => {
                app.mem_view_list.state.select_previous();
                Action::Proceed
            },
            KeyCode::Down => {
                app.mem_view_list.state.select_next();
                Action::Proceed
            },
            _ => Action::Proceed,
        },
        CurrentScreen::Exiting => match key.code {
            KeyCode::Char(c) => {
                if c == 'y' || c == 'q' {
                    return Action::Exit;
                } else if c == 'c' {
                    app.current_screen = CurrentScreen::Main;
                }
                Action::Proceed
            },
            _ => Action::Proceed,
        },
        CurrentScreen::SelectingProcess => match key.code {
            KeyCode::Char(c) => {
                if c == 'q' {
                    app.current_screen = CurrentScreen::Main;
                } else if c == 'j' {
                    app.proc_list.state.select_previous();
                } else if c == 'k' {
                    app.proc_list.state.select_next();
                } else if c == 'c' {
                    match app.proc_list.state.selected() {
                        Some(i) => {
                            return Action::ChooseProcess(i);
                        },
                        None => {},
                    }
                }
                Action::Proceed
            },
            KeyCode::Up => {
                app.proc_list.state.select_previous();
                Action::Proceed
            },
            KeyCode::Down => {
                app.proc_list.state.select_next();
                Action::Proceed
            },
            _ => Action::Proceed,
        },
    }
}

/// Handles one key event: updates the state and says what the event loop
/// does next (see `key_step`).
pub fn handle_key(app: &mut App, key: KeyEvent) -> (a: Action)
    requires
        key_accepted(old(app)@, key),
    ensures
        (final(app)@, a) == key_step(old(app)@, key),
{
    if key.kind == KeyEventKind::Release {
        return Action::Proceed;
    }
    let outcome = run_input_stage(app, key);
    match outcome {
        InputOutcome::Skip => Action::Proceed,
        InputOutcome::Next => run_screen_stage(app, key),
        InputOutcome::SendThenNext => {
            run_screen_stage(app, key);
            Action::SendScanRequest
        },
    }
}

/// Whether editing `f` with the key `code` is defined (see `field_accepts`).
fn field_accepts_key(f: &Field, code: KeyCode) -> (r: bool)
    ensures
        r == field_accepts(field_view(*f), code),
{
    match code {
        KeyCode::Char(_) => f.0 < i32::MAX,
        KeyCode::Backspace => f.0 > i32::MIN && !ends_in_multibyte_char(&f.1),
        _ => true,
    }
}

/// Whether `handle_key` is defined for this key in this state (see
/// `key_accepted`). Where it is not, the edit would overflow the cursor or
/// cut a character in two.
pub fn key_is_accepted(app: &App, key: KeyEvent) -> (r: bool)
    ensures
        r == key_accepted(app@, key),
{
    if key.kind != KeyEventKind::Press {
        return true;
    }
    match app.input_mode {
        InputMode::Normal => true,
        InputMode::EditingQuery => field_accepts_key(&app.query, key.code),
        InputMode::EditingLowerBound => field_accepts_key(&app.bounds.0, key.code),
        InputMode::EditingUpperBound => field_accepts_key(&app.bounds.1, key.code),
    }
}

/// The progress message after an attempt to send the scan request: a
/// confirmation when it was sent, else the reason it could not be.
pub open spec fn scan_request_message(sent: Result<(), Seq<char>>) -> Seq<char> {
    match sent {
        Ok(_) => "Beginning memory scan..."@,
        Err(reason) => "Error sending data: "@ + reason,
    }
}

/// The outcome of sending a scan request as plain values.
pub open spec fn send_outcome_view(sent: Result<(), String>) -> Result<(), Seq<char>> {
    match sent {
        Ok(_) => Ok(()),
        Err(reason) => Err(reason@),
    }
}

/// Reports in the progress message whether the scan request was sent
/// (`Err` carries the reason it was not).
pub fn record_scan_request(app: &mut App, sent: Result<(), String>)
    ensures
        final(app)@ == (AppView {
            progress_msg: scan_request_message(send_outcome_view(sent)),
            ..old(app)@
        }),
{
    match sent {
        Ok(_) => {
            app.progress_msg = String::from_str("Beginning memory scan...");
        },
        Err(reason) => {
            app.progress_msg = joined("Error sending data: ", reason.as_str());
        },
    }
}

/// Opens the process at `index` of the process list, given the process
/// identifiers in the order of the list, and returns to the main screen.
/// The identifier is kept as an `i32`, reinterpreting its bits.
pub fn choose_process(app: &mut App, pids: &Vec<u32>, index: usize)
    requires
        index < pids@.len(),
    ensures
        final(app)@ == (AppView {
            open_process: pids@[index as int] as i32,
            current_screen: CurrentScreen::Main,
            ..old(app)@
        }),
{
    app.open_process = pids[index] as i32;
    app.current_screen = CurrentScreen::Main;
}

} // verus!

//! Properties of the interface that hold across states and sequences of
//! key events.

use vstd::prelude::*;
use crate::app::{initial_app, list_after_action, AppView, CurrentScreen, FieldView, InputMode, ScanTypes};
use crate::keys::{
    is_editing, key_accepted, key_step, with_input_mode, Action, KeyCode, KeyEvent,
    KeyEventKind,
};
use crate::list::{next_index, previous_index, state_after_select, ListState, VListView};
use crate::mem_view::{first_position, is_first_position, shade_at};
use crate::text::is_one_byte_char;

verus! {

/// The cursors of all text fields are at position zero or to its right.
pub open spec fn cursors_nonnegative(s: AppView) -> bool {
    &&& s.query.0 >= 0
    &&& s.bounds.0.0 >= 0
    &&& s.bounds.1.0 >= 0
}

/// The field that typed characters go into while editing.
pub open spec fn edited_field(s: AppView) -> FieldView {
    match s.input_mode {
        InputMode::EditingLowerBound => s.bounds.0,
        InputMode::EditingUpperBound => s.bounds.1,
        _ => s.query,
    }
}

pub open spec fn press(code: KeyCode) -> KeyEvent {
    KeyEvent { code, kind: KeyEventKind::Press }
}

/// Key releases change nothing.
pub proof fn release_is_ignored(s: AppView, k: KeyEvent)
    requires
        k.kind == KeyEventKind::Release,
    ensures
        key_step(s, k) == (s, Action::Proceed),
{
}

/// Editing takes priority: while a field is being edited on the main
/// screen, no key leaves the main screen or asks the event loop for
/// anything.
pub proof fn editing_keeps_main_screen(s: AppView, k: KeyEvent)
    requires
        is_editing(s.input_mode),
        s.current_screen == CurrentScreen::Main,
    ensures
        key_step(s, k).0.current_screen == CurrentScreen::Main,
        key_step(s, k).1 == Action::Proceed,
{
}

/// The interface is left only from the exit screen, by `y` or `q`.
pub proof fn exit_only_when_confirmed(s: AppView, k: KeyEvent)
    ensures
        key_step(s, k).1 == Action::Exit <==> (s.current_screen == CurrentScreen::Exiting
            && k.kind != KeyEventKind::Release && (k.code == KeyCode::Char('y') || k.code
            == KeyCode::Char('q'))),
{
}

/// A scan request is asked for exactly when Enter goes down or repeats in
/// normal mode; the state is left as it is.
pub proof fn enter_requests_scan(s: AppView, k: KeyEvent)
    ensures
        key_step(s, k).1 == Action::SendScanRequest <==> (s.input_mode == InputMode::Normal
            && k.code == KeyCode::Enter && k.kind != KeyEventKind::Release),
        key_step(s, k).1 == Action::SendScanRequest ==> key_step(s, k).0 == s,
{
}

/// A process is opened only from the process list, by `c`, and it is the
/// selected one; the screen, the lists and the open process are left as they
/// are until the process list has been read.
pub proof fn process_choice_is_the_selection(s: AppView, k: KeyEvent, i: usize)
    ensures
        key_step(s, k).1 == Action::ChooseProcess(i) <==> (s.current_screen
            == CurrentScreen::SelectingProcess && k.code == KeyCode::Char('c') && k.kind
            != KeyEventKind::Release && s.proc_list.state.selected == Some(i)),
        key_step(s, k).1 == Action::ChooseProcess(i) ==> ({
            let t = key_step(s, k).0;
            &&& t.current_screen == s.current_screen
            &&& t.proc_list == s.proc_list
            &&& t.mem_view_list == s.mem_view_list
            &&& t.open_process == s.open_process
        }),
{
}

/// Cursors never move left of the first position: the interface starts with
/// cursors at or right of it, and every key keeps them there.
pub proof fn cursors_stay_nonnegative(s: AppView, k: KeyEvent)
    requires
        cursors_nonnegative(s),
        key_accepted(s, k),
    ensures
        cursors_nonnegative(initial_app()),
        cursors_nonnegative(key_step(s, k).0),
{
}

/// Esc, pressed while editing, returns to normal mode and changes nothing
/// else.
pub proof fn escape_stops_editing(s: AppView)
    requires
        is_editing(s.input_mode),
    ensures
        key_step(s, press(KeyCode::Esc)) == (with_input_mode(s, InputMode::Normal), Action::Proceed),
{
}

/// Tab switches between editing the lower and the upper bound; pressed
/// twice, it restores the state.
pub proof fn tab_switches_bounds(s: AppView)
    requires
        s.input_mode == InputMode::EditingLowerBound || s.input_mode
            == InputMode::EditingUpperBound,
    ensures
        key_step(s, press(KeyCode::Tab)).0.input_mode != s.input_mode,
        key_step(key_step(s, press(KeyCode::Tab)).0, press(KeyCode::Tab)) == (
            s,
            Action::Proceed,
        ),
{
}

/// Backspace undoes typing: pressing a single-byte character and then
/// Backspace while editing leaves the edited field as it was.
pub proof fn backspace_undoes_typing(s: AppView, c: char)
    requires
        is_editing(s.input_mode),
        is_one_byte_char(c),
        0 <= edited_field(s).0 < i32::MAX,
    ensures
        key_accepted(s, press(KeyCode::Char(c))),
        key_accepted(key_step(s, press(KeyCode::Char(c))).0, press(KeyCode::Backspace)),
        key_step(key_step(s, press(KeyCode::Char(c))).0, press(KeyCode::Backspace)).0.input_mode
            == s.input_mode,
        edited_field(key_step(key_step(s, press(KeyCode::Char(c))).0, press(KeyCode::Backspace)).0)
            == edited_field(s),
{
    let s1 = key_step(s, press(KeyCode::Char(c))).0;
    assert(edited_field(s1).1.drop_last() =~= edited_field(s).1);
}

/// Moving the selection down and then up returns to the selected line,
/// unless the selection is at the largest index.
pub proof fn down_then_up_restores_selection(st: ListState, i: usize)
    requires
        st.selected == Some(i),
        i < usize::MAX,
    ensures
        ({
            let down = state_after_select(st, Some(next_index(st.selected)));
            state_after_select(down, Some(previous_index(down.selected))) == st
        }),
{
}

/// Moving the selection up and then down returns to the selected line,
/// unless the first line is selected.
pub proof fn up_then_down_restores_selection(st: ListState, i: usize)
    requires
        st.selected == Some(i),
        i > 0,
    ensures
        ({
            let up = state_after_select(st, Some(previous_index(st.selected)));
            state_after_select(up, Some(next_index(up.selected))) == st
        }),
{
}

/// When the shown results are all different, the shades of their lines
/// alternate, starting with the dark one.
pub proof fn distinct_results_alternate_shades(shown: Seq<Seq<char>>, i: int)
    requires
        0 <= i < shown.len(),
        forall|j: int, k: int| 0 <= j < k < shown.len() ==> shown[j] != shown[k],
    ensures
        shade_at(first_position(shown, i)) == shade_at(i),
{
    assert(is_first_position(shown, shown[i], i));
    let j = first_position(shown, i);
    assert(is_first_position(shown, shown[i], j));
    if j < i {
        assert(shown[j] != shown[i]);
    }
}

/// Equal results share the shade of their first occurrence.
pub proof fn equal_results_share_shade(shown: Seq<Seq<char>>, i: int, k: int)
    requires
        0 <= i < shown.len(),
        0 <= k < shown.len(),
        shown[i] == shown[k],
    ensures
        first_position(shown, i) == first_position(shown, k),
{
}

/// Fields are edited only on the main screen: this holds when the interface
/// starts, after every key, and after a process is opened.
pub open spec fn editing_only_on_main(s: AppView) -> bool {
    is_editing(s.input_mode) ==> s.current_screen == CurrentScreen::Main
}

/// Fields are edited only on the main screen (see `editing_only_on_main`).
pub proof fn editing_stays_on_main_screen(s: AppView, k: KeyEvent, pid: i32)
    requires
        editing_only_on_main(s),
    ensures
        editing_only_on_main(initial_app()),
        editing_only_on_main(key_step(s, k).0),
        editing_only_on_main(
            AppView { open_process: pid, current_screen: CurrentScreen::Main, ..s },
        ),
{
}

/// What a setter writes, the matching getter reads back, and the other
/// fields keep what they held.
pub proof fn read_after_write(
    s: AppView,
    process: i32,
    screen: CurrentScreen,
    query: FieldView,
    bounds: (FieldView, FieldView),
    results: Seq<(Seq<char>, Seq<char>)>,
    msg: Seq<char>,
    mode: InputMode,
    scan_type: ScanTypes,
)
    ensures
        (AppView { open_process: process, ..s }).open_process == process,
        (AppView { current_screen: screen, ..s }).current_screen == screen,
        (AppView { query: query, ..s }).query == query,
        (AppView { query: query, ..s }).bounds == s.bounds,
        (AppView { bounds: bounds, ..s }).bounds == bounds,
        (AppView { bounds: bounds, ..s }).query == s.query,
        (AppView { query_results: results, ..s }).query_results == results,
        (AppView { progress_msg: msg, ..s }).progress_msg == msg,
        (AppView { input_mode: mode, ..s }).input_mode == mode,
        (AppView { scan_type: scan_type, ..s }).scan_type == scan_type,
        (AppView { scan_type: scan_type, ..s }).input_mode == s.input_mode,
{
}

/// The selection one line up: the line before the selected one (the first
/// line stays selected), or the largest index when nothing is selected.
pub open spec fn line_above(selected: Option<usize>) -> Option<usize> {
    match selected {
        None => Some(usize::MAX),
        Some(i) => Some(if i >= 1 { (i - 1) as usize } else { 0 }),
    }
}

/// The selection one line down: the line after the selected one (the
/// largest index stays selected), or the first line when nothing is
/// selected.
pub open spec fn line_below(selected: Option<usize>) -> Option<usize> {
    match selected {
        None => Some(0),
        Some(i) => Some(if i < usize::MAX { (i + 1) as usize } else { i }),
    }
}

/// Of the three text fields, a key changes at most the one being edited:
/// no key changes a field in normal mode, and editing one bound leaves the
/// query and the other bound as they are.
pub proof fn only_the_edited_field_changes(s: AppView, k: KeyEvent)
    ensures
        s.input_mode != InputMode::EditingQuery ==> key_step(s, k).0.query == s.query,
        s.input_mode != InputMode::EditingLowerBound ==> key_step(s, k).0.bounds.0
            == s.bounds.0,
        s.input_mode != InputMode::EditingUpperBound ==> key_step(s, k).0.bounds.1
            == s.bounds.1,
{
}

/// Typing a character while editing appends it to the edited field and
/// moves its cursor one to the right, staying in the same mode.
pub proof fn typing_appends_to_the_edited_field(s: AppView, c: char)
    requires
        is_editing(s.input_mode),
        key_accepted(s, press(KeyCode::Char(c))),
    ensures
        key_step(s, press(KeyCode::Char(c))).0.input_mode == s.input_mode,
        edited_field(key_step(s, press(KeyCode::Char(c))).0).1 == edited_field(s).1.push(c),
        edited_field(key_step(s, press(KeyCode::Char(c))).0).0 == edited_field(s).0 + 1,
{
}

/// Backspace while editing removes the last character of the edited field
/// (an empty field stays empty) and moves its cursor one to the left, not
/// below zero, staying in the same mode.
pub proof fn backspace_erases_the_last_character(s: AppView)
    requires
        is_editing(s.input_mode),
        key_accepted(s, press(KeyCode::Backspace)),
    ensures
        ({
            let t = key_step(s, press(KeyCode::Backspace)).0;
            let before = edited_field(s);
            &&& t.input_mode == s.input_mode
            &&& edited_field(t).1 == if before.1.len() == 0 {
                before.1
            } else {
                before.1.subrange(0, before.1.len() - 1)
            }
            &&& edited_field(t).0 == if before.0 >= 1 {
                before.0 - 1
            } else {
                0
            }
        }),
{
    let before = edited_field(s);
    if before.1.len() > 0 {
        assert(before.1.drop_last() =~= before.1.subrange(0, before.1.len() - 1));
    }
}

/// In normal mode on the main screen, `s` starts editing the query and `b`
/// the lower bound, changing nothing else; on other screens they change
/// nothing at all.
pub proof fn starting_to_edit_changes_only_the_mode(s: AppView)
    requires
        s.input_mode == InputMode::Normal,
    ensures
        s.current_screen == CurrentScreen::Main ==> key_step(s, press(KeyCode::Char('s')))
            == (AppView { input_mode: InputMode::EditingQuery, ..s }, Action::Proceed),
        s.current_screen == CurrentScreen::Main ==> key_step(s, press(KeyCode::Char('b')))
            == (AppView { input_mode: InputMode::EditingLowerBound, ..s }, Action::Proceed),
        s.current_screen != CurrentScreen::Main ==> key_step(s, press(KeyCode::Char('s')))
            == (s, Action::Proceed),
        s.current_screen != CurrentScreen::Main ==> key_step(s, press(KeyCode::Char('b')))
            == (s, Action::Proceed),
{
}

/// Whether `k` is one of the keys that move a selection up (`j`, Up).
pub open spec fn is_up_key(k: KeyEvent) -> bool {
    k.kind != KeyEventKind::Release && (k.code == KeyCode::Char('j') || k.code == KeyCode::Up)
}

/// Whether `k` is one of the keys that move a selection down (`k`, Down).
pub open spec fn is_down_key(k: KeyEvent) -> bool {
    k.kind != KeyEventKind::Release && (k.code == KeyCode::Char('k') || k.code == KeyCode::Down)
}

/// On the process list, `j` and Up select the line above and `k` and Down
/// the line below; the lines, the scroll offset, the screen and the memory
/// view stay as they are.
pub proof fn process_list_selection_moves(s: AppView, k: KeyEvent)
    requires
        s.current_screen == CurrentScreen::SelectingProcess,
        is_up_key(k) || is_down_key(k),
    ensures
        ({
            let t = key_step(s, k).0;
            &&& is_up_key(k) ==> t.proc_list.state.selected == line_above(
                s.proc_list.state.selected,
            )
            &&& is_down_key(k) ==> t.proc_list.state.selected == line_below(
                s.proc_list.state.selected,
            )
            &&& t.proc_list.state.offset == s.proc_list.state.offset
            &&& t.proc_list.list == s.proc_list.list
            &&& t.mem_view_list == s.mem_view_list
            &&& t.current_screen == s.current_screen
            &&& key_step(s, k).1 == Action::Proceed
        }),
{
}

/// On the main screen, `j` and Up select the line above in the memory view
/// and `k` and Down the line below; its lines, its scroll offset, the screen
/// and the process list stay as they are.
pub proof fn memory_view_selection_moves(s: AppView, k: KeyEvent)
    requires
        s.current_screen == CurrentScreen::Main,
        is_up_key(k) || is_down_key(k),
    ensures
        ({
            let t = key_step(s, k).0;
            &&& is_up_key(k) ==> t.mem_view_list.state.selected == line_above(
                s.mem_view_list.state.selected,
            )
            &&& is_down_key(k) ==> t.mem_view_list.state.selected == line_below(
                s.mem_view_list.state.selected,
            )
            &&& t.mem_view_list.state.offset == s.mem_view_list.state.offset
            &&& t.mem_view_list.list == s.mem_view_list.list
            &&& t.proc_list == s.proc_list
            &&& t.current_screen == s.current_screen
            &&& key_step(s, k).1 == Action::Proceed
        }),
{
}

/// Down then Up, on the main screen, returns the memory view to the line
/// that was selected, unless it was at the largest index; likewise `k` then
/// `j` on the process list.
pub proof fn down_then_up_returns(s: AppView, i: usize)
    requires
        i < usize::MAX,
    ensures
        (s.current_screen == CurrentScreen::Main && s.mem_view_list.state.selected == Some(i))
            ==> key_step(key_step(s, press(KeyCode::Down)).0, press(KeyCode::Up)).0.mem_view_list
            == s.mem_view_list,
        (s.current_screen == CurrentScreen::SelectingProcess && s.input_mode
            == InputMode::Normal && s.proc_list.state.selected == Some(i)) ==> key_step(
            key_step(s, press(KeyCode::Char('k'))).0,
            press(KeyCode::Char('j')),
        ).0.proc_list == s.proc_list,
{
}

/// A list action: "prev" selects the line above and "next" the line below,
/// keeping the lines and the offset; "set" replaces the lines and keeps the
/// selection and the offset; any other action changes nothing.
pub proof fn list_actions_do_what_they_name(
    v: VListView,
    action: Seq<char>,
    lines: Seq<Seq<char>>,
)
    ensures
        list_after_action(v, "prev"@, None).state.selected == line_above(v.state.selected),
        list_after_action(v, "prev"@, None).state.offset == v.state.offset,
        list_after_action(v, "prev"@, None).list == v.list,
        list_after_action(v, "next"@, None).state.selected == line_below(v.state.selected),
        list_after_action(v, "next"@, None).state.offset == v.state.offset,
        list_after_action(v, "next"@, None).list == v.list,
        list_after_action(v, "set"@, Some(lines)).list == lines,
        list_after_action(v, "set"@, Some(lines)).state == v.state,
        (action != "prev"@ && action != "next"@ && action != "set"@) ==> list_after_action(
            v,
            action,
            Some(lines),
        ) == v,
{
    reveal_strlit("prev");
    reveal_strlit("next");
    reveal_strlit("set");
    assert("set"@.len() == 3 && "prev"@.len() == 4 && "next"@.len() == 4);
    assert("prev"@[0] != "next"@[0]);
}

} // verus!

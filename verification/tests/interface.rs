use memscan::app::{App, CurrentScreen, DataType, InputMode, ScanTypes, begin_scan_message};
use memscan::keys::{
    choose_process, handle_key, key_is_accepted, record_scan_request, Action, KeyCode, KeyEvent,
    KeyEventKind,
};
use memscan::list::{ListState, VList};

fn press(code: KeyCode) -> KeyEvent {
    KeyEvent { code, kind: KeyEventKind::Press }
}

fn key(app: &mut App, code: KeyCode) -> Action {
    assert!(key_is_accepted(app, press(code)));
    handle_key(app, press(code))
}

fn typed(app: &mut App, text: &str) {
    for c in text.chars() {
        key(app, KeyCode::Char(c));
    }
}

#[test]
fn scan_type_labels() {
    assert_eq!(ScanTypes::Exact.as_str(), "Exact");
    assert_eq!(ScanTypes::Range.as_str(), "Range");
    assert_eq!(ScanTypes::Unknown.as_str(), "Unknown");
}

#[test]
fn defaults_are_the_first_variants() {
    assert_eq!(CurrentScreen::default(), CurrentScreen::Main);
    assert_eq!(InputMode::default(), InputMode::Normal);
    assert_eq!(ScanTypes::default(), ScanTypes::Exact);
}

#[test]
fn begin_scan_message_is_empty() {
    let d = begin_scan_message();
    assert_eq!(d.data_type, DataType::BeginMemoryScan);
    assert_eq!(d.data, "");
}

#[test]
fn new_app_starts_on_main_screen() {
    let app = App::new();
    assert_eq!(app.open_process, 0);
    assert_eq!(app.current_screen, CurrentScreen::Main);
    assert_eq!(app.input_mode, InputMode::Normal);
    assert_eq!(app.scan_type, ScanTypes::Exact);
    assert_eq!(app.query, (0, String::new()));
    assert_eq!(app.bounds.0, (18, String::from("0000000000000000")));
    assert_eq!(app.bounds.1, (16, String::from("00007fffffffffff")));
    assert!(app.query_results.is_empty());
    assert_eq!(app.progress_msg, "Query not started...");
    assert_eq!(app.proc_list.state.selected(), Some(0));
    assert_eq!(app.mem_view_list.state.selected(), Some(0));
    assert!(app.proc_list.list.is_empty());
}

#[test]
fn setters_and_getters_round_trip() {
    let mut app = App::new();
    app.modify_process(4242);
    assert_eq!(app.get_process(), 4242);
    app.modify_current_screen(CurrentScreen::SelectingProcess);
    assert_eq!(app.get_current_screen(), CurrentScreen::SelectingProcess);
    app.modify_query((3, String::from("abc")));
    assert_eq!(app.get_query(), (3, String::from("abc")));
    app.modify_bounds(((1, String::from("1")), (2, String::from("22"))));
    assert_eq!(app.get_bounds(), ((1, String::from("1")), (2, String::from("22"))));
    app.modify_query_results(vec![(String::from("0x10"), String::from("7"))]);
    assert_eq!(app.get_query_results(), vec![(String::from("0x10"), String::from("7"))]);
    app.modify_progress_msg(String::from("done"));
    assert_eq!(app.get_progress_msg(), "done");
    app.modify_input_mode(InputMode::EditingUpperBound);
    assert_eq!(app.get_input_mode(), InputMode::EditingUpperBound);
    app.modify_scan_type(ScanTypes::Range);
    assert_eq!(app.get_scan_type(), ScanTypes::Range);
    assert_eq!(app.get_query(), (3, String::from("abc")));
}

#[test]
fn list_actions() {
    let mut app = App::new();
    app.modify_mem_view_list("next", None);
    assert_eq!(app.get_mem_view_list().state.selected(), Some(1));
    app.modify_mem_view_list("prev", None);
    app.modify_mem_view_list("prev", None);
    assert_eq!(app.get_mem_view_list().state.selected(), Some(0));
    app.modify_mem_view_list("set", Some(vec![String::from("a"), String::from("b")]));
    let l: VList = app.get_mem_view_list();
    assert_eq!(l.list, vec![String::from("a"), String::from("b")]);
    assert_eq!(l.state.selected(), Some(0));
    app.modify_mem_view_list("scroll", Some(vec![]));
    assert_eq!(app.get_mem_view_list().list.len(), 2);
    app.modify_proc_list("next", None);
    app.modify_proc_list("next", None);
    assert_eq!(app.get_proc_list().state.selected(), Some(2));
    app.modify_proc_list("set", Some(vec![String::from("init")]));
    assert_eq!(app.get_proc_list().list, vec![String::from("init")]);
}

#[test]
fn list_state_moves() {
    let mut s = ListState::new();
    s.select_previous();
    assert_eq!(s.selected(), Some(usize::MAX));
    s.select_next();
    assert_eq!(s.selected(), Some(usize::MAX));
    let mut s = ListState::new();
    s.select_next();
    assert_eq!(s.selected(), Some(0));
    s.select_previous();
    assert_eq!(s.selected(), Some(0));
    s.offset = 5;
    s.select(Some(3));
    assert_eq!(s.offset, 5);
    s.select(None);
    assert_eq!(s.offset, 0);
    assert_eq!(s.selected(), None);
}

#[test]
fn down_then_up_restores_selection_example() {
    let mut s = ListState { offset: 2, selected: Some(7) };
    s.select_next();
    s.select_previous();
    assert_eq!(s, ListState { offset: 2, selected: Some(7) });
    s.select_previous();
    s.select_next();
    assert_eq!(s, ListState { offset: 2, selected: Some(7) });
}

#[test]
fn quit_asks_then_exits() {
    let mut app = App::new();
    assert_eq!(key(&mut app, KeyCode::Char('q')), Action::Proceed);
    assert_eq!(app.current_screen, CurrentScreen::Exiting);
    assert_eq!(key(&mut app, KeyCode::Char('c')), Action::Proceed);
    assert_eq!(app.current_screen, CurrentScreen::Main);
    key(&mut app, KeyCode::Char('q'));
    assert_eq!(key(&mut app, KeyCode::Char('y')), Action::Exit);
    key(&mut app, KeyCode::Char('q'));
    assert_eq!(key(&mut app, KeyCode::Char('q')), Action::Exit);
}

#[test]
fn releases_are_ignored() {
    let mut app = App::new();
    let a = handle_key(&mut app, KeyEvent { code: KeyCode::Char('q'), kind: KeyEventKind::Release });
    assert_eq!(a, Action::Proceed);
    assert_eq!(app.current_screen, CurrentScreen::Main);
}

#[test]
fn repeats_act_like_presses_in_normal_mode() {
    let mut app = App::new();
    let a = handle_key(&mut app, KeyEvent { code: KeyCode::Char('q'), kind: KeyEventKind::Repeat });
    assert_eq!(a, Action::Proceed);
    assert_eq!(app.current_screen, CurrentScreen::Exiting);
}

#[test]
fn typing_a_query() {
    let mut app = App::new();
    key(&mut app, KeyCode::Char('s'));
    assert_eq!(app.input_mode, InputMode::EditingQuery);
    typed(&mut app, "1234");
    assert_eq!(app.query, (4, String::from("1234")));
    key(&mut app, KeyCode::Backspace);
    assert_eq!(app.query, (3, String::from("123")));
    // repeats do not type while editing
    handle_key(&mut app, KeyEvent { code: KeyCode::Char('9'), kind: KeyEventKind::Repeat });
    assert_eq!(app.query, (3, String::from("123")));
    key(&mut app, KeyCode::Esc);
    assert_eq!(app.input_mode, InputMode::Normal);
    assert_eq!(app.query, (3, String::from("123")));
}

#[test]
fn editing_takes_priority_over_quit() {
    let mut app = App::new();
    key(&mut app, KeyCode::Char('s'));
    typed(&mut app, "qp");
    assert_eq!(app.current_screen, CurrentScreen::Main);
    assert_eq!(app.query, (2, String::from("qp")));
}

#[test]
fn typing_j_also_moves_the_memory_view() {
    let mut app = App::new();
    key(&mut app, KeyCode::Char('s'));
    key(&mut app, KeyCode::Char('k'));
    assert_eq!(app.query.1, "k");
    assert_eq!(app.mem_view_list.state.selected(), Some(1));
}

#[test]
fn backspace_stops_at_the_start() {
    let mut app = App::new();
    key(&mut app, KeyCode::Char('s'));
    key(&mut app, KeyCode::Backspace);
    assert_eq!(app.query, (0, String::new()));
}

#[test]
fn backspace_undoes_typing_example() {
    let mut app = App::new();
    key(&mut app, KeyCode::Char('b'));
    let before = app.bounds.clone();
    key(&mut app, KeyCode::Char('f'));
    key(&mut app, KeyCode::Backspace);
    assert_eq!(app.bounds, before);
}

#[test]
fn editing_bounds() {
    let mut app = App::new();
    key(&mut app, KeyCode::Char('b'));
    assert_eq!(app.input_mode, InputMode::EditingLowerBound);
    key(&mut app, KeyCode::Char('1'));
    assert_eq!(app.bounds.0, (19, String::from("00000000000000001")));
    key(&mut app, KeyCode::Tab);
    assert_eq!(app.input_mode, InputMode::EditingUpperBound);
    key(&mut app, KeyCode::Backspace);
    assert_eq!(app.bounds.1, (15, String::from("00007ffffffffff")));
    key(&mut app, KeyCode::Tab);
    assert_eq!(app.input_mode, InputMode::EditingLowerBound);
    key(&mut app, KeyCode::Esc);
    assert_eq!(app.input_mode, InputMode::Normal);
}

#[test]
fn tab_twice_restores_state() {
    let mut app = App::new();
    key(&mut app, KeyCode::Char('b'));
    key(&mut app, KeyCode::Tab);
    key(&mut app, KeyCode::Tab);
    assert_eq!(app.input_mode, InputMode::EditingLowerBound);
}

#[test]
fn search_and_bounds_only_from_main_screen() {
    let mut app = App::new();
    key(&mut app, KeyCode::Char('p'));
    assert_eq!(app.current_screen, CurrentScreen::SelectingProcess);
    key(&mut app, KeyCode::Char('s'));
    key(&mut app, KeyCode::Char('b'));
    assert_eq!(app.input_mode, InputMode::Normal);
}

#[test]
fn t_is_consumed() {
    let mut app = App::new();
    assert_eq!(key(&mut app, KeyCode::Char('t')), Action::Proceed);
    assert_eq!(app.current_screen, CurrentScreen::Main);
}

#[test]
fn enter_requests_a_scan() {
    let mut app = App::new();
    assert_eq!(key(&mut app, KeyCode::Enter), Action::SendScanRequest);
    record_scan_request(&mut app, Ok(()));
    assert_eq!(app.progress_msg, "Beginning memory scan...");
    record_scan_request(&mut app, Err(String::from("channel closed")));
    assert_eq!(app.progress_msg, "Error sending data: channel closed");
}

#[test]
fn enter_while_editing_does_nothing() {
    let mut app = App::new();
    key(&mut app, KeyCode::Char('s'));
    assert_eq!(key(&mut app, KeyCode::Enter), Action::Proceed);
    assert_eq!(app.input_mode, InputMode::EditingQuery);
}

#[test]
fn choosing_a_process() {
    let mut app = App::new();
    key(&mut app, KeyCode::Char('p'));
    key(&mut app, KeyCode::Char('k'));
    key(&mut app, KeyCode::Down);
    key(&mut app, KeyCode::Up);
    assert_eq!(app.proc_list.state.selected(), Some(1));
    let a = key(&mut app, KeyCode::Char('c'));
    assert_eq!(a, Action::ChooseProcess(1));
    assert_eq!(app.current_screen, CurrentScreen::SelectingProcess);
    choose_process(&mut app, &vec![100, 200, 300], 1);
    assert_eq!(app.open_process, 200);
    assert_eq!(app.current_screen, CurrentScreen::Main);
}

#[test]
fn choosing_reinterprets_large_pids() {
    let mut app = App::new();
    choose_process(&mut app, &vec![u32::MAX], 0);
    assert_eq!(app.open_process, -1);
}

#[test]
fn no_selection_chooses_nothing() {
    let mut app = App::new();
    key(&mut app, KeyCode::Char('p'));
    app.proc_list.state.select(None);
    assert_eq!(key(&mut app, KeyCode::Char('c')), Action::Proceed);
    key(&mut app, KeyCode::Char('q'));
    assert_eq!(app.current_screen, CurrentScreen::Main);
}

#[test]
fn main_screen_arrows_move_memory_view() {
    let mut app = App::new();
    key(&mut app, KeyCode::Down);
    key(&mut app, KeyCode::Char('k'));
    assert_eq!(app.mem_view_list.state.selected(), Some(2));
    key(&mut app, KeyCode::Char('j'));
    assert_eq!(app.mem_view_list.state.selected(), Some(1));
}

#[test]
fn keys_outside_the_domain() {
    let mut app = App::new();
    key(&mut app, KeyCode::Char('s'));
    key(&mut app, KeyCode::Char('é'));
    assert!(!key_is_accepted(&app, press(KeyCode::Backspace)));
    assert!(key_is_accepted(&app, press(KeyCode::Char('x'))));
    app.query.0 = i32::MAX;
    assert!(!key_is_accepted(&app, press(KeyCode::Char('x'))));
    assert!(key_is_accepted(&app, KeyEvent { code: KeyCode::Char('x'), kind: KeyEventKind::Repeat }));
}

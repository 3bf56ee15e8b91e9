//! The application state of the scanner and its plain accessors.

use vstd::prelude::*;
use crate::list::{lines_view, list_down, list_up, ListState, VList, VListView};
use crate::text::text_eq;


verus! {

/// The screen that is shown.
#[derive(Debug, Clone, Copy, PartialEq, Eq, Structural)]
pub enum CurrentScreen {
    Main,
    SelectingProcess,
    Exiting,
}

impl Default for CurrentScreen {
    fn default() -> (s: CurrentScreen)
        ensures
            s == CurrentScreen::Main,
    {
        CurrentScreen::Main
    }
}

/// Where typed characters go.
#[derive(Debug, Clone, Copy, PartialEq, Eq, Structural)]
pub enum InputMode {
    Normal,
    EditingQuery,
    EditingUpperBound,
    EditingLowerBound,
}

impl Default for InputMode {
    fn default() -> (m: InputMode)
        ensures
            m == InputMode::Normal,
    {
        InputMode::Normal
    }
}

/// Which kind of memory query is selected.
#[derive(Debug, Clone, Copy, PartialEq, Eq, Structural)]
pub enum ScanTypes {
    Exact,
    Range,
    Unknown,
}

impl Default for ScanTypes {
    fn default() -> (t: ScanTypes)
        ensures
            t == ScanTypes::Exact,
    {
        ScanTypes::Exact
    }
}

/// The label under which a scan type is shown.
pub open spec fn scan_type_label(t: ScanTypes) -> Seq<char> {
    match t {
        ScanTypes::Exact => "Exact"@,
        ScanTypes::Range => "Range"@,
        ScanTypes::Unknown => "Unknown"@,
    }
}

impl ScanTypes {
    pub fn as_str(&self) -> (label: &str)
        ensures
            label@ == scan_type_label(*self),
    {
        match self {
            ScanTypes::Exact => "Exact",
            ScanTypes::Range => "Range",
            ScanTypes::Unknown => "Unknown",
        }
    }
}

/// The kinds of message that the interface and the scanner exchange.
#[derive(Debug, Clone, Copy, PartialEq, Eq, Structural)]
pub enum DataType {
    ProgressMsg,
    QueryResults,
    QueryProgress,
    BeginMemoryScan,
}

/// A message between the interface and the scanner.
#[derive(Debug)]
pub struct Data {
    pub data_type: DataType,
    pub data: String,
}

/// The message that asks the scanner to begin a memory scan.
pub fn begin_scan_message() -> (d: Data)
    ensures
        d.data_type == DataType::BeginMemoryScan,
        d.data@ == Seq::<char>::empty(),
{
    Data { data_type: DataType::BeginMemoryScan, data: String::new() }
}

/// An edited text field: the cursor position and the text.
pub type Field = (i32, String);

/// An edited text field as plain values.
pub type FieldView = (i32, Seq<char>);

pub open spec fn field_view(f: Field) -> FieldView {
    (f.0, f.1@)
}

/// The state of the interface.
#[derive(Debug)]
pub struct App {
    /// The process whose memory is scanned.
    pub open_process: i32,
    pub current_screen: CurrentScreen,
    pub proc_list: VList,
    pub mem_view_list: VList,
    /// The query: the cursor position (the index of the character) and the text.
    pub query: Field,
    /// The lower and upper bounds of the scanned addresses, each with its cursor.
    pub bounds: (Field, Field),
    /// The results of the last query, as (address, value).
    pub query_results: Vec<(String, String)>,
    pub progress_msg: String,
    pub input_mode: InputMode,
    pub scan_type: ScanTypes,
}

/// The state of the interface as plain values.
pub struct AppView {
    pub open_process: i32,
    pub current_screen: CurrentScreen,
    pub proc_list: VListView,
    pub mem_view_list: VListView,
    pub query: FieldView,
    pub bounds: (FieldView, FieldView),
    pub query_results: Seq<(Seq<char>, Seq<char>)>,
    pub progress_msg: Seq<char>,
    pub input_mode: InputMode,
    pub scan_type: ScanTypes,
}

pub open spec fn results_view(r: Seq<(String, String)>) -> Seq<(Seq<char>, Seq<char>)> {
    r.map_values(|p: (String, String)| (p.0@, p.1@))
}

impl View for App {
    type V = AppView;

    open spec fn view(&self) -> AppView {
        AppView {
            open_process: self.open_process,
            current_screen: self.current_screen,
            proc_list: self.proc_list@,
            mem_view_list: self.mem_view_list@,
            query: field_view(self.query),
            bounds: (field_view(self.bounds.0), field_view(self.bounds.1)),
            query_results: results_view(self.query_results@),
            progress_msg: self.progress_msg@,
            input_mode: self.input_mode,
            scan_type: self.scan_type,
        }
    }
}

/// The state in which the interface starts: the main screen, nothing typed,
/// the whole user address space as bounds, and the first line of each list
/// selected.
pub open spec fn initial_app() -> AppView {
    AppView {
        open_process: 0,
        current_screen: CurrentScreen::Main,
        proc_list: VListView {
            list: Seq::empty(),
            state: ListState { offset: 0, selected: Some(0) },
        },
        mem_view_list: VListView {
            list: Seq::empty(),
            state: ListState { offset: 0, selected: Some(0) },
        },
        query: (0, Seq::empty()),
        bounds: ((18, "0000000000000000"@), (16, "00007fffffffffff"@)),
        query_results: Seq::empty(),
        progress_msg: "Query not started..."@,
        input_mode: InputMode::Normal,
        scan_type: ScanTypes::Exact,
    }
}

/// A copy of an edited text field.
pub fn copy_field(f: &Field) -> (r: Field)
    ensures
        field_view(r) == field_view(*f),
{
    (f.0, f.1.clone())
}

impl App {
    /// The state in which the interface starts (see `initial_app`).
    pub fn new() -> (app: App)
        ensures
            app@ == initial_app(),
    {
        let mut app = App {
            open_process: 0,
            current_screen: CurrentScreen::Main,
            proc_list: VList::new(),
            mem_view_list: VList::new(),
            query: (0, String::new()),
            bounds: (
                (18, String::from_str("0000000000000000")),
                (16, String::from_str("00007fffffffffff")),
            ),
            input_mode: InputMode::Normal,
            query_results: Vec::new(),
            scan_type: ScanTypes::Exact,
            progress_msg: String::from_str("Query not started..."),
        };
        app.proc_list.state.select(Some(0));
        app.mem_view_list.state.select(Some(0));
        assert(app@.proc_list.list =~= Seq::<Seq<char>>::empty());
        assert(app@.mem_view_list.list =~= Seq::<Seq<char>>::empty());
        assert(app@.query_results =~= Seq::<(Seq<char>, Seq<char>)>::empty());
        app
    }
}

/// What a list action does to a list: "prev" and "next" move the selection,
/// "set" replaces the lines (keeping the selection), and any other action
/// leaves the list as it is.
pub open spec fn list_after_action(
    v: VListView,
    action: Seq<char>,
    lines: Option<Seq<Seq<char>>>,
) -> VListView {
    if action == "prev"@ {
        list_up(v)
    } else if action == "next"@ {
        list_down(v)
    } else if action == "set"@ {
        VListView { list: lines.unwrap(), ..v }
    } else {
        v
    }
}

/// The lines of an optional list, as texts.
pub open spec fn optional_lines_view(list: Option<Vec<String>>) -> Option<Seq<Seq<char>>> {
    match list {
        Some(l) => Some(lines_view(l@)),
        None => None,
    }
}

/// Applies a list action (see `list_after_action`) to `l`.
fn apply_list_action(l: &mut VList, action: &str, list: Option<Vec<String>>)
    requires
        action@ == "set"@ ==> list is Some,
    ensures
        final(l)@ == list_after_action(old(l)@, action@, optional_lines_view(list)),
{
    if text_eq(action, "prev") {
        l.state.select_previous();
    } else if text_eq(action, "next") {
        l.state.select_next();
    } else if text_eq(action, "set") {
        match list {
            Some(lines) => {
                l.list = lines;
            },
            None => {},
        }
    }
}

/// A copy of a list of query results.
pub fn copy_results(r: &Vec<(String, String)>) -> (c: Vec<(String, String)>)
    ensures
        results_view(c@) == results_view(r@),
{
    let mut c: Vec<(String, String)> = Vec::new();
    let mut i: usize = 0;
    while i < r.len()
        invariant
            i <= r.len(),
            c@.len() == i,
            forall|j: int| 0 <= j < i ==> #[trigger] c@[j].0@ == r@[j].0@ && c@[j].1@ == r@[j].1@,
        decreases r.len() - i,
    {
        c.push((r[i].0.clone(), r[i].1.clone()));
        i = i + 1;
    }
    assert(results_view(c@) =~= results_view(r@));
    c
}

impl App {
    pub fn modify_process(&mut self, process: i32)
        ensures
            final(self)@ == (AppView { open_process: process, ..old(self)@ }),
    {
        self.open_process = process;
    }

    pub fn modify_current_screen(&mut self, screen: CurrentScreen)
        ensures
            final(self)@ == (AppView { current_screen: screen, ..old(self)@ }),
    {
        self.current_screen = screen;
    }

    pub fn modify_query(&mut self, query: Field)
        ensures
            final(self)@ == (AppView { query: field_view(query), ..old(self)@ }),
    {
        self.query = query;
    }

    pub fn modify_bounds(&mut self, bounds: (Field, Field))
        ensures
            final(self)@ == (AppView {
                bounds: (field_view(bounds.0), field_view(bounds.1)),
                ..old(self)@
            }),
    {
        self.bounds = bounds;
    }

    pub fn modify_query_results(&mut self, results: Vec<(String, String)>)
        ensures
            final(self)@ == (AppView { query_results: results_view(results@), ..old(self)@ }),
    {
        self.query_results = results;
    }

    pub fn modify_progress_msg(&mut self, msg: String)
        ensures
            final(self)@ == (AppView { progress_msg: msg@, ..old(self)@ }),
    {
        self.progress_msg = msg;
    }

    pub fn modify_input_mode(&mut self, mode: InputMode)
        ensures
            final(self)@ == (AppView { input_mode: mode, ..old(self)@ }),
    {
        self.input_mode = mode;
    }

    pub fn modify_scan_type(&mut self, scan_type: ScanTypes)
        ensures
            final(self)@ == (AppView { scan_type: scan_type, ..old(self)@ }),
    {
        self.scan_type = scan_type;
    }

    /// Applies a list action to the memory-view list (see `list_after_action`).
    pub fn modify_mem_view_list(&mut self, action: &str, list: Option<Vec<String>>)
        requires
            action@ == "set"@ ==> list is Some,
        ensures
            final(self)@ == (AppView {
                mem_view_list: list_after_action(
                    old(self)@.mem_view_list,
                    action@,
                    optional_lines_view(list),
                ),
                ..old(self)@
            }),
    {
        apply_list_action(&mut self.mem_view_list, action, list);
    }

    /// Applies a list action to the process list (see `list_after_action`).
    pub fn modify_proc_list(&mut self, action: &str, list: Option<Vec<String>>)
        requires
            action@ == "set"@ ==> list is Some,
        ensures
            final(self)@ == (AppView {
                proc_list: list_after_action(old(self)@.proc_list, action@, optional_lines_view(list)),
                ..old(self)@
            }),
    {
        apply_list_action(&mut self.proc_list, action, list);
    }

    pub fn get_process(&self) -> (p: i32)
        ensures
            p == self@.open_process,
    {
        self.open_process
    }

    pub fn get_current_screen(&self) -> (s: CurrentScreen)
        ensures
            s == self@.current_screen,
    {
        self.current_screen
    }

    pub fn get_query(&self) -> (q: Field)
        ensures
            field_view(q) == self@.query,
    {
        copy_field(&self.query)
    }

    pub fn get_bounds(&self) -> (b: (Field, Field))
        ensures
            (field_view(b.0), field_view(b.1)) == self@.bounds,
    {
        (copy_field(&self.bounds.0), copy_field(&self.bounds.1))
    }

    pub fn get_query_results(&self) -> (r: Vec<(String, String)>)
        ensures
            results_view(r@) == self@.query_results,
    {
        copy_results(&self.query_results)
    }

    pub fn get_progress_msg(&self) -> (m: String)
        ensures
            m@ == self@.progress_msg,
    {
        self.progress_msg.clone()
    }

    pub fn get_input_mode(&self) -> (m: InputMode)
        ensures
            m == self@.input_mode,
    {
        self.input_mode
    }

    pub fn get_scan_type(&self) -> (t: ScanTypes)
        ensures
            t == self@.scan_type,
    {
        self.scan_type
    }

    pub fn get_mem_view_list(&self) -> (l: VList)
        ensures
            l@ == self@.mem_view_list,
    {
        self.mem_view_list.copy()
    }

    pub fn get_proc_list(&self) -> (l: VList)
        ensures
            l@ == self@.proc_list,
    {
        self.proc_list.copy()
    }
}

} // verus!

//! Selection in a scrollable list, and a list of text lines with its
//! selection.

use vstd::prelude::*;

verus! {

/// Where a list is scrolled to and which of its items is selected.
#[derive(Debug, Clone, Copy, PartialEq, Eq, Structural)]
pub struct ListState {
    /// Index of the first item shown.
    pub offset: usize,
    /// Index of the selected item, if any.
    pub selected: Option<usize>,
}

/// The state after `select(index)`: the selection becomes `index`, and
/// clearing the selection scrolls back to the top.
pub open spec fn state_after_select(s: ListState, index: Option<usize>) -> ListState {
    ListState { offset: if index is None { 0 } else { s.offset }, selected: index }
}

/// The index that `select_next` selects: the one after the current
/// selection (staying at the largest index), or the first one when nothing
/// is selected.
pub open spec fn next_index(selected: Option<usize>) -> usize {
    match selected {
        None => 0,
        Some(i) => if i == usize::MAX { i } else { (i + 1) as usize },
    }
}

/// The index that `select_previous` selects: the one before the current
/// selection (staying at the first), or the largest index when nothing is
/// selected, so that the last item ends up selected once the list is shown.
pub open spec fn previous_index(selected: Option<usize>) -> usize {
    match selected {
        None => usize::MAX,
        Some(i) => if i == 0 { 0 } else { (i - 1) as usize },
    }
}

impl ListState {
    /// A list scrolled to the top with nothing selected.
    pub fn new() -> (s: ListState)
        ensures
            s.offset == 0,
            s.selected is None,
    {
        ListState { offset: 0, selected: None }
    }

    /// The selected index.
    pub fn selected(&self) -> (r: Option<usize>)
        ensures
            r == self.selected,
    {
        self.selected
    }

    /// Selects `index`; clearing the selection also scrolls to the top.
    pub fn select(&mut self, index: Option<usize>)
        ensures
            *final(self) == state_after_select(*old(self), index),
    {
        self.selected = index;
        if index.is_none() {
            self.offset = 0;
        }
    }

    /// Selects the next item (see `next_index`).
    pub fn select_next(&mut self)
        ensures
            *final(self) == state_after_select(*old(self), Some(next_index(old(self).selected))),
    {
        let next = match self.selected {
            None => 0,
            Some(i) => i.saturating_add(1),
        };
        self.select(Some(next));
    }

    /// Selects the previous item (see `previous_index`).
    pub fn select_previous(&mut self)
        ensures
            *final(self) == state_after_select(
                *old(self),
                Some(previous_index(old(self).selected)),
            ),
    {
        let previous = match self.selected {
            None => usize::MAX,
            Some(i) => i.saturating_sub(1),
        };
        self.select(Some(previous));
    }
}

/// A list of text lines together with its selection.
#[derive(Debug)]
pub struct VList {
    pub list: Vec<String>,
    pub state: ListState,
}

/// The contents of a `VList`: its lines as texts, and its selection.
pub struct VListView {
    pub list: Seq<Seq<char>>,
    pub state: ListState,
}

/// A list whose selection moved to the previous line.
pub open spec fn list_up(v: VListView) -> VListView {
    VListView { state: state_after_select(v.state, Some(previous_index(v.state.selected))), ..v }
}

/// A list whose selection moved to the next line.
pub open spec fn list_down(v: VListView) -> VListView {
    VListView { state: state_after_select(v.state, Some(next_index(v.state.selected))), ..v }
}

/// The lines of a list, each as its text.
pub open spec fn lines_view(lines: Seq<String>) -> Seq<Seq<char>> {
    lines.map_values(|l: String| l@)
}

impl View for VList {
    type V = VListView;

    open spec fn view(&self) -> VListView {
        VListView { list: lines_view(self.list@), state: self.state }
    }
}

/// A copy of a list of lines.
pub fn copy_lines(lines: &Vec<String>) -> (r: Vec<String>)
    ensures
        lines_view(r@) == lines_view(lines@),
{
    let mut r: Vec<String> = Vec::new();
    let mut i: usize = 0;
    while i < lines.len()
        invariant
            i <= lines.len(),
            r@.len() == i,
            forall|j: int| 0 <= j < i ==> #[trigger] r@[j]@ == lines@[j]@,
        decreases lines.len() - i,
    {
        r.push(lines[i].clone());
        i = i + 1;
    }
    assert(lines_view(r@) =~= lines_view(lines@));
    r
}

impl VList {
    /// An empty list with nothing selected.
    pub fn new() -> (l: VList)
        ensures
            l@.list.len() == 0,
            l@.state == (ListState { offset: 0, selected: None }),
    {
        let l = VList { list: Vec::new(), state: ListState::new() };
        assert(l@.list =~= Seq::<Seq<char>>::empty());
        l
    }

    /// A copy of the list and its selection.
    pub fn copy(&self) -> (r: VList)
        ensures
            r@ == self@,
    {
        VList { list: copy_lines(&self.list), state: self.state }
    }
}

} // verus!

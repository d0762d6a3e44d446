//! The board's state: three columns of issue summaries, the active column,
//! the input mode and the text being typed.
use vstd::prelude::*;
use crate::model::{IssueSummary, Status, board_order, column_index, status_after, status_before};
use crate::text::{trim, trimmed};

verus! {

/// What the keyboard currently does: navigate, type a title, or confirm a
/// deletion.
#[derive(Debug, Clone, Copy, PartialEq, Eq, Structural)]
pub enum AppMode {
    Normal,
    Insert,
    Confirm,
}

/// One column of the board: the issues of one status, which of them is
/// selected, and from which one the column is scrolled.
pub struct ColumnState {
    pub status: Status,
    pub issues: Vec<IssueSummary>,
    pub total_count: usize,
    pub selected: usize,
    pub scroll_offset: usize,
}

/// What a read of one column from storage gives: its issues in order and
/// how many issues have its status.
pub struct ColumnLoad {
    pub issues: Vec<IssueSummary>,
    pub total_count: usize,
}

/// The selection points at an issue, or is 0 in an empty column.
pub open spec fn selection_ok(c: ColumnState) -> bool {
    if c.issues.len() == 0 {
        c.selected == 0
    } else {
        c.selected < c.issues.len()
    }
}

/// The column after moving the selection one issue down, where there is one.
pub open spec fn select_next_of(c: ColumnState) -> ColumnState {
    if c.issues.len() > 0 && c.selected < c.issues.len() - 1 {
        ColumnState { selected: (c.selected + 1) as usize, ..c }
    } else {
        c
    }
}

/// The column after moving the selection one issue up, where there is one.
pub open spec fn select_prev_of(c: ColumnState) -> ColumnState {
    if c.selected > 0 {
        ColumnState { selected: (c.selected - 1) as usize, ..c }
    } else {
        c
    }
}

/// The column with its first issue selected.
pub open spec fn select_first_of(c: ColumnState) -> ColumnState {
    ColumnState { selected: 0, ..c }
}

/// The column with its last issue selected; an empty column is unchanged.
pub open spec fn select_last_of(c: ColumnState) -> ColumnState {
    if c.issues.len() > 0 {
        ColumnState { selected: (c.issues.len() - 1) as usize, ..c }
    } else {
        c
    }
}

/// The column with its selection brought back among its issues.
pub open spec fn clamp_of(c: ColumnState) -> ColumnState {
    if c.issues.len() == 0 {
        ColumnState { selected: 0, ..c }
    } else if c.selected >= c.issues.len() {
        ColumnState { selected: (c.issues.len() - 1) as usize, ..c }
    } else {
        c
    }
}

/// The column after a read from storage replaced its issues and count.
pub open spec fn loaded_of(c: ColumnState, load: ColumnLoad) -> ColumnState {
    clamp_of(ColumnState { issues: load.issues, total_count: load.total_count, ..c })
}

/// Moving the selection down and then up returns to the same issue, and so
/// does moving it up and then down.
pub proof fn lemma_select_next_prev(c: ColumnState)
    ensures
        c.issues.len() > 0 && c.selected < c.issues.len() - 1 ==> select_prev_of(select_next_of(c)) == c,
        c.selected > 0 && selection_ok(c) ==> select_next_of(select_prev_of(c)) == c,
{
}

impl ColumnState {
    /// An empty column of a status.
    pub fn new(status: Status) -> (r: ColumnState)
        ensures
            r.status == status,
            r.issues@.len() == 0,
            r.total_count == 0,
            r.selected == 0,
            r.scroll_offset == 0,
    {
        ColumnState { status, issues: Vec::new(), total_count: 0, selected: 0, scroll_offset: 0 }
    }

    /// Selects the next issue down, if there is one.
    pub fn select_next(&mut self)
        ensures
            *final(self) == select_next_of(*old(self)),
            selection_ok(*old(self)) ==> selection_ok(*final(self)),
    {
        if !self.issues.is_empty() && self.selected < self.issues.len() - 1 {
            self.selected += 1;
        }
    }

    /// Selects the next issue up, if there is one.
    pub fn select_prev(&mut self)
        ensures
            *final(self) == select_prev_of(*old(self)),
            selection_ok(*old(self)) ==> selection_ok(*final(self)),
    {
        if self.selected > 0 {
            self.selected -= 1;
        }
    }

    /// Selects the first issue.
    pub fn select_first(&mut self)
        ensures
            *final(self) == select_first_of(*old(self)),
            selection_ok(*final(self)),
    {
        self.selected = 0;
    }

    /// Selects the last issue, if there is one.
    pub fn select_last(&mut self)
        ensures
            *final(self) == select_last_of(*old(self)),
            selection_ok(*old(self)) ==> selection_ok(*final(self)),
    {
        if !self.issues.is_empty() {
            self.selected = self.issues.len() - 1;
        }
    }

    /// Brings the selection back among the issues: 0 in an empty column,
    /// else at most the last issue.
    pub fn clamp_selection(&mut self)
        ensures
            *final(self) == clamp_of(*old(self)),
            selection_ok(*final(self)),
    {
        if self.issues.is_empty() {
            self.selected = 0;
        } else if self.selected >= self.issues.len() {
            self.selected = self.issues.len() - 1;
        }
    }

    /// The selected issue, if the selection points at one.
    pub fn selected_issue(&self) -> (r: Option<&IssueSummary>)
        ensures
            self.selected < self.issues@.len() ==> r == Some(&self.issues@[self.selected as int]),
            self.selected >= self.issues@.len() ==> r is None,
    {
        if self.selected < self.issues.len() {
            Some(&self.issues[self.selected])
        } else {
            None
        }
    }
}

/// The board as a whole.
pub struct App {
    pub columns: [ColumnState; 3],
    pub active_column: usize,
    pub mode: AppMode,
    pub input: String,
    pub should_quit: bool,
}

/// The board seen as values: the input is its characters.
pub struct AppView {
    pub columns: Seq<ColumnState>,
    pub active_column: usize,
    pub mode: AppMode,
    pub input: Seq<char>,
    pub should_quit: bool,
}

impl View for App {
    type V = AppView;

    open spec fn view(&self) -> AppView {
        AppView {
            columns: self.columns@,
            active_column: self.active_column,
            mode: self.mode,
            input: self.input@,
            should_quit: self.should_quit,
        }
    }
}

/// The board with its active column replaced.
pub open spec fn with_active(a: AppView, c: ColumnState) -> AppView {
    AppView { columns: a.columns.update(a.active_column as int, c), ..a }
}

/// The active column of the board.
pub open spec fn active_of(a: AppView) -> ColumnState {
    a.columns[a.active_column as int]
}

/// The board after a read from storage replaced column `idx`.
pub open spec fn reload_of(a: AppView, idx: int, load: ColumnLoad) -> AppView {
    AppView { columns: a.columns.update(idx, loaded_of(a.columns[idx], load)), ..a }
}

/// The board is well formed: three columns in board order, each with its
/// selection among its issues, and an active column among them.
pub open spec fn board_ok(a: AppView) -> bool {
    &&& a.columns.len() == 3
    &&& a.active_column < 3
    &&& forall|i: int| 0 <= i < 3 ==> (#[trigger] a.columns[i]).status == board_order()[i]
    &&& forall|i: int| 0 <= i < 3 ==> selection_ok(#[trigger] a.columns[i])
}

/// An issue to create: its title and the status of the column it goes to.
pub struct NewIssue {
    pub title: String,
    pub status: Status,
}

/// A move of an issue to another status, and the column of that status.
pub struct IssueMove {
    pub id: i64,
    pub status: Status,
    pub column: usize,
}

/// The issue to create from the typed text: its trimmed text, when that is
/// not empty, in the active column's status.
pub open spec fn creation_of(a: AppView) -> Option<(Seq<char>, Status)> {
    if trimmed(a.input).len() == 0 {
        None
    } else {
        Some((trimmed(a.input), active_of(a).status))
    }
}

/// The selected issue of the active column, if there is one.
pub open spec fn selected_of(a: AppView) -> Option<IssueSummary> {
    let c = active_of(a);
    if c.selected < c.issues@.len() {
        Some(c.issues@[c.selected as int])
    } else {
        None
    }
}

/// Where a step of the workflow takes the selected issue: its id, its
/// new status and that status's column.
pub open spec fn move_of(a: AppView, forward: bool) -> Option<(i64, Status, int)> {
    match selected_of(a) {
        Some(issue) => {
            let next = if forward { status_after(issue.status) } else { status_before(issue.status) };
            match next {
                Some(s) => Some((issue.id, s, column_index(s))),
                None => None,
            }
        },
        None => None,
    }
}

impl App {
    /// The board at start: three empty columns in board order, the first
    /// active, nothing typed.
    pub fn new() -> (r: App)
        ensures
            board_ok(r@),
            r.active_column == 0,
            r.mode == AppMode::Normal,
            r.input@.len() == 0,
            !r.should_quit,
            forall|i: int| 0 <= i < 3 ==> (#[trigger] r.columns[i]).issues@.len() == 0
                && r.columns[i].total_count == 0 && r.columns[i].scroll_offset == 0,
    {
        let r = App {
            columns: [
                ColumnState::new(Status::Todo),
                ColumnState::new(Status::InProgress),
                ColumnState::new(Status::Done),
            ],
            active_column: 0,
            mode: AppMode::Normal,
            input: String::new(),
            should_quit: false,
        };
        assert(r.columns[0].status == board_order()[0]);
        assert(r.columns[1].status == board_order()[1]);
        assert(r.columns[2].status == board_order()[2]);
        r
    }

    /// The active column.
    pub fn active_col(&self) -> (r: &ColumnState)
        requires
            self.active_column < 3,
        ensures
            *r == self.columns[self.active_column as int],
    {
        &self.columns[self.active_column]
    }

    /// The active column, to change it.
    pub fn active_col_mut(&mut self) -> (r: &mut ColumnState)
        requires
            old(self).active_column < 3,
        ensures
            *r == old(self).columns[old(self).active_column as int],
            final(self)@ == with_active(old(self)@, *final(r)),
    {
        &mut self.columns[self.active_column]
    }

    /// The position of a status's column.
    pub fn column_for_status(&self, status: Status) -> (r: usize)
        ensures
            r == column_index(status),
    {
        match status {
            Status::Todo => 0,
            Status::InProgress => 1,
            Status::Done => 2,
        }
    }

    /// Makes the column to the left active, if there is one.
    pub fn move_column_left(&mut self)
        ensures
            final(self)@ == (AppView {
                active_column: if old(self).active_column > 0 {
                    (old(self).active_column - 1) as usize
                } else {
                    old(self).active_column
                },
                ..old(self)@
            }),
    {
        if self.active_column > 0 {
            self.active_column -= 1;
        }
    }

    /// Makes the column to the right active, if there is one.
    pub fn move_column_right(&mut self)
        ensures
            final(self)@ == (AppView {
                active_column: if old(self).active_column < 2 {
                    (old(self).active_column + 1) as usize
                } else {
                    old(self).active_column
                },
                ..old(self)@
            }),
    {
        if self.active_column < 2 {
            self.active_column += 1;
        }
    }

    /// Replaces column `idx` by what was read of it from storage, and
    /// brings its selection back among its issues.
    pub fn refresh_column(&mut self, idx: usize, load: ColumnLoad)
        requires
            idx < 3,
        ensures
            final(self)@ == reload_of(old(self)@, idx as int, load),
    {
        let col = &mut self.columns[idx];
        col.issues = load.issues;
        col.total_count = load.total_count;
        col.clamp_selection();
    }

    /// Replaces the three columns, left to right, by what was read of them.
    pub fn refresh_all(&mut self, first: ColumnLoad, second: ColumnLoad, third: ColumnLoad)
        ensures
            final(self)@ == reload_of(reload_of(reload_of(old(self)@, 0, first), 1, second), 2, third),
    {
        self.refresh_column(0, first);
        self.refresh_column(1, second);
        self.refresh_column(2, third);
    }

    /// The issue that the typed text asks to create in the active column:
    /// none when the text is only white space.
    pub fn create_issue(&self) -> (r: Option<NewIssue>)
        requires
            self.active_column < 3,
        ensures
            match creation_of(self@) {
                None => r is None,
                Some((title, status)) => r matches Some(n) && n.title@ == title && n.status == status,
            },
    {
        let title = trim(self.input.as_str());
        if title.as_str().is_empty() {
            return None;
        }
        let status = self.columns[self.active_column].status;
        Some(NewIssue { title, status })
    }

    /// The id of the issue that a deletion removes: the selected issue of
    /// the active column, if there is one.
    pub fn delete_selected(&self) -> (r: Option<i64>)
        requires
            self.active_column < 3,
        ensures
            r == (match selected_of(self@) {
                Some(issue) => Some(issue.id),
                None => None,
            }),
    {
        let col = &self.columns[self.active_column];
        match col.selected_issue() {
            Some(issue) => Some(issue.id),
            None => None,
        }
    }

    /// The move of the selected issue one step forward in the workflow, if
    /// there is a selected issue and a next status.
    pub fn move_selected_forward(&self) -> (r: Option<IssueMove>)
        requires
            self.active_column < 3,
        ensures
            match move_of(self@, true) {
                None => r is None,
                Some((id, s, c)) => r matches Some(m) && m.id == id && m.status == s && m.column == c,
            },
    {
        self.move_selected(true)
    }

    /// The move of the selected issue one step back in the workflow, if
    /// there is a selected issue and a previous status.
    pub fn move_selected_backward(&self) -> (r: Option<IssueMove>)
        requires
            self.active_column < 3,
        ensures
            match move_of(self@, false) {
                None => r is None,
                Some((id, s, c)) => r matches Some(m) && m.id == id && m.status == s && m.column == c,
            },
    {
        self.move_selected(false)
    }

    fn move_selected(&self, forward: bool) -> (r: Option<IssueMove>)
        requires
            self.active_column < 3,
        ensures
            match move_of(self@, forward) {
                None => r is None,
                Some((id, s, c)) => r matches Some(m) && m.id == id && m.status == s && m.column == c,
            },
    {
        let col = &self.columns[self.active_column];
        match col.selected_issue() {
            Some(issue) => {
                let next = if forward { issue.status.next() } else { issue.status.prev() };
                match next {
                    Some(status) => {
                        let column = self.column_for_status(status);
                        Some(IssueMove { id: issue.id, status, column })
                    },
                    None => None,
                }
            },
            None => None,
        }
    }
}

} // verus!

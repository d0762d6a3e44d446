//! What a key press does to the board, and which write to storage it asks
//! for. A key is handled in two steps: `handle_key` changes the board and
//! names the write, if any; once the write is done and the columns it
//! touched are read again, `complete_write` finishes the step.
use vstd::prelude::*;
use crate::app::{App, AppMode, board_ok, selection_ok, AppView, ColumnLoad, ColumnState, NewIssue, active_of, creation_of, move_of, reload_of, select_first_of, select_last_of, select_next_of, select_prev_of, selected_of, with_active};
use crate::model::{Status, board_order, column_index};
use crate::text::{push_char, pop_char, trimmed};

verus! {

/// The keys the board reacts to; every other key is `Other`.
#[derive(Debug, Clone, Copy, PartialEq, Eq, Structural)]
pub enum KeyCode {
    Char(char),
    Left,
    Right,
    Up,
    Down,
    Enter,
    Esc,
    Backspace,
    Other,
}

/// A key event: the key, whether Control was held, and whether the key was
/// pressed (rather than released or repeated).
#[derive(Debug, Clone, Copy)]
pub struct KeyInput {
    pub code: KeyCode,
    pub ctrl: bool,
    pub press: bool,
}

/// A change to storage that a key asks for, with the columns to read again
/// once it is done.
pub enum Write {
    Create { issue: NewIssue, column: usize },
    Delete { id: i64, column: usize },
    Move { id: i64, status: Status, from: usize, to: usize },
}

/// A write seen as values.
pub enum Intent {
    Create { title: Seq<char>, status: Status, column: usize },
    Delete { id: i64, column: usize },
    Move { id: i64, status: Status, from: usize, to: usize },
}

impl View for Write {
    type V = Intent;

    open spec fn view(&self) -> Intent {
        match self {
            Write::Create { issue, column } => Intent::Create {
                title: issue.title@,
                status: issue.status,
                column: *column,
            },
            Write::Delete { id, column } => Intent::Delete { id: *id, column: *column },
            Write::Move { id, status, from, to } => Intent::Move {
                id: *id,
                status: *status,
                from: *from,
                to: *to,
            },
        }
    }
}

/// The view of an optional write.
pub open spec fn intent_of(w: Option<Write>) -> Option<Intent> {
    match w {
        Some(w) => Some(w@),
        None => None,
    }
}

/// The columns that a write changes, in the order they are read again.
pub open spec fn reload_columns_of(i: Intent) -> Seq<usize> {
    match i {
        Intent::Create { column, .. } => seq![column],
        Intent::Delete { column, .. } => seq![column],
        Intent::Move { from, to, .. } => seq![from, to],
    }
}

/// How many cards the scrolling keeps in view below the first one shown.
pub open spec fn visible_cards() -> int {
    6
}

/// The column scrolled so that its selected card is in view: the selection
/// is brought among the issues, and the first card shown moves up to it, or
/// down until it is among the `visible_cards()` shown.
pub open spec fn scrolled_of(c: ColumnState) -> ColumnState {
    if c.issues@.len() == 0 {
        ColumnState { scroll_offset: 0, ..c }
    } else {
        let sel: usize = if c.selected >= c.issues@.len() { (c.issues@.len() - 1) as usize } else { c.selected };
        let top: usize = if sel < c.scroll_offset {
            sel
        } else if sel - c.scroll_offset >= visible_cards() {
            (sel - visible_cards() + 1) as usize
        } else {
            c.scroll_offset
        };
        ColumnState { selected: sel, scroll_offset: top, ..c }
    }
}

/// The board with its active column scrolled to its selection.
pub open spec fn scroll_active(a: AppView) -> AppView {
    with_active(a, scrolled_of(active_of(a)))
}

/// The board in Normal mode, scrolled to the selection.
pub open spec fn back_to_normal(a: AppView) -> AppView {
    scroll_active(AppView { mode: AppMode::Normal, ..a })
}

/// A key in Normal mode.
pub open spec fn normal_step(a: AppView, code: KeyCode) -> (AppView, Option<Intent>) {
    match code {
        KeyCode::Char('q') => (AppView { should_quit: true, ..a }, None),
        KeyCode::Char('h') | KeyCode::Left => (AppView {
            active_column: if a.active_column > 0 { (a.active_column - 1) as usize } else { a.active_column },
            ..a
        }, None),
        KeyCode::Char('l') | KeyCode::Right => (AppView {
            active_column: if a.active_column < 2 { (a.active_column + 1) as usize } else { a.active_column },
            ..a
        }, None),
        KeyCode::Char('j') | KeyCode::Down => (scroll_active(with_active(a, select_next_of(active_of(a)))), None),
        KeyCode::Char('k') | KeyCode::Up => (scroll_active(with_active(a, select_prev_of(active_of(a)))), None),
        KeyCode::Char('g') => (scroll_active(with_active(a, select_first_of(active_of(a)))), None),
        KeyCode::Char('G') => (scroll_active(with_active(a, select_last_of(active_of(a)))), None),
        KeyCode::Char('n') | KeyCode::Char('a') => (AppView { input: Seq::empty(), mode: AppMode::Insert, ..a }, None),
        KeyCode::Char('d') => (if selected_of(a) is Some { AppView { mode: AppMode::Confirm, ..a } } else { a }, None),
        KeyCode::Char('m') => (a, move_intent(a, true)),
        KeyCode::Char('M') => (a, move_intent(a, false)),
        _ => (a, None),
    }
}

/// The write that moves the selected issue one step in the workflow.
pub open spec fn move_intent(a: AppView, forward: bool) -> Option<Intent> {
    match move_of(a, forward) {
        Some((id, s, c)) => Some(Intent::Move { id, status: s, from: a.active_column, to: c as usize }),
        None => None,
    }
}

/// A key in Insert mode.
pub open spec fn insert_step(a: AppView, code: KeyCode) -> (AppView, Option<Intent>) {
    match code {
        KeyCode::Esc => (AppView { input: Seq::empty(), mode: AppMode::Normal, ..a }, None),
        KeyCode::Enter => match creation_of(a) {
            Some((title, status)) => (a, Some(Intent::Create { title, status, column: a.active_column })),
            None => (back_to_normal(a), None),
        },
        KeyCode::Backspace => (AppView {
            input: if a.input.len() > 0 { a.input.drop_last() } else { a.input },
            ..a
        }, None),
        KeyCode::Char(c) => (AppView { input: a.input.push(c), ..a }, None),
        _ => (a, None),
    }
}

/// A key in Confirm mode.
pub open spec fn confirm_step(a: AppView, code: KeyCode) -> (AppView, Option<Intent>) {
    match code {
        KeyCode::Char('y') | KeyCode::Enter => match selected_of(a) {
            Some(issue) => (a, Some(Intent::Delete { id: issue.id, column: a.active_column })),
            None => (back_to_normal(a), None),
        },
        KeyCode::Char('n') | KeyCode::Esc => (AppView { mode: AppMode::Normal, ..a }, None),
        _ => (a, None),
    }
}

/// What a key does to the board, and the write it asks for. Only pressed
/// keys count; Control-C quits in every mode.
pub open spec fn key_step(a: AppView, k: KeyInput) -> (AppView, Option<Intent>) {
    if !k.press {
        (a, None)
    } else if k.ctrl && k.code == KeyCode::Char('c') {
        (AppView { should_quit: true, ..a }, None)
    } else {
        match a.mode {
            AppMode::Normal => normal_step(a, k.code),
            AppMode::Insert => insert_step(a, k.code),
            AppMode::Confirm => confirm_step(a, k.code),
        }
    }
}

/// The board after the columns that a write changed were read again.
pub open spec fn reloads_of(a: AppView, i: Intent, loads: Seq<ColumnLoad>) -> AppView {
    match i {
        Intent::Create { column, .. } => reload_of(a, column as int, loads[0]),
        Intent::Delete { column, .. } => reload_of(a, column as int, loads[0]),
        Intent::Move { from, to, .. } => reload_of(reload_of(a, from as int, loads[0]), to as int, loads[1]),
    }
}

/// The board once a write is done and read back: after a creation the
/// typed text is cleared, the last issue of the active column (the new one)
/// is selected and the board is back in Normal mode; after a deletion it is
/// back in Normal mode; a move changes nothing more.
pub open spec fn finished_of(a: AppView, i: Intent) -> AppView {
    match i {
        Intent::Create { .. } => back_to_normal(
            AppView { input: Seq::empty(), ..with_active(a, select_last_of(active_of(a))) },
        ),
        Intent::Delete { .. } => back_to_normal(a),
        Intent::Move { .. } => a,
    }
}

/// Scrolls the active column so that its selected card is in view.
pub fn adjust_scroll(app: &mut App)
    requires
        old(app).active_column < 3,
    ensures
        final(app)@ == scroll_active(old(app)@),
{
    let col = &mut app.columns[app.active_column];
    if col.issues.is_empty() {
        col.scroll_offset = 0;
        return;
    }
    if col.selected >= col.issues.len() {
        col.selected = col.issues.len() - 1;
    }
    if col.selected < col.scroll_offset {
        col.scroll_offset = col.selected;
    }
    let visible_cards: usize = 6;
    if col.selected - col.scroll_offset >= visible_cards {
        col.scroll_offset = col.selected - visible_cards + 1;
    }
}

fn handle_normal(app: &mut App, code: KeyCode) -> (w: Option<Write>)
    requires
        old(app).active_column < 3,
    ensures
        (final(app)@, intent_of(w)) == normal_step(old(app)@, code),
{
    match code {
        KeyCode::Char('q') => {
            app.should_quit = true;
            None
        },
        KeyCode::Char('h') | KeyCode::Left => {
            app.move_column_left();
            None
        },
        KeyCode::Char('l') | KeyCode::Right => {
            app.move_column_right();
            None
        },
        KeyCode::Char('j') | KeyCode::Down => {
            app.active_col_mut().select_next();
            adjust_scroll(app);
            None
        },
        KeyCode::Char('k') | KeyCode::Up => {
            app.active_col_mut().select_prev();
            adjust_scroll(app);
            None
        },
        KeyCode::Char('g') => {
            app.active_col_mut().select_first();
            adjust_scroll(app);
            None
        },
        KeyCode::Char('G') => {
            app.active_col_mut().select_last();
            adjust_scroll(app);
            None
        },
        KeyCode::Char('n') | KeyCode::Char('a') => {
            app.input = String::new();
            app.mode = AppMode::Insert;
            None
        },
        KeyCode::Char('d') => {
            if app.active_col().selected_issue().is_some() {
                app.mode = AppMode::Confirm;
            }
            None
        },
        KeyCode::Char('m') => match app.move_selected_forward() {
            Some(m) => Some(Write::Move { id: m.id, status: m.status, from: app.active_column, to: m.column }),
            None => None,
        },
        KeyCode::Char('M') => match app.move_selected_backward() {
            Some(m) => Some(Write::Move { id: m.id, status: m.status, from: app.active_column, to: m.column }),
            None => None,
        },
        _ => None,
    }
}

fn handle_insert(app: &mut App, code: KeyCode) -> (w: Option<Write>)
    requires
        old(app).active_column < 3,
    ensures
        (final(app)@, intent_of(w)) == insert_step(old(app)@, code),
{
    match code {
        KeyCode::Esc => {
            app.input = String::new();
            app.mode = AppMode::Normal;
            None
        },
        KeyCode::Enter => match app.create_issue() {
            Some(issue) => Some(Write::Create { issue, column: app.active_column }),
            None => {
                app.mode = AppMode::Normal;
                adjust_scroll(app);
                None
            },
        },
        KeyCode::Backspace => {
            pop_char(&mut app.input);
            None
        },
        KeyCode::Char(c) => {
            push_char(&mut app.input, c);
            None
        },
        _ => None,
    }
}

fn handle_confirm(app: &mut App, code: KeyCode) -> (w: Option<Write>)
    requires
        old(app).active_column < 3,
    ensures
        (final(app)@, intent_of(w)) == confirm_step(old(app)@, code),
{
    match code {
        KeyCode::Char('y') | KeyCode::Enter => match app.delete_selected() {
            Some(id) => Some(Write::Delete { id, column: app.active_column }),
            None => {
                app.mode = AppMode::Normal;
                adjust_scroll(app);
                None
            },
        },
        KeyCode::Char('n') | KeyCode::Esc => {
            app.mode = AppMode::Normal;
            None
        },
        _ => None,
    }
}

/// Handles a key event: changes the board as `key_step` says and returns
/// the write it asks for.
pub fn handle_key(app: &mut App, key: KeyInput) -> (w: Option<Write>)
    requires
        old(app).active_column < 3,
    ensures
        (final(app)@, intent_of(w)) == key_step(old(app)@, key),
{
    if !key.press {
        return None;
    }
    if key.ctrl {
        if let KeyCode::Char('c') = key.code {
            app.should_quit = true;
            return None;
        }
    }
    match app.mode {
        AppMode::Normal => handle_normal(app, key.code),
        AppMode::Insert => handle_insert(app, key.code),
        AppMode::Confirm => handle_confirm(app, key.code),
    }
}

impl Write {
    /// The columns to read again once the write is done, in order.
    pub fn reload_columns(&self) -> (r: Vec<usize>)
        ensures
            r@ == reload_columns_of(self@),
    {
        let mut r = Vec::new();
        match self {
            Write::Create { column, .. } => r.push(*column),
            Write::Delete { column, .. } => r.push(*column),
            Write::Move { from, to, .. } => {
                r.push(*from);
                r.push(*to);
            },
        }
        assert(r@ =~= reload_columns_of(self@));
        r
    }
}

/// Finishes a key's step once its write is done: the columns it changed
/// are replaced by what was read of them (`loads`, in the order of
/// `reload_columns`), then the board is left as `finished_of` says.
pub fn complete_write(app: &mut App, w: &Write, loads: Vec<ColumnLoad>)
    requires
        old(app).active_column < 3,
        loads@.len() == reload_columns_of(w@).len(),
        forall|i: int| 0 <= i < reload_columns_of(w@).len() ==> #[trigger] reload_columns_of(w@)[i] < 3,
    ensures
        final(app)@ == finished_of(reloads_of(old(app)@, w@, loads@), w@),
{
    let ghost start = app@;
    let ghost all = loads@;
    let mut loads = loads;
    match w {
        Write::Create { column, .. } => {
            assert(reload_columns_of(w@)[0] == *column);
            let load = loads.remove(0);
            app.refresh_column(*column, load);
            app.input = String::new();
            app.active_col_mut().select_last();
            app.mode = AppMode::Normal;
            adjust_scroll(app);
        },
        Write::Delete { column, .. } => {
            assert(reload_columns_of(w@)[0] == *column);
            let load = loads.remove(0);
            app.refresh_column(*column, load);
            app.mode = AppMode::Normal;
            adjust_scroll(app);
        },
        Write::Move { from, to, .. } => {
            assert(reload_columns_of(w@)[0] == *from);
            assert(reload_columns_of(w@)[1] == *to);
            let first = loads.remove(0);
            app.refresh_column(*from, first);
            let second = loads.remove(0);
            app.refresh_column(*to, second);
        },
    }
}

/// Scrolling brings the selection among the issues and into the window of
/// `visible_cards()` cards that starts at the scroll position; an empty
/// column scrolls to the top. Scrolling twice is scrolling once.
pub proof fn lemma_scroll_shows_selection(c: ColumnState)
    ensures
        c.issues@.len() == 0 ==> scrolled_of(c).scroll_offset == 0,
        c.issues@.len() > 0 ==> {
            let r = scrolled_of(c);
            &&& r.selected < c.issues@.len()
            &&& r.scroll_offset <= r.selected < r.scroll_offset + visible_cards()
        },
        selection_ok(c) ==> scrolled_of(c).selected == c.selected,
        scrolled_of(scrolled_of(c)) == scrolled_of(c),
        scrolled_of(c).issues == c.issues && scrolled_of(c).status == c.status
            && scrolled_of(c).total_count == c.total_count,
{
}

/// Every key keeps the board well formed, and the write it asks for only
/// names columns of the board.
pub proof fn lemma_key_step_keeps_board(a: AppView, k: KeyInput)
    requires
        board_ok(a),
    ensures
        board_ok(key_step(a, k).0),
        key_step(a, k).1 matches Some(i) ==> forall|j: int|
            0 <= j < reload_columns_of(i).len() ==> #[trigger] reload_columns_of(i)[j] < 3,
{
    let c = active_of(a);
    lemma_scroll_shows_selection(select_next_of(c));
    lemma_scroll_shows_selection(select_prev_of(c));
    lemma_scroll_shows_selection(select_first_of(c));
    lemma_scroll_shows_selection(select_last_of(c));
    lemma_scroll_shows_selection(c);
    let r = key_step(a, k).0;
    assert forall|i: int| 0 <= i < 3 implies (#[trigger] r.columns[i]).status == board_order()[i]
        && selection_ok(r.columns[i]) by {
        if i != a.active_column {
            assert(r.columns[i] == a.columns[i]);
        }
    }
}

/// Finishing a write that names columns of the board keeps it well formed.
pub proof fn lemma_finish_keeps_board(a: AppView, i: Intent, loads: Seq<ColumnLoad>)
    requires
        board_ok(a),
        loads.len() == reload_columns_of(i).len(),
        forall|j: int| 0 <= j < reload_columns_of(i).len() ==> #[trigger] reload_columns_of(i)[j] < 3,
    ensures
        board_ok(finished_of(reloads_of(a, i, loads), i)),
{
    let b = reloads_of(a, i, loads);
    assert(reload_columns_of(i)[0] < 3);
    match i {
        Intent::Move { .. } => {
            assert(reload_columns_of(i)[1] < 3);
        },
        _ => {},
    }
    assert(board_ok(b)) by {
        assert forall|j: int| 0 <= j < 3 implies (#[trigger] b.columns[j]).status == board_order()[j]
            && selection_ok(b.columns[j]) by {
        }
    }
    let c = active_of(b);
    lemma_scroll_shows_selection(c);
    lemma_scroll_shows_selection(select_last_of(c));
    let r = finished_of(b, i);
    assert forall|j: int| 0 <= j < 3 implies (#[trigger] r.columns[j]).status == board_order()[j]
        && selection_ok(r.columns[j]) by {
        if j != b.active_column {
            assert(r.columns[j] == b.columns[j]);
        }
    }
}

/// Control-C quits in every mode and changes nothing else.
pub proof fn lemma_ctrl_c_quits(a: AppView, k: KeyInput)
    requires
        k.press,
        k.ctrl,
        k.code == KeyCode::Char('c'),
    ensures
        key_step(a, k).0 == (AppView { should_quit: true, ..a }),
        key_step(a, k).1 is None,
{
}

/// A key that is not a press changes nothing.
pub proof fn lemma_release_ignored(a: AppView, k: KeyInput)
    requires
        !k.press,
    ensures
        key_step(a, k) == (a, None::<Intent>),
{
}

/// While typing a title, a character typed and then erased leaves the
/// board as it was.
pub proof fn lemma_type_then_erase(a: AppView, c: char, ctrl: bool)
    requires
        a.mode == AppMode::Insert,
        !(ctrl && c == 'c'),
    ensures
        key_step(
            key_step(a, KeyInput { code: KeyCode::Char(c), ctrl, press: true }).0,
            KeyInput { code: KeyCode::Backspace, ctrl: false, press: true },
        ).0 == a,
{
    let b = key_step(a, KeyInput { code: KeyCode::Char(c), ctrl, press: true }).0;
    assert(b.input.drop_last() =~= a.input);
}

/// Opening the title input and cancelling it returns to Normal mode with
/// nothing typed and the columns unchanged.
pub proof fn lemma_cancel_insert(a: AppView)
    requires
        a.mode == AppMode::Normal,
    ensures
        ({
            let b = key_step(a, KeyInput { code: KeyCode::Char('n'), ctrl: false, press: true }).0;
            let c = key_step(b, KeyInput { code: KeyCode::Esc, ctrl: false, press: true }).0;
            &&& b.mode == AppMode::Insert
            &&& c == (AppView { input: Seq::empty(), ..a })
        }),
{
}

/// A title made only of white space creates nothing: Enter just leaves the
/// input.
pub proof fn lemma_blank_title_creates_nothing(a: AppView)
    requires
        a.mode == AppMode::Insert,
        trimmed(a.input).len() == 0,
    ensures
        key_step(a, KeyInput { code: KeyCode::Enter, ctrl: false, press: true }).1 is None,
        key_step(a, KeyInput { code: KeyCode::Enter, ctrl: false, press: true }).0.mode == AppMode::Normal,
{
}

/// Moving the selected issue forward and then, from its new column, back
/// returns it to its status.
pub proof fn lemma_move_forward_back(a: AppView, b: AppView, id: i64, to: Status, col: int)
    requires
        move_of(a, true) == Some((id, to, col)),
        selected_of(b) matches Some(issue) && issue.id == id && issue.status == to,
    ensures
        selected_of(a) matches Some(issue) && move_of(b, false) == Some(
            (id, issue.status, column_index(issue.status)),
        ),
{
}

} // verus!

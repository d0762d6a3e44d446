use slate::app::{App, AppMode, ColumnLoad};
use slate::event::{adjust_scroll, complete_write, handle_key, KeyCode, KeyInput, Write};
use slate::model::{issue_from_row, IssueSummary, Status, Timestamp};

fn issue(id: i64, status: &str) -> IssueSummary {
    let t = Timestamp::new(2024, 5, 1, 12, 0, 0).unwrap();
    issue_from_row(id, "ST", id, format!("Issue {id}"), status, 0, t)
}

fn column(n: i64, status: &str) -> ColumnLoad {
    ColumnLoad { issues: (1..=n).map(|i| issue(i, status)).collect(), total_count: n as usize }
}

fn press(code: KeyCode) -> KeyInput {
    KeyInput { code, ctrl: false, press: true }
}

fn key(app: &mut App, code: KeyCode) -> Option<Write> {
    handle_key(app, press(code))
}

fn type_text(app: &mut App, s: &str) {
    for c in s.chars() {
        assert!(key(app, KeyCode::Char(c)).is_none());
    }
}

#[test]
fn ctrl_c_quits_in_every_mode() {
    for mode in [AppMode::Normal, AppMode::Insert, AppMode::Confirm] {
        let mut app = App::new();
        app.mode = mode;
        let w = handle_key(&mut app, KeyInput { code: KeyCode::Char('c'), ctrl: true, press: true });
        assert!(w.is_none());
        assert!(app.should_quit);
        assert_eq!(app.mode, mode);
    }
}

#[test]
fn released_keys_do_nothing() {
    let mut app = App::new();
    assert!(handle_key(&mut app, KeyInput { code: KeyCode::Char('q'), ctrl: false, press: false }).is_none());
    assert!(!app.should_quit);
    key(&mut app, KeyCode::Char('q'));
    assert!(app.should_quit);
}

#[test]
fn typing_a_title_creates_an_issue() {
    let mut app = App::new();
    key(&mut app, KeyCode::Char('n'));
    assert_eq!(app.mode, AppMode::Insert);
    type_text(&mut app, "  Buy mikl");
    key(&mut app, KeyCode::Backspace);
    key(&mut app, KeyCode::Backspace);
    type_text(&mut app, "lk ");
    assert_eq!(app.input, "  Buy milk ");
    let w = key(&mut app, KeyCode::Enter).unwrap();
    match &w {
        Write::Create { issue, column } => {
            assert_eq!(issue.title, "Buy milk");
            assert_eq!(issue.status, Status::Todo);
            assert_eq!(*column, 0);
        }
        _ => panic!("expected a creation"),
    }
    assert_eq!(w.reload_columns(), vec![0]);
    assert_eq!(app.mode, AppMode::Insert);
    complete_write(&mut app, &w, vec![column(8, "todo")]);
    assert!(app.input.is_empty());
    assert_eq!(app.mode, AppMode::Normal);
    assert_eq!(app.columns[0].selected, 7);
    assert_eq!(app.columns[0].scroll_offset, 2);
}

#[test]
fn blank_title_and_escape_create_nothing() {
    let mut app = App::new();
    key(&mut app, KeyCode::Char('a'));
    type_text(&mut app, "   ");
    assert!(key(&mut app, KeyCode::Enter).is_none());
    assert_eq!(app.mode, AppMode::Normal);
    key(&mut app, KeyCode::Char('n'));
    assert!(app.input.is_empty());
    type_text(&mut app, "draft");
    key(&mut app, KeyCode::Esc);
    assert_eq!(app.mode, AppMode::Normal);
    assert!(app.input.is_empty());
    key(&mut app, KeyCode::Char('n'));
    key(&mut app, KeyCode::Backspace);
    assert!(app.input.is_empty());
    key(&mut app, KeyCode::Char('q'));
    assert_eq!(app.input, "q");
    assert!(!app.should_quit);
}

#[test]
fn deleting_asks_for_confirmation() {
    let mut app = App::new();
    key(&mut app, KeyCode::Char('d'));
    assert_eq!(app.mode, AppMode::Normal);
    app.refresh_all(column(3, "todo"), column(0, "in_progress"), column(0, "done"));
    key(&mut app, KeyCode::Char('j'));
    key(&mut app, KeyCode::Char('d'));
    assert_eq!(app.mode, AppMode::Confirm);
    key(&mut app, KeyCode::Char('n'));
    assert_eq!(app.mode, AppMode::Normal);
    key(&mut app, KeyCode::Char('d'));
    let w = key(&mut app, KeyCode::Char('y')).unwrap();
    match &w {
        Write::Delete { id, column } => assert_eq!((*id, *column), (2, 0)),
        _ => panic!("expected a deletion"),
    }
    assert_eq!(app.mode, AppMode::Confirm);
    let mut load = column(3, "todo");
    load.issues.remove(1);
    load.total_count = 2;
    complete_write(&mut app, &w, vec![load]);
    assert_eq!(app.mode, AppMode::Normal);
    assert_eq!(app.columns[0].issues.len(), 2);
    assert_eq!(app.columns[0].selected, 1);
}

#[test]
fn confirm_without_selection_returns_to_normal() {
    let mut app = App::new();
    app.mode = AppMode::Confirm;
    assert!(key(&mut app, KeyCode::Enter).is_none());
    assert_eq!(app.mode, AppMode::Normal);
}

#[test]
fn moving_issues_between_columns() {
    let mut app = App::new();
    app.refresh_all(column(2, "todo"), column(1, "in_progress"), column(1, "done"));
    let w = key(&mut app, KeyCode::Char('m')).unwrap();
    match &w {
        Write::Move { id, status, from, to } => assert_eq!((*id, *status, *from, *to), (1, Status::InProgress, 0, 1)),
        _ => panic!("expected a move"),
    }
    assert_eq!(w.reload_columns(), vec![0, 1]);
    let mut moved = column(2, "in_progress");
    moved.issues[1] = issue(1, "in_progress");
    complete_write(&mut app, &w, vec![column(1, "todo"), moved]);
    assert_eq!(app.columns[0].issues.len(), 1);
    assert_eq!(app.columns[1].issues.len(), 2);
    assert_eq!(app.mode, AppMode::Normal);
    assert!(key(&mut app, KeyCode::Char('M')).is_none());
    key(&mut app, KeyCode::Char('l'));
    key(&mut app, KeyCode::Char('l'));
    assert!(key(&mut app, KeyCode::Char('m')).is_none());
    let back = key(&mut app, KeyCode::Char('M')).unwrap();
    match back {
        Write::Move { status, from, to, .. } => assert_eq!((status, from, to), (Status::InProgress, 2, 1)),
        _ => panic!("expected a move"),
    }
}

#[test]
fn navigation_scrolls_to_the_selection() {
    let mut app = App::new();
    app.refresh_all(column(10, "todo"), column(0, "in_progress"), column(0, "done"));
    for _ in 0..8 {
        key(&mut app, KeyCode::Down);
    }
    assert_eq!(app.columns[0].selected, 8);
    assert_eq!(app.columns[0].scroll_offset, 3);
    key(&mut app, KeyCode::Char('G'));
    assert_eq!(app.columns[0].selected, 9);
    assert_eq!(app.columns[0].scroll_offset, 4);
    key(&mut app, KeyCode::Char('g'));
    assert_eq!(app.columns[0].selected, 0);
    assert_eq!(app.columns[0].scroll_offset, 0);
    key(&mut app, KeyCode::Char('k'));
    assert_eq!(app.columns[0].selected, 0);
    key(&mut app, KeyCode::Right);
    assert_eq!(app.active_column, 1);
    key(&mut app, KeyCode::Left);
    key(&mut app, KeyCode::Char('h'));
    assert_eq!(app.active_column, 0);
    key(&mut app, KeyCode::Other);
    assert_eq!(app.columns[0].selected, 0);
}

#[test]
fn scroll_adjustment_clamps_and_follows() {
    let mut app = App::new();
    app.columns[0].scroll_offset = 5;
    adjust_scroll(&mut app);
    assert_eq!(app.columns[0].scroll_offset, 0);
    app.refresh_column(0, column(20, "todo"));
    app.columns[0].selected = 15;
    app.columns[0].scroll_offset = 0;
    adjust_scroll(&mut app);
    assert_eq!(app.columns[0].scroll_offset, 10);
    app.columns[0].selected = 25;
    adjust_scroll(&mut app);
    assert_eq!(app.columns[0].selected, 19);
    assert_eq!(app.columns[0].scroll_offset, 14);
    app.columns[0].selected = 3;
    adjust_scroll(&mut app);
    assert_eq!(app.columns[0].scroll_offset, 3);
}

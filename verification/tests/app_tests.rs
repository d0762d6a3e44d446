use slate::app::{App, AppMode, ColumnLoad, ColumnState};
use slate::model::{issue_from_row, IssueSummary, Status, Timestamp};

fn issue(id: i64, status: &str) -> IssueSummary {
    let t = Timestamp::new(2024, 5, 1, 12, 0, 0).unwrap();
    issue_from_row(id, "ST", id, format!("Issue {id}"), status, 0, t)
}

fn column(n: i64, status: &str) -> ColumnLoad {
    ColumnLoad { issues: (1..=n).map(|i| issue(i, status)).collect(), total_count: n as usize }
}

#[test]
fn new_board_is_empty() {
    let app = App::new();
    assert_eq!(app.active_column, 0);
    assert_eq!(app.mode, AppMode::Normal);
    assert!(app.input.is_empty());
    assert!(!app.should_quit);
    for (i, s) in Status::all().iter().enumerate() {
        assert_eq!(app.columns[i].status, *s);
        assert!(app.columns[i].issues.is_empty());
    }
}

#[test]
fn column_selection_stays_in_range() {
    let mut col = ColumnState::new(Status::Todo);
    col.select_next();
    assert_eq!(col.selected, 0);
    col.select_prev();
    assert_eq!(col.selected, 0);
    col.select_last();
    assert_eq!(col.selected, 0);
    assert!(col.selected_issue().is_none());
    col.issues = column(3, "todo").issues;
    col.select_next();
    col.select_next();
    col.select_next();
    assert_eq!(col.selected, 2);
    assert_eq!(col.selected_issue().unwrap().id, 3);
    col.select_prev();
    assert_eq!(col.selected, 1);
    col.select_first();
    assert_eq!(col.selected, 0);
    col.select_last();
    assert_eq!(col.selected, 2);
    col.issues.truncate(1);
    assert!(col.selected_issue().is_none());
    col.clamp_selection();
    assert_eq!(col.selected, 0);
    col.issues.clear();
    col.selected = 4;
    col.clamp_selection();
    assert_eq!(col.selected, 0);
}

#[test]
fn active_column_moves_within_board() {
    let mut app = App::new();
    app.move_column_left();
    assert_eq!(app.active_column, 0);
    app.move_column_right();
    app.move_column_right();
    app.move_column_right();
    assert_eq!(app.active_column, 2);
    assert_eq!(app.active_col().status, Status::Done);
    app.move_column_left();
    assert_eq!(app.active_col().status, Status::InProgress);
    assert_eq!(app.column_for_status(Status::Todo), 0);
    assert_eq!(app.column_for_status(Status::InProgress), 1);
    assert_eq!(app.column_for_status(Status::Done), 2);
    app.active_col_mut().selected = 3;
    assert_eq!(app.columns[1].selected, 3);
}

#[test]
fn refresh_replaces_and_clamps() {
    let mut app = App::new();
    app.columns[0].selected = 9;
    app.refresh_all(column(4, "todo"), column(0, "in_progress"), column(2, "done"));
    assert_eq!(app.columns[0].issues.len(), 4);
    assert_eq!(app.columns[0].selected, 3);
    assert_eq!(app.columns[1].selected, 0);
    assert_eq!(app.columns[2].total_count, 2);
    app.refresh_column(0, ColumnLoad { issues: Vec::new(), total_count: 7 });
    assert_eq!(app.columns[0].selected, 0);
    assert_eq!(app.columns[0].total_count, 7);
}

#[test]
fn creation_uses_trimmed_title() {
    let mut app = App::new();
    app.move_column_right();
    app.input = "  Ship it  ".to_string();
    let n = app.create_issue().unwrap();
    assert_eq!(n.title, "Ship it");
    assert_eq!(n.status, Status::InProgress);
    app.input = " \t ".to_string();
    assert!(app.create_issue().is_none());
}

#[test]
fn deletion_and_moves_target_the_selection() {
    let mut app = App::new();
    assert!(app.delete_selected().is_none());
    assert!(app.move_selected_forward().is_none());
    app.refresh_all(column(2, "todo"), column(0, "in_progress"), column(1, "done"));
    app.columns[0].selected = 1;
    assert_eq!(app.delete_selected(), Some(2));
    let m = app.move_selected_forward().unwrap();
    assert_eq!((m.id, m.status, m.column), (2, Status::InProgress, 1));
    assert!(app.move_selected_backward().is_none());
    app.move_column_right();
    app.move_column_right();
    assert!(app.move_selected_forward().is_none());
    let b = app.move_selected_backward().unwrap();
    assert_eq!((b.id, b.status, b.column), (1, Status::InProgress, 1));
}

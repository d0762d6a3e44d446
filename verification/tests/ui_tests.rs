use slate::app::{AppMode, ColumnState};
use slate::model::{issue_from_row, IssueSummary, Priority, Status, Timestamp};
use slate::theme::Palette;
use slate::ui::{card_text, card_window, column_border, column_header, empty_state, priority_color, shows_input, status_bar};

fn issue(id: i64, status: &str, title: &str, priority: i32) -> IssueSummary {
    let t = Timestamp::new(2023, 11, 2, 8, 0, 0).unwrap();
    issue_from_row(id, "ST", id, title.to_string(), status, priority, t)
}

#[test]
fn card_lines_fit_the_width() {
    let c = card_text(&issue(4, "todo", "Plan the week", 2), 20, 5, true);
    assert_eq!(c.id_part, "○ ST-4");
    assert_eq!(c.padding, 20 - 6 - 2);
    assert_eq!(c.priority_icon, "▃▄");
    assert_eq!(c.priority_color, Palette::PriorityMedium);
    assert_eq!(c.title, "Plan the week");
    assert!(!c.title_crossed_out);
    assert_eq!(c.created, "Created Nov 2023");
    assert_eq!(c.background, Palette::BgCardSelected);
    assert!(c.accent_bar);
    let d = card_text(&issue(12, "done", "A rather long title here", 0), 10, 2, true);
    assert_eq!(d.id_part, "✓ ST-12");
    assert_eq!(d.padding, 1);
    assert_eq!(d.title, "A rathe...");
    assert!(d.title_crossed_out);
    assert_eq!(d.title_color, Palette::FgSecondary);
    assert!(!d.accent_bar);
    let narrow = card_text(&issue(123, "in_progress", "x", 3), 4, 5, false);
    assert_eq!(narrow.padding, 0);
    assert_eq!(narrow.border, Palette::FgBorder);
    assert!(!narrow.accent_bar);
}

#[test]
fn priority_colors() {
    assert_eq!(priority_color(Priority::High), Palette::PriorityHigh);
    assert_eq!(priority_color(Priority::Unset), Palette::PriorityNone);
    assert_eq!(Palette::PriorityHigh.rgb(), (248, 113, 113));
    assert_eq!(Palette::BgBase.rgb(), (18, 18, 20));
}

fn filled(n: i64, offset: usize) -> ColumnState {
    let mut c = ColumnState::new(Status::Todo);
    c.issues = (1..=n).map(|i| issue(i, "todo", "t", 0)).collect();
    c.total_count = n as usize + 3;
    c.scroll_offset = offset;
    c
}

#[test]
fn card_window_counts_hidden_cards() {
    let w = card_window(&filled(10, 2), 23, true);
    assert_eq!((w.first, w.count, w.hidden_above, w.hidden_below), (2, 4, 2, 4));
    assert_eq!(w.selected, Some(0));
    let all = card_window(&filled(3, 0), 40, false);
    assert_eq!((all.count, all.hidden_above, all.hidden_below, all.selected), (3, 0, 0, None));
    let past = card_window(&filled(3, 5), 40, false);
    assert_eq!((past.count, past.hidden_above, past.hidden_below), (0, 5, 0));
    let tiny = card_window(&filled(3, 0), 4, false);
    assert_eq!((tiny.count, tiny.hidden_below), (0, 3));
}

#[test]
fn column_headers_and_states() {
    let h = column_header(&filled(2, 0), true);
    assert_eq!(h.counts, "2/5");
    assert_eq!(h.name, "Todo");
    assert_eq!(h.icon, "○");
    assert!(h.name_bold);
    assert_eq!(h.name_color, Palette::FgPrimary);
    let e = empty_state(Status::InProgress, false);
    assert_eq!(e.message, "All clear for now");
    assert_eq!(e.hint, "");
    assert_eq!(empty_state(Status::Todo, true).hint, "press 'n' to add");
    assert_eq!(column_border(true), Palette::FgBorderActive);
    assert!(shows_input(true, AppMode::Insert));
    assert!(!shows_input(false, AppMode::Insert));
    assert!(!shows_input(true, AppMode::Normal));
}

#[test]
fn status_bar_hints() {
    let normal = status_bar(AppMode::Normal);
    assert_eq!(normal.len(), 12);
    assert_eq!(normal[6].text, "m/M");
    assert_eq!(normal[7].text, " move  ");
    let confirm = status_bar(AppMode::Confirm);
    assert_eq!(confirm[0].text, " Delete issue? ");
    assert_eq!(confirm[0].color, Palette::FgConfirm);
    let insert: Vec<&str> = status_bar(AppMode::Insert).iter().map(|s| s.text).collect();
    assert_eq!(insert.concat(), " Type issue title, Enter save  Esc cancel");
}

use slate::model::{issue_from_row, IssueSummary, Priority, Status, Timestamp};

fn stamp() -> Timestamp {
    Timestamp::new(2024, 3, 14, 9, 26, 53).unwrap()
}

#[test]
fn status_texts() {
    assert_eq!(Status::Todo.as_str(), "todo");
    assert_eq!(Status::InProgress.as_str(), "in_progress");
    assert_eq!(Status::Done.as_str(), "done");
    assert_eq!(Status::InProgress.display_name(), "In Progress");
    assert_eq!(Status::Done.icon(), "●");
    assert_eq!(Status::all(), [Status::Todo, Status::InProgress, Status::Done]);
}

#[test]
fn status_workflow_steps() {
    assert_eq!(Status::Todo.next(), Some(Status::InProgress));
    assert_eq!(Status::InProgress.next(), Some(Status::Done));
    assert_eq!(Status::Done.next(), None);
    assert_eq!(Status::Todo.prev(), None);
    assert_eq!(Status::Done.prev(), Some(Status::InProgress));
    for s in Status::all() {
        if let Some(n) = s.next() {
            assert_eq!(n.prev(), Some(s));
        }
    }
}

#[test]
fn status_read_back_from_text() {
    for s in Status::all() {
        assert_eq!(Status::try_from(s.as_str()), Ok(s));
    }
    assert_eq!(Status::try_from("archived"), Err("Unknown status: archived".to_string()));
    assert_eq!(Status::try_from("Todo"), Err("Unknown status: Todo".to_string()));
    assert_eq!(Status::try_from(""), Err("Unknown status: ".to_string()));
}

#[test]
fn priority_from_number() {
    assert_eq!(Priority::from_i32(0), Priority::Unset);
    assert_eq!(Priority::from_i32(1), Priority::Low);
    assert_eq!(Priority::from_i32(2), Priority::Medium);
    assert_eq!(Priority::from_i32(3), Priority::High);
    assert_eq!(Priority::from_i32(4), Priority::Unset);
    assert_eq!(Priority::from_i32(-1), Priority::Unset);
    assert!(Priority::High > Priority::Medium && Priority::Low > Priority::Unset);
    assert_eq!(Priority::High.icon(), "▆▇");
    assert_eq!(Priority::Unset.icon(), "  ");
}

#[test]
fn timestamps_must_exist() {
    assert!(Timestamp::new(2024, 2, 29, 0, 0, 0).is_some());
    assert!(Timestamp::new(2023, 2, 29, 0, 0, 0).is_none());
    assert!(Timestamp::new(1900, 2, 29, 0, 0, 0).is_none());
    assert!(Timestamp::new(2000, 2, 29, 0, 0, 0).is_some());
    assert!(Timestamp::new(2024, 4, 31, 0, 0, 0).is_none());
    assert!(Timestamp::new(2024, 13, 1, 0, 0, 0).is_none());
    assert!(Timestamp::new(2024, 0, 1, 0, 0, 0).is_none());
    assert!(Timestamp::new(2024, 1, 0, 0, 0, 0).is_none());
    assert!(Timestamp::new(2024, 1, 1, 24, 0, 0).is_none());
    assert!(Timestamp::new(2024, 1, 1, 23, 60, 0).is_none());
    assert!(Timestamp::new(2024, 1, 1, 23, 59, 60).is_none());
    assert!(Timestamp::new(400000, 1, 1, 0, 0, 0).is_none());
    let t = stamp();
    assert_eq!((t.year(), t.month(), t.day(), t.hour(), t.minute(), t.second()), (2024, 3, 14, 9, 26, 53));
}

#[test]
fn created_lines() {
    assert_eq!(stamp().created_line(), "Created Mar 2024");
    assert_eq!(Timestamp::new(42, 12, 1, 0, 0, 0).unwrap().created_line(), "Created Dec 0042");
    assert_eq!(Timestamp::new(-5, 1, 1, 0, 0, 0).unwrap().created_line(), "Created Jan -0005");
    assert_eq!(Timestamp::new(12345, 7, 1, 0, 0, 0).unwrap().created_line(), "Created Jul +12345");
}

#[test]
fn rows_become_summaries() {
    let s: IssueSummary = issue_from_row(7, "ST", 12, "Write docs".to_string(), "in_progress", 3, stamp());
    assert_eq!(s.id, 7);
    assert_eq!(s.issue_id, "ST-12");
    assert_eq!(s.title, "Write docs");
    assert_eq!(s.status, Status::InProgress);
    assert_eq!(s.priority, Priority::High);
    assert_eq!(s.card_height(), 5);
    let odd = issue_from_row(8, "AB", -3, "x".to_string(), "weird", 9, stamp());
    assert_eq!(odd.issue_id, "AB--3");
    assert_eq!(odd.status, Status::Todo);
    assert_eq!(odd.priority, Priority::Unset);
    let zero = issue_from_row(9, "ST", 0, "y".to_string(), "done", 1, stamp());
    assert_eq!(zero.issue_id, "ST-0");
    assert_eq!(zero.status, Status::Done);
    let big = issue_from_row(10, "ST", i64::MIN, "z".to_string(), "todo", 2, stamp());
    assert_eq!(big.issue_id, "ST--9223372036854775808");
}

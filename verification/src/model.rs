//! Issues and their workflow: statuses, priorities, timestamps.
use vstd::prelude::*;
use crate::text::{same_text, push_char, push_signed_decimal, signed_decimal, zero_padded};

verus! {

/// The workflow state of an issue; each state has a column on the board.
#[derive(Debug, Clone, Copy, PartialEq, Eq, Hash, Structural)]
pub enum Status {
    Todo,
    InProgress,
    Done,
}

/// The text by which a status is stored.
pub open spec fn status_text(s: Status) -> Seq<char> {
    match s {
        Status::Todo => "todo"@,
        Status::InProgress => "in_progress"@,
        Status::Done => "done"@,
    }
}

/// The successor of a status in the workflow Todo, In Progress, Done.
pub open spec fn status_after(s: Status) -> Option<Status> {
    match s {
        Status::Todo => Some(Status::InProgress),
        Status::InProgress => Some(Status::Done),
        Status::Done => None,
    }
}

/// The predecessor of a status in the workflow Todo, In Progress, Done.
pub open spec fn status_before(s: Status) -> Option<Status> {
    match s {
        Status::Todo => None,
        Status::InProgress => Some(Status::Todo),
        Status::Done => Some(Status::InProgress),
    }
}

/// The board's columns, left to right: one per status.
pub open spec fn board_order() -> Seq<Status> {
    seq![Status::Todo, Status::InProgress, Status::Done]
}

/// The position of a status's column on the board.
pub open spec fn column_index(s: Status) -> int {
    match s {
        Status::Todo => 0,
        Status::InProgress => 1,
        Status::Done => 2,
    }
}

/// The message of a refused status text.
pub open spec fn unknown_status_message(text: Seq<char>) -> Seq<char> {
    "Unknown status: "@ + text
}

impl Status {
    /// The stored text: `todo`, `in_progress` or `done`.
    pub fn as_str(&self) -> (r: &'static str)
        ensures
            r@ == status_text(*self),
    {
        match self {
            Status::Todo => "todo",
            Status::InProgress => "in_progress",
            Status::Done => "done",
        }
    }

    /// The name shown in a column header.
    pub fn display_name(&self) -> (r: &'static str)
        ensures
            r@ == (match *self {
                Status::Todo => "Todo"@,
                Status::InProgress => "In Progress"@,
                Status::Done => "Done"@,
            }),
    {
        match self {
            Status::Todo => "Todo",
            Status::InProgress => "In Progress",
            Status::Done => "Done",
        }
    }

    /// The icon shown in a column header.
    pub fn icon(&self) -> (r: &'static str)
        ensures
            r@ == (match *self {
                Status::Todo => "○"@,
                Status::InProgress => "◐"@,
                Status::Done => "●"@,
            }),
    {
        match self {
            Status::Todo => "○",
            Status::InProgress => "◐",
            Status::Done => "●",
        }
    }

    /// Every status, in board order.
    pub fn all() -> (r: [Status; 3])
        ensures
            r@ == board_order(),
    {
        let r = [Status::Todo, Status::InProgress, Status::Done];
        assert(r@ =~= board_order());
        r
    }

    /// The next status in the workflow; `None` after `Done`.
    pub fn next(&self) -> (r: Option<Status>)
        ensures
            r == status_after(*self),
    {
        match self {
            Status::Todo => Some(Status::InProgress),
            Status::InProgress => Some(Status::Done),
            Status::Done => None,
        }
    }

    /// The previous status in the workflow; `None` before `Todo`.
    pub fn prev(&self) -> (r: Option<Status>)
        ensures
            r == status_before(*self),
    {
        match self {
            Status::Todo => None,
            Status::InProgress => Some(Status::Todo),
            Status::Done => Some(Status::InProgress),
        }
    }

    /// Reads a stored status text. Exactly the three stored texts are
    /// accepted; any other text is refused with `Unknown status: <text>`.
    pub fn try_from(text: &str) -> (r: Result<Status, String>)
        ensures
            match r {
                Ok(s) => status_text(s) == text@,
                Err(e) => (forall|s: Status| status_text(s) != text@)
                    && e@ == unknown_status_message(text@),
            },
    {
        if same_text(text, "todo") {
            Ok(Status::Todo)
        } else if same_text(text, "in_progress") {
            Ok(Status::InProgress)
        } else if same_text(text, "done") {
            Ok(Status::Done)
        } else {
            let mut e = String::from_str("Unknown status: ");
            e.append(text);
            Err(e)
        }
    }
}

/// Stored texts identify statuses: two statuses are equal exactly when
/// their stored texts are, so reading back the text of a status gives it.
pub proof fn lemma_status_text_identifies(a: Status, b: Status)
    ensures
        (status_text(a) == status_text(b)) == (a == b),
{
    reveal_strlit("todo");
    reveal_strlit("in_progress");
    reveal_strlit("done");
    if a != b {
        assert(status_text(a).len() != status_text(b).len() || status_text(a)[0] != status_text(b)[0]);
    }
}

/// Moving one step forward and then one step back returns to the same
/// status, and the other way round.
pub proof fn lemma_next_prev_inverse(a: Status, b: Status)
    ensures
        status_after(a) == Some(b) <==> status_before(b) == Some(a),
{
}

/// How urgent an issue is, from none to high; ordered by urgency.
#[derive(Debug, Clone, Copy, PartialEq, Eq, PartialOrd, Ord, Structural)]
pub enum Priority {
    Unset,
    Low,
    Medium,
    High,
}

/// The stored number of a priority: 0 to 3 by urgency.
pub open spec fn priority_level(p: Priority) -> int {
    match p {
        Priority::Unset => 0,
        Priority::Low => 1,
        Priority::Medium => 2,
        Priority::High => 3,
    }
}

/// The priority of a stored number: 1 to 3 by urgency, and no priority
/// for any other number.
pub open spec fn priority_of(v: int) -> Priority {
    if v == 1 {
        Priority::Low
    } else if v == 2 {
        Priority::Medium
    } else if v == 3 {
        Priority::High
    } else {
        Priority::Unset
    }
}

impl Priority {
    /// The two-column bar icon of a priority.
    pub fn icon(&self) -> (r: &'static str)
        ensures
            r@ == (match *self {
                Priority::Unset => "  "@,
                Priority::Low => "▁▂"@,
                Priority::Medium => "▃▄"@,
                Priority::High => "▆▇"@,
            }),
    {
        match self {
            Priority::Unset => "  ",
            Priority::Low => "▁▂",
            Priority::Medium => "▃▄",
            Priority::High => "▆▇",
        }
    }

    /// Reads a stored priority number; numbers other than 1, 2, 3 read as
    /// no priority.
    pub fn from_i32(v: i32) -> (r: Priority)
        ensures
            r == priority_of(v as int),
    {
        match v {
            1 => Priority::Low,
            2 => Priority::Medium,
            3 => Priority::High,
            _ => Priority::Unset,
        }
    }
}

/// Reading a priority's stored number back gives the priority.
pub proof fn lemma_priority_level_roundtrip(p: Priority, q: Priority)
    ensures
        (priority_level(p) == priority_level(q)) == (p == q),
        0 <= priority_level(p) <= 3,
        priority_of(priority_level(p)) == p,
{
}

/// The smallest and largest years of a calendar date.
pub open spec fn min_year() -> int {
    -262143
}

pub open spec fn max_year() -> int {
    262142
}

/// Leap years of the proleptic Gregorian calendar.
pub open spec fn is_leap_year(y: int) -> bool {
    y % 4 == 0 && (y % 100 != 0 || y % 400 == 0)
}

/// The number of days of a month (1 to 12) of a year.
pub open spec fn days_in_month(y: int, m: int) -> int {
    if m == 2 {
        if is_leap_year(y) { 29 } else { 28 }
    } else if m == 4 || m == 6 || m == 9 || m == 11 {
        30
    } else {
        31
    }
}

/// A date and a time of day that exist in the proleptic Gregorian calendar.
pub open spec fn valid_date_time(y: int, mo: int, d: int, h: int, mi: int, s: int) -> bool {
    &&& min_year() <= y <= max_year()
    &&& 1 <= mo <= 12
    &&& 1 <= d <= days_in_month(y, mo)
    &&& 0 <= h < 24
    &&& 0 <= mi < 60
    &&& 0 <= s < 60
}

/// A local date and time, to the second, that exists in the calendar.
#[derive(Debug, Clone, Copy)]
pub struct Timestamp {
    year: i32,
    month: u32,
    day: u32,
    hour: u32,
    minute: u32,
    second: u32,
}

impl Timestamp {
    #[verifier::type_invariant]
    spec fn inv(self) -> bool {
        valid_date_time(self.year as int, self.month as int, self.day as int,
            self.hour as int, self.minute as int, self.second as int)
    }

    pub closed spec fn year_of(self) -> int {
        self.year as int
    }

    pub closed spec fn month_of(self) -> int {
        self.month as int
    }

    pub closed spec fn day_of(self) -> int {
        self.day as int
    }

    pub closed spec fn hour_of(self) -> int {
        self.hour as int
    }

    pub closed spec fn minute_of(self) -> int {
        self.minute as int
    }

    pub closed spec fn second_of(self) -> int {
        self.second as int
    }

    /// The timestamp of the given fields; `None` when they name no date and
    /// time of the calendar.
    pub fn new(year: i32, month: u32, day: u32, hour: u32, minute: u32, second: u32) -> (r: Option<Timestamp>)
        ensures
            r is Some <==> valid_date_time(year as int, month as int, day as int, hour as int,
                minute as int, second as int),
            r matches Some(t) ==> t.year_of() == year && t.month_of() == month && t.day_of() == day
                && t.hour_of() == hour && t.minute_of() == minute && t.second_of() == second,
    {
        if year < -262143 || year > 262142 || month < 1 || month > 12 || hour >= 24 || minute >= 60
            || second >= 60 || day < 1 {
            return None;
        }
        let leap = year % 4 == 0 && (year % 100 != 0 || year % 400 == 0);
        assert(leap == is_leap_year(year as int)) by {
            assert(year % 4 == (year as int) % 4);
        }
        let days: u32 = if month == 2 {
            if leap { 29 } else { 28 }
        } else if month == 4 || month == 6 || month == 9 || month == 11 {
            30
        } else {
            31
        };
        if day > days {
            return None;
        }
        Some(Timestamp { year, month, day, hour, minute, second })
    }

    pub fn year(&self) -> (r: i32)
        ensures
            r == self.year_of(),
    {
        self.year
    }

    pub fn month(&self) -> (r: u32)
        ensures
            r == self.month_of(),
    {
        self.month
    }

    pub fn day(&self) -> (r: u32)
        ensures
            r == self.day_of(),
    {
        self.day
    }

    pub fn hour(&self) -> (r: u32)
        ensures
            r == self.hour_of(),
    {
        self.hour
    }

    pub fn minute(&self) -> (r: u32)
        ensures
            r == self.minute_of(),
    {
        self.minute
    }

    pub fn second(&self) -> (r: u32)
        ensures
            r == self.second_of(),
    {
        self.second
    }
}

/// The three-letter English name of a month (1 to 12).
pub open spec fn month_abbreviation(m: int) -> Seq<char> {
    if m == 1 { "Jan"@ }
    else if m == 2 { "Feb"@ }
    else if m == 3 { "Mar"@ }
    else if m == 4 { "Apr"@ }
    else if m == 5 { "May"@ }
    else if m == 6 { "Jun"@ }
    else if m == 7 { "Jul"@ }
    else if m == 8 { "Aug"@ }
    else if m == 9 { "Sep"@ }
    else if m == 10 { "Oct"@ }
    else if m == 11 { "Nov"@ }
    else { "Dec"@ }
}

/// A year as `%Y` writes it: four digits with leading zeros within 0 to
/// 9999, and otherwise a sign before at least four digits.
pub open spec fn year_text(y: int) -> Seq<char> {
    if 0 <= y <= 9999 {
        zero_padded(y as nat, 4)
    } else if y < 0 {
        seq!['-'] + zero_padded((-y) as nat, 4)
    } else {
        seq!['+'] + zero_padded(y as nat, 4)
    }
}

/// The creation line of a card: `Created <Mon> <year>`.
pub open spec fn created_text(year: int, month: int) -> Seq<char> {
    "Created "@ + month_year_text(year, month)
}

/// The month and year as `%b %Y` writes them: the English month
/// abbreviation, a space and the year.
pub open spec fn month_year_text(year: int, month: int) -> Seq<char> {
    month_abbreviation(month) + " "@ + year_text(year)
}

/// `chrono::NaiveDate::from_ymd_opt(year, month, 1)` followed by
/// `format("%b %Y").to_string()`. Contract: there is a result exactly when
/// the month is 1 to 12 and the year lies in chrono's range; it is the
/// English month abbreviation, a space and the year as `%Y` writes it
/// (chrono's default locale).
#[verifier::external_body]
fn chrono_month_year(year: i32, month: u32) -> (r: Option<String>)
    ensures
        r is Some <==> (1 <= month <= 12 && min_year() <= year <= max_year()),
        r matches Some(s) ==> s@ == month_year_text(year as int, month as int),
{
    match chrono::NaiveDate::from_ymd_opt(year, month, 1) {
        Some(d) => Some(d.format("%b %Y").to_string()),
        None => None,
    }
}

impl Timestamp {
    /// The line `Created <Mon> <year>` of this timestamp.
    pub fn created_line(&self) -> (r: String)
        ensures
            r@ == created_text(self.year_of(), self.month_of()),
    {
        proof {
            use_type_invariant(self);
        }
        match chrono_month_year(self.year, self.month) {
            Some(s) => {
                let mut line = String::from_str("Created ");
                line.append(s.as_str());
                line
            },
            None => {
                proof {
                    assert(false);
                }
                String::new()
            },
        }
    }
}

/// The short summary of an issue that a card shows.
#[derive(Debug, Clone)]
pub struct IssueSummary {
    pub id: i64,
    pub issue_id: String,
    pub title: String,
    pub status: Status,
    pub priority: Priority,
    pub created_at: Timestamp,
}

/// The height of every card in lines: two borders and three text lines.
pub open spec fn card_lines() -> int {
    5
}

impl IssueSummary {
    /// The height of the card in lines.
    pub fn card_height(&self) -> (r: u16)
        ensures
            r == card_lines(),
    {
        5
    }
}

/// The identifier shown on a card: the prefix, a hyphen and the number.
pub open spec fn issue_key(prefix: Seq<char>, number: int) -> Seq<char> {
    prefix + seq!['-'] + signed_decimal(number)
}

/// The status that a stored status text stands for; an unknown text stands
/// for `Todo`.
pub open spec fn stored_status(text: Seq<char>) -> Status {
    if text == status_text(Status::InProgress) {
        Status::InProgress
    } else if text == status_text(Status::Done) {
        Status::Done
    } else {
        Status::Todo
    }
}

/// Builds the summary of a stored issue row.
pub fn issue_from_row(
    id: i64,
    prefix: &str,
    number: i64,
    title: String,
    status_text: &str,
    priority: i32,
    created_at: Timestamp,
) -> (r: IssueSummary)
    ensures
        r.id == id,
        r.issue_id@ == issue_key(prefix@, number as int),
        r.title == title,
        r.status == stored_status(status_text@),
        r.priority == priority_of(priority as int),
        r.created_at == created_at,
{
    let mut issue_id = String::from_str(prefix);
    push_char(&mut issue_id, '-');
    push_signed_decimal(&mut issue_id, number);
    let status = match Status::try_from(status_text) {
        Ok(s) => s,
        Err(_) => Status::Todo,
    };
    proof {
        lemma_status_text_identifies(status, Status::InProgress);
        lemma_status_text_identifies(status, Status::Done);
    }
    IssueSummary {
        id,
        issue_id,
        title,
        status,
        priority: Priority::from_i32(priority),
        created_at,
    }
}

} // verus!

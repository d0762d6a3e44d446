//! What the board shows: the text, colors and layout decisions of cards,
//! columns and the status bar, apart from drawing them.
use vstd::prelude::*;
use crate::app::{AppMode, ColumnState};
use crate::model::{IssueSummary, Priority, Status, card_lines, created_text};
use crate::text::{chars_of, decimal, push_decimal, string_of, truncated};
use crate::theme::Palette;

verus! {

/// Cuts a text to at most `max_len` characters: a longer text keeps its
/// first `max_len - 3` characters and ends with `...` when `max_len` is
/// more than 3, else keeps its first `max_len` characters.
pub fn truncate(s: &str, max_len: usize) -> (r: String)
    ensures
        r@ == truncated(s@, max_len as nat),
{
    let v = chars_of(s);
    let n = v.len();
    if n <= max_len {
        string_of(&v, 0, n)
    } else if max_len > 3 {
        let mut r = string_of(&v, 0, max_len - 3);
        r.append("...");
        r
    } else {
        string_of(&v, 0, max_len)
    }
}

/// A truncated text has exactly as many characters as the untruncated text or the
/// limit, whichever is fewer, and starts like the untruncated text.
pub proof fn lemma_truncated_length(s: Seq<char>, max_len: nat)
    ensures
        truncated(s, max_len).len() == if s.len() <= max_len { s.len() } else { max_len },
        max_len > 3 && s.len() > max_len ==> truncated(s, max_len).take(max_len - 3) == s.take(max_len - 3),
        max_len <= 3 || s.len() <= max_len ==> s.take(truncated(s, max_len).len() as int) == truncated(s, max_len),
{
    reveal_strlit("...");
    if s.len() > max_len && max_len > 3 {
        assert(truncated(s, max_len).take(max_len - 3) =~= s.take(max_len - 3));
    }
    if s.len() <= max_len {
        assert(s.take(s.len() as int) =~= s);
    }
}

/// A title cut to `max_len > 3` characters ends with three dots after its
/// first `max_len - 3` characters; a title that fits is kept whole.
pub proof fn law_truncated_shape(s: Seq<char>, max_len: nat)
    ensures
        s.len() <= max_len ==> truncated(s, max_len) == s,
        s.len() > max_len > 3 ==> truncated(s, max_len) == s.take(max_len - 3) + seq!['.', '.', '.'],
        s.len() > max_len && max_len <= 3 ==> truncated(s, max_len) == s.take(max_len as int),
{
    reveal_strlit("...");
    assert("..."@ =~= seq!['.', '.', '.']);
}

/// The status mark of a card.
pub open spec fn card_mark(s: Status) -> Seq<char> {
    match s {
        Status::Todo => "○"@,
        Status::InProgress => "◐"@,
        Status::Done => "✓"@,
    }
}

/// The accent color of a card of a status.
pub open spec fn card_accent(s: Status) -> Palette {
    match s {
        Status::Todo => Palette::CardAccentTodo,
        Status::InProgress => Palette::CardAccentInProgress,
        Status::Done => Palette::CardAccentDone,
    }
}

/// The color of a priority's icon.
pub open spec fn priority_palette(p: Priority) -> Palette {
    match p {
        Priority::Unset => Palette::PriorityNone,
        Priority::Low => Palette::PriorityLow,
        Priority::Medium => Palette::PriorityMedium,
        Priority::High => Palette::PriorityHigh,
    }
}

/// The icon of a priority.
pub open spec fn priority_icon_text(p: Priority) -> Seq<char> {
    match p {
        Priority::Unset => "  "@,
        Priority::Low => "▁▂"@,
        Priority::Medium => "▃▄"@,
        Priority::High => "▆▇"@,
    }
}

/// The color of a priority's icon.
pub fn priority_color(priority: Priority) -> (r: Palette)
    ensures
        r == priority_palette(priority),
{
    match priority {
        Priority::Unset => Palette::PriorityNone,
        Priority::Low => Palette::PriorityLow,
        Priority::Medium => Palette::PriorityMedium,
        Priority::High => Palette::PriorityHigh,
    }
}

/// What a card shows, line by line, and in which colors.
pub struct CardText {
    /// The status mark, a space and the issue identifier.
    pub id_part: String,
    pub id_color: Palette,
    /// The spaces between the identifier and the priority icon.
    pub padding: usize,
    pub priority_icon: &'static str,
    pub priority_color: Palette,
    /// The title, cut to the card's width.
    pub title: String,
    pub title_color: Palette,
    /// Whether the title is crossed out (done issues) rather than bold.
    pub title_crossed_out: bool,
    /// `Created <Mon> <year>`.
    pub created: String,
    pub background: Palette,
    pub border: Palette,
    /// Whether an accent bar is drawn over the left border.
    pub accent_bar: bool,
}

/// The text and colors of a card `width` characters wide inside its border
/// and `height` lines high with it.
pub fn card_text(issue: &IssueSummary, width: u16, height: u16, is_selected: bool) -> (r: CardText)
    ensures
        r.id_part@ == card_mark(issue.status) + " "@ + issue.issue_id@,
        r.id_color == card_accent(issue.status),
        r.padding == if width >= r.id_part@.len() + priority_icon_text(issue.priority).len() {
            width - (r.id_part@.len() + priority_icon_text(issue.priority).len())
        } else {
            0
        },
        r.priority_icon@ == priority_icon_text(issue.priority),
        r.priority_color == priority_palette(issue.priority),
        r.title@ == truncated(issue.title@, width as nat),
        r.title_crossed_out == (issue.status == Status::Done),
        r.title_color == (if issue.status == Status::Done { Palette::FgSecondary } else { Palette::FgPrimary }),
        r.created@ == created_text(issue.created_at.year_of(), issue.created_at.month_of()),
        r.background == (if is_selected { Palette::BgCardSelected } else { Palette::BgCard }),
        r.border == (if is_selected { Palette::FgBorderActive } else { Palette::FgBorder }),
        r.accent_bar == (is_selected && height >= 3),
{
    let (mark, id_color) = match issue.status {
        Status::Todo => ("○", Palette::CardAccentTodo),
        Status::InProgress => ("◐", Palette::CardAccentInProgress),
        Status::Done => ("✓", Palette::CardAccentDone),
    };
    let mut id_part = String::from_str(mark);
    id_part.append(" ");
    id_part.append(issue.issue_id.as_str());
    let priority_icon = issue.priority.icon();
    let id_len = chars_of(id_part.as_str()).len();
    let icon_len = chars_of(priority_icon).len();
    let room = width as usize;
    let padding: usize = if id_len <= room && icon_len <= room - id_len { room - id_len - icon_len } else { 0 };
    let title = truncate(issue.title.as_str(), width as usize);
    let done = match issue.status {
        Status::Done => true,
        _ => false,
    };
    CardText {
        id_part,
        id_color,
        padding,
        priority_icon,
        priority_color: priority_color(issue.priority),
        title,
        title_color: if done { Palette::FgSecondary } else { Palette::FgPrimary },
        title_crossed_out: done,
        created: issue.created_at.created_line(),
        background: if is_selected { Palette::BgCardSelected } else { Palette::BgCard },
        border: if is_selected { Palette::FgBorderActive } else { Palette::FgBorder },
        accent_bar: is_selected && height >= 3,
    }
}

/// Which cards of a column fit in its card area, and how many are hidden
/// above and below.
pub struct CardWindow {
    /// The index of the first card shown.
    pub first: usize,
    /// How many cards are shown, from `first` on.
    pub count: usize,
    /// The number given by the "more above" mark; no mark when 0.
    pub hidden_above: usize,
    /// The number given by the "more below" mark; no mark when 0.
    pub hidden_below: usize,
    /// The card drawn as selected, if the column is active.
    pub selected: Option<usize>,
}

/// How many cards fit from the scroll position on in `height` lines.
pub open spec fn shown_count(c: ColumnState, height: int) -> int {
    let rest = c.issues@.len() - c.scroll_offset;
    if rest <= 0 {
        0
    } else if rest < height / card_lines() {
        rest
    } else {
        height / card_lines()
    }
}

/// Which cards of a column `height` lines high are shown: whole cards from
/// the scroll position on, as many as fit.
pub fn card_window(col: &ColumnState, height: u16, is_active: bool) -> (r: CardWindow)
    ensures
        r.first == col.scroll_offset,
        r.count == shown_count(*col, height as int),
        r.hidden_above == col.scroll_offset,
        r.hidden_below == if col.scroll_offset + r.count < col.issues@.len() {
            col.issues@.len() - col.scroll_offset - r.count
        } else {
            0
        },
        r.selected == (if is_active { Some(col.selected) } else { None::<usize> }),
{
    let n = col.issues.len();
    let fit: usize = (height / 5) as usize;
    let count: usize = if col.scroll_offset >= n {
        0
    } else if n - col.scroll_offset < fit {
        n - col.scroll_offset
    } else {
        fit
    };
    let below: usize = if col.scroll_offset >= n {
        0
    } else {
        n - col.scroll_offset - count
    };
    CardWindow {
        first: col.scroll_offset,
        count,
        hidden_above: col.scroll_offset,
        hidden_below: below,
        selected: if is_active { Some(col.selected) } else { None },
    }
}

/// Every card of a column is shown, hidden above, or hidden below, when the
/// scroll position lies within the column; at most `height / 5` are shown.
pub proof fn lemma_window_covers_column(c: ColumnState, height: nat)
    requires
        c.scroll_offset <= c.issues@.len(),
    ensures
        c.scroll_offset + shown_count(c, height as int) + (c.issues@.len() - c.scroll_offset
            - shown_count(c, height as int)) == c.issues@.len(),
        0 <= shown_count(c, height as int) <= (height as int) / card_lines(),
        shown_count(c, height as int) * card_lines() <= height,
{
}

/// The header line of a column.
pub struct ColumnHeader {
    pub icon: &'static str,
    pub icon_color: Palette,
    pub name: &'static str,
    pub name_color: Palette,
    pub name_bold: bool,
    /// `<loaded>/<total>`: the issues loaded and the issues of the status.
    pub counts: String,
}

/// The color of a status in column headers.
pub open spec fn status_palette(s: Status) -> Palette {
    match s {
        Status::Todo => Palette::StatusTodo,
        Status::InProgress => Palette::StatusInProgress,
        Status::Done => Palette::StatusDone,
    }
}

/// The header of a column.
pub fn column_header(col: &ColumnState, is_active: bool) -> (r: ColumnHeader)
    ensures
        r.icon@ == (match col.status {
            Status::Todo => "○"@,
            Status::InProgress => "◐"@,
            Status::Done => "●"@,
        }),
        r.icon_color == status_palette(col.status),
        r.name@ == (match col.status {
            Status::Todo => "Todo"@,
            Status::InProgress => "In Progress"@,
            Status::Done => "Done"@,
        }),
        r.name_color == (if is_active { Palette::FgPrimary } else { Palette::FgSecondary }),
        r.name_bold == is_active,
        r.counts@ == decimal(col.issues@.len()) + "/"@ + decimal(col.total_count as nat),
{
    let icon_color = match col.status {
        Status::Todo => Palette::StatusTodo,
        Status::InProgress => Palette::StatusInProgress,
        Status::Done => Palette::StatusDone,
    };
    let mut counts = String::new();
    push_decimal(&mut counts, col.issues.len() as u64);
    counts.append("/");
    push_decimal(&mut counts, col.total_count as u64);
    proof {
        assert(counts@ =~= decimal(col.issues@.len()) + "/"@ + decimal(col.total_count as nat));
    }
    ColumnHeader {
        icon: col.status.icon(),
        icon_color,
        name: col.status.display_name(),
        name_color: if is_active { Palette::FgPrimary } else { Palette::FgSecondary },
        name_bold: is_active,
        counts,
    }
}

/// The border color of a column.
pub fn column_border(is_active: bool) -> (r: Palette)
    ensures
        r == (if is_active { Palette::FgBorderActive } else { Palette::FgBorder }),
{
    if is_active { Palette::FgBorderActive } else { Palette::FgBorder }
}

/// Whether a column shows the input line: it is active and a title is being
/// typed.
pub fn shows_input(is_active: bool, mode: AppMode) -> (r: bool)
    ensures
        r == (is_active && mode == AppMode::Insert),
{
    is_active && mode == AppMode::Insert
}

/// What an empty column shows.
pub struct EmptyState {
    pub icon: &'static str,
    pub message: &'static str,
    pub color: Palette,
    /// The hint to add an issue, shown in the active column only.
    pub hint: &'static str,
}

/// What an empty column of a status shows.
pub fn empty_state(status: Status, is_active: bool) -> (r: EmptyState)
    ensures
        r.icon@ == (match status {
            Status::Todo => "    ○"@,
            Status::InProgress => "    ◐"@,
            Status::Done => "    ●"@,
        }),
        r.message@ == (match status {
            Status::Todo => "Nothing on your slate"@,
            Status::InProgress => "All clear for now"@,
            Status::Done => "Finish something!"@,
        }),
        r.color == status_palette(status),
        r.hint@ == (if is_active { "press 'n' to add"@ } else { ""@ }),
{
    let (icon, message, color) = match status {
        Status::Todo => ("    ○", "Nothing on your slate", Palette::StatusTodo),
        Status::InProgress => ("    ◐", "All clear for now", Palette::StatusInProgress),
        Status::Done => ("    ●", "Finish something!", Palette::StatusDone),
    };
    let hint = if is_active { "press 'n' to add" } else { "" };
    EmptyState { icon, message, color, hint }
}

/// A piece of text in one color.
pub struct Span {
    pub text: &'static str,
    pub color: Palette,
}

/// The view of a span.
pub open spec fn span_of(s: Span) -> (Seq<char>, Palette) {
    (s.text@, s.color)
}

/// The key hints of the status bar in each mode.
pub open spec fn status_bar_of(mode: AppMode) -> Seq<(Seq<char>, Palette)> {
    match mode {
        AppMode::Normal => seq![
            (" h/l"@, Palette::FgAccent),
            (" columns  "@, Palette::FgDim),
            ("j/k"@, Palette::FgAccent),
            (" scroll  "@, Palette::FgDim),
            ("n"@, Palette::FgAccent),
            (" new  "@, Palette::FgDim),
            ("m/M"@, Palette::FgAccent),
            (" move  "@, Palette::FgDim),
            ("d"@, Palette::FgAccent),
            (" delete  "@, Palette::FgDim),
            ("q"@, Palette::FgAccent),
            (" quit"@, Palette::FgDim),
        ],
        AppMode::Insert => seq![
            (" Type issue title, "@, Palette::FgDim),
            ("Enter"@, Palette::FgAccent),
            (" save  "@, Palette::FgDim),
            ("Esc"@, Palette::FgAccent),
            (" cancel"@, Palette::FgDim),
        ],
        AppMode::Confirm => seq![
            (" Delete issue? "@, Palette::FgConfirm),
            ("y"@, Palette::FgAccent),
            (" yes  "@, Palette::FgDim),
            ("n/Esc"@, Palette::FgAccent),
            (" cancel"@, Palette::FgDim),
        ],
    }
}

/// The key hints of the status bar.
pub fn status_bar(mode: AppMode) -> (r: Vec<Span>)
    ensures
        r@.map_values(|s: Span| span_of(s)) == status_bar_of(mode),
{
    let mut r: Vec<Span> = Vec::new();
    match mode {
        AppMode::Normal => {
            r.push(Span { text: " h/l", color: Palette::FgAccent });
            r.push(Span { text: " columns  ", color: Palette::FgDim });
            r.push(Span { text: "j/k", color: Palette::FgAccent });
            r.push(Span { text: " scroll  ", color: Palette::FgDim });
            r.push(Span { text: "n", color: Palette::FgAccent });
            r.push(Span { text: " new  ", color: Palette::FgDim });
            r.push(Span { text: "m/M", color: Palette::FgAccent });
            r.push(Span { text: " move  ", color: Palette::FgDim });
            r.push(Span { text: "d", color: Palette::FgAccent });
            r.push(Span { text: " delete  ", color: Palette::FgDim });
            r.push(Span { text: "q", color: Palette::FgAccent });
            r.push(Span { text: " quit", color: Palette::FgDim });
        },
        AppMode::Insert => {
            r.push(Span { text: " Type issue title, ", color: Palette::FgDim });
            r.push(Span { text: "Enter", color: Palette::FgAccent });
            r.push(Span { text: " save  ", color: Palette::FgDim });
            r.push(Span { text: "Esc", color: Palette::FgAccent });
            r.push(Span { text: " cancel", color: Palette::FgDim });
        },
        AppMode::Confirm => {
            r.push(Span { text: " Delete issue? ", color: Palette::FgConfirm });
            r.push(Span { text: "y", color: Palette::FgAccent });
            r.push(Span { text: " yes  ", color: Palette::FgDim });
            r.push(Span { text: "n/Esc", color: Palette::FgAccent });
            r.push(Span { text: " cancel", color: Palette::FgDim });
        },
    }
    assert(r@.map_values(|s: Span| span_of(s)) =~= status_bar_of(mode));
    r
}

} // verus!

//! What each key does and what finishing a write leaves, stated over every
//! board: the keybindings of the board as laws about `key_step` and
//! `finished_of`, which `handle_key` and `complete_write` follow exactly.
use vstd::prelude::*;
use crate::app::{AppMode, AppView, ColumnLoad, ColumnState, board_ok};
use crate::event::{Intent, KeyCode, KeyInput, finished_of, key_step, reloads_of, scrolled_of, visible_cards};
use crate::ui::shown_count;
use crate::model::{Status, board_order, column_index, days_in_month, is_leap_year, max_year, min_year,
    valid_date_time};
use crate::text::trimmed;

verus! {

/// A pressed key, with or without Control.
pub open spec fn pressed(code: KeyCode, ctrl: bool) -> KeyInput {
    KeyInput { code, ctrl, press: true }
}

/// Every column other than `i` is the same on both boards.
pub open spec fn others_same(a: AppView, b: AppView, i: int) -> bool {
    &&& b.columns.len() == a.columns.len()
    &&& forall|j: int| 0 <= j < a.columns.len() && j != i ==> #[trigger] b.columns[j] == a.columns[j]
}

/// In Normal mode, k or Up moves the selection one card up when it is not
/// on the first card, and leaves it on the first card otherwise; nothing
/// else changes but the scrolling, which keeps the selected card in view,
/// and nothing is written.
pub proof fn law_up_selects_previous(a: AppView, code: KeyCode, ctrl: bool)
    requires
        board_ok(a),
        a.mode == AppMode::Normal,
        code == KeyCode::Char('k') || code == KeyCode::Up,
    ensures
        ({
            let (b, w) = key_step(a, pressed(code, ctrl));
            let i = a.active_column as int;
            &&& w is None
            &&& b.active_column == a.active_column && b.mode == a.mode && b.input == a.input
                && b.should_quit == a.should_quit
            &&& others_same(a, b, i)
            &&& b.columns[i].issues == a.columns[i].issues
            &&& b.columns[i].status == a.columns[i].status
            &&& b.columns[i].total_count == a.columns[i].total_count
            &&& a.columns[i].selected > 0 ==> b.columns[i].selected == a.columns[i].selected - 1
            &&& a.columns[i].selected == 0 ==> b.columns[i].selected == 0
            &&& a.columns[i].issues@.len() > 0 ==> b.columns[i].scroll_offset <= b.columns[i].selected
                < b.columns[i].scroll_offset + visible_cards()
        }),
{
}

/// In Normal mode, j or Down moves the selection one card down when there
/// is a card below it, and leaves it otherwise; nothing else changes but the
/// scrolling, and nothing is written.
pub proof fn law_down_selects_next(a: AppView, code: KeyCode, ctrl: bool)
    requires
        board_ok(a),
        a.mode == AppMode::Normal,
        code == KeyCode::Char('j') || code == KeyCode::Down,
    ensures
        ({
            let (b, w) = key_step(a, pressed(code, ctrl));
            let i = a.active_column as int;
            &&& w is None
            &&& b.active_column == a.active_column && b.mode == a.mode && b.input == a.input
                && b.should_quit == a.should_quit
            &&& others_same(a, b, i)
            &&& b.columns[i].issues == a.columns[i].issues
            &&& a.columns[i].selected + 1 < a.columns[i].issues@.len() ==> b.columns[i].selected
                == a.columns[i].selected + 1
            &&& a.columns[i].selected + 1 >= a.columns[i].issues@.len() ==> b.columns[i].selected
                == a.columns[i].selected
            &&& a.columns[i].issues@.len() > 0 ==> b.columns[i].scroll_offset <= b.columns[i].selected
                < b.columns[i].scroll_offset + visible_cards()
        }),
{
}

/// In Normal mode, g selects the first card and scrolls to the top; G
/// selects the last card of a column that has one.
pub proof fn law_first_and_last(a: AppView, ctrl: bool)
    requires
        board_ok(a),
        a.mode == AppMode::Normal,
    ensures
        ({
            let (b, w) = key_step(a, pressed(KeyCode::Char('g'), ctrl));
            let i = a.active_column as int;
            &&& w is None && others_same(a, b, i) && b.mode == a.mode && b.input == a.input
            &&& b.columns[i].selected == 0 && b.columns[i].scroll_offset == 0
            &&& b.columns[i].issues == a.columns[i].issues
        }),
        ({
            let (b, w) = key_step(a, pressed(KeyCode::Char('G'), ctrl));
            let i = a.active_column as int;
            &&& w is None && others_same(a, b, i) && b.mode == a.mode && b.input == a.input
            &&& b.columns[i].issues == a.columns[i].issues
            &&& a.columns[i].issues@.len() > 0 ==> b.columns[i].selected == a.columns[i].issues@.len() - 1
            &&& a.columns[i].issues@.len() == 0 ==> b.columns[i].selected == 0
        }),
{
}

/// In Normal mode, h or Left makes the column to the left active, and l or
/// Right the column to the right, where there is one; nothing else changes.
pub proof fn law_switch_columns(a: AppView, code: KeyCode, ctrl: bool)
    requires
        board_ok(a),
        a.mode == AppMode::Normal,
        code == KeyCode::Char('h') || code == KeyCode::Left || code == KeyCode::Char('l')
            || code == KeyCode::Right,
    ensures
        ({
            let (b, w) = key_step(a, pressed(code, ctrl));
            let left = code == KeyCode::Char('h') || code == KeyCode::Left;
            &&& w is None
            &&& b.columns == a.columns && b.mode == a.mode && b.input == a.input
                && b.should_quit == a.should_quit
            &&& left && a.active_column > 0 ==> b.active_column == a.active_column - 1
            &&& left && a.active_column == 0 ==> b.active_column == 0
            &&& !left && a.active_column < 2 ==> b.active_column == a.active_column + 1
            &&& !left && a.active_column == 2 ==> b.active_column == 2
        }),
{
}

/// In Normal mode, q quits, and n or a opens an empty title input; neither
/// writes anything or touches the columns.
pub proof fn law_quit_and_new(a: AppView, code: KeyCode, ctrl: bool)
    requires
        a.mode == AppMode::Normal,
        code == KeyCode::Char('q') || code == KeyCode::Char('n') || code == KeyCode::Char('a'),
    ensures
        ({
            let (b, w) = key_step(a, pressed(code, ctrl));
            &&& w is None
            &&& b.columns == a.columns && b.active_column == a.active_column
            &&& code == KeyCode::Char('q') ==> b.should_quit && b.mode == AppMode::Normal
                && b.input == a.input
            &&& code != KeyCode::Char('q') ==> b.should_quit == a.should_quit
            &&& code != KeyCode::Char('q') ==> b.mode == AppMode::Insert && b.input.len() == 0
        }),
{
}

/// In Normal mode, d asks for confirmation exactly when the active column
/// has a selected issue; it writes nothing and changes nothing else.
pub proof fn law_delete_asks_first(a: AppView, ctrl: bool)
    requires
        board_ok(a),
        a.mode == AppMode::Normal,
    ensures
        ({
            let (b, w) = key_step(a, pressed(KeyCode::Char('d'), ctrl));
            let c = a.columns[a.active_column as int];
            &&& w is None
            &&& b.columns == a.columns && b.active_column == a.active_column && b.input == a.input
            &&& c.issues@.len() > 0 ==> b.mode == AppMode::Confirm
            &&& c.issues@.len() == 0 ==> b.mode == AppMode::Normal
        }),
{
}

/// In Normal mode, m asks to move the selected issue to the column one
/// step to the right of its status's column, and M one step to the left;
/// the new status is that column's status. Nothing is asked for a Done
/// issue with m, a Todo issue with M, or an empty column; the board itself
/// does not change until the move is written and read back.
pub proof fn law_move_one_column(a: AppView, forward: bool, ctrl: bool)
    requires
        board_ok(a),
        a.mode == AppMode::Normal,
    ensures
        ({
            let code = if forward { KeyCode::Char('m') } else { KeyCode::Char('M') };
            let (b, w) = key_step(a, pressed(code, ctrl));
            let c = a.columns[a.active_column as int];
            &&& b == a
            &&& c.issues@.len() == 0 ==> w is None
            &&& c.issues@.len() > 0 ==> {
                let issue = c.issues@[c.selected as int];
                let target = if forward { column_index(issue.status) + 1 } else { column_index(issue.status) - 1 };
                &&& (0 <= target < 3) ==> w == Some(Intent::Move {
                    id: issue.id,
                    status: board_order()[target],
                    from: a.active_column,
                    to: target as usize,
                })
                &&& !(0 <= target < 3) ==> w is None
            }
        }),
{
}

/// While a title is typed: Esc drops it and returns to Normal mode; a
/// character is appended; Backspace removes the last character; Enter asks
/// to create an issue titled with the trimmed text, in the active column's
/// status, unless that text is empty, in which case it returns to Normal
/// mode. Only Enter with a title writes anything; no key but Enter and Esc
/// leaves the input.
pub proof fn law_typing(a: AppView, c: char, ctrl: bool)
    requires
        board_ok(a),
        a.mode == AppMode::Insert,
        !(ctrl && c == 'c'),
    ensures
        ({
            let (b, w) = key_step(a, pressed(KeyCode::Esc, ctrl));
            &&& w is None && b.mode == AppMode::Normal && b.input.len() == 0
            &&& b.columns == a.columns && b.active_column == a.active_column
        }),
        ({
            let (b, w) = key_step(a, pressed(KeyCode::Char(c), ctrl));
            &&& w is None && b.mode == AppMode::Insert && b.input == a.input.push(c)
            &&& b.columns == a.columns && b.active_column == a.active_column
        }),
        ({
            let (b, w) = key_step(a, pressed(KeyCode::Backspace, ctrl));
            &&& w is None && b.mode == AppMode::Insert && b.columns == a.columns
            &&& a.input.len() > 0 ==> b.input == a.input.subrange(0, a.input.len() - 1)
            &&& a.input.len() == 0 ==> b.input.len() == 0
        }),
        ({
            let (b, w) = key_step(a, pressed(KeyCode::Enter, ctrl));
            let title = trimmed(a.input);
            &&& title.len() > 0 ==> b == a && w == Some(Intent::Create {
                title,
                status: a.columns[a.active_column as int].status,
                column: a.active_column,
            })
            &&& title.len() == 0 ==> w is None && b.mode == AppMode::Normal
                && b.active_column == a.active_column
        }),
{
}

/// While a deletion waits for confirmation: y or Enter asks to delete the
/// selected issue of the active column, and changes nothing until that is
/// written; n or Esc cancels: it writes nothing and only returns to Normal
/// mode.
pub proof fn law_confirm_or_cancel(a: AppView, code: KeyCode, ctrl: bool)
    requires
        board_ok(a),
        a.mode == AppMode::Confirm,
        code == KeyCode::Char('y') || code == KeyCode::Enter || code == KeyCode::Char('n')
            || code == KeyCode::Esc,
    ensures
        ({
            let (b, w) = key_step(a, pressed(code, ctrl));
            let c = a.columns[a.active_column as int];
            &&& (code == KeyCode::Char('n') || code == KeyCode::Esc) ==> w is None
                && b == (AppView { mode: AppMode::Normal, ..a })
            &&& (code == KeyCode::Char('y') || code == KeyCode::Enter) && c.issues@.len() > 0 ==> b == a
                && w == Some(Intent::Delete { id: c.issues@[c.selected as int].id, column: a.active_column })
            &&& (code == KeyCode::Char('y') || code == KeyCode::Enter) && c.issues@.len() == 0 ==> w is None
                && b.mode == AppMode::Normal && b.columns[a.active_column as int].issues@.len() == 0
        }),
{
}

/// Once a deletion is written and its column read back, that column holds
/// what was read, the selection stays where it was as far as the column
/// still reaches (so it now points at the issue after the deleted one, or
/// at the new last issue), the other columns are unchanged, and the board
/// is back in Normal mode.
pub proof fn law_delete_keeps_position(a: AppView, id: i64, load: ColumnLoad)
    requires
        board_ok(a),
    ensures
        ({
            let i = Intent::Delete { id, column: a.active_column };
            let b = finished_of(reloads_of(a, i, seq![load]), i);
            let k = a.active_column as int;
            let n = load.issues@.len();
            let old = a.columns[k].selected;
            &&& b.mode == AppMode::Normal && b.active_column == a.active_column && b.input == a.input
            &&& others_same(a, b, k)
            &&& b.columns[k].issues == load.issues && b.columns[k].total_count == load.total_count
            &&& b.columns[k].status == a.columns[k].status
            &&& n == 0 ==> b.columns[k].selected == 0
            &&& n > 0 && old < n ==> b.columns[k].selected == old
            &&& n > 0 && old >= n ==> b.columns[k].selected == n - 1
        }),
{
    let i = Intent::Delete { id, column: a.active_column };
    let b = finished_of(reloads_of(a, i, seq![load]), i);
    assert(seq![load][0] == load);
}

/// Once a creation is written and its column read back, that column holds
/// what was read with its last issue (the new one) selected and in view,
/// the input is empty, the other columns are unchanged, and the board is
/// back in Normal mode.
pub proof fn law_create_selects_new(a: AppView, title: Seq<char>, status: Status, load: ColumnLoad)
    requires
        board_ok(a),
    ensures
        ({
            let i = Intent::Create { title, status, column: a.active_column };
            let b = finished_of(reloads_of(a, i, seq![load]), i);
            let k = a.active_column as int;
            let n = load.issues@.len();
            &&& b.mode == AppMode::Normal && b.active_column == a.active_column && b.input.len() == 0
            &&& others_same(a, b, k)
            &&& b.columns[k].issues == load.issues && b.columns[k].total_count == load.total_count
            &&& n > 0 ==> b.columns[k].selected == n - 1 && b.columns[k].scroll_offset <= n - 1
                < b.columns[k].scroll_offset + visible_cards()
            &&& n == 0 ==> b.columns[k].selected == 0 && b.columns[k].scroll_offset == 0
        }),
{
    assert(seq![load][0] == load);
}

/// Once a move is written and both columns read back, each holds what was
/// read, the column the issue left keeps its selection as far as it still
/// reaches, the third column and everything else are unchanged.
pub proof fn law_move_reloads_both(a: AppView, id: i64, status: Status, to: usize, first: ColumnLoad,
    second: ColumnLoad)
    requires
        board_ok(a),
        to < 3,
        to != a.active_column,
    ensures
        ({
            let i = Intent::Move { id, status, from: a.active_column, to };
            let b = finished_of(reloads_of(a, i, seq![first, second]), i);
            let k = a.active_column as int;
            let n = first.issues@.len();
            let old = a.columns[k].selected;
            &&& b.mode == a.mode && b.active_column == a.active_column && b.input == a.input
            &&& b.columns[k].issues == first.issues && b.columns[to as int].issues == second.issues
            &&& forall|j: int| 0 <= j < 3 && j != k && j != to ==> #[trigger] b.columns[j] == a.columns[j]
            &&& n == 0 ==> b.columns[k].selected == 0
            &&& n > 0 && old < n ==> b.columns[k].selected == old
            &&& n > 0 && old >= n ==> b.columns[k].selected == n - 1
        }),
{
    assert(seq![first, second][0] == first);
    assert(seq![first, second][1] == second);
}

/// The calendar's month lengths: January, March, May, July, August,
/// October and December have 31 days; April, June, September and November
/// 30; February 29 in leap years and 28 otherwise. A year has 366 days when
/// it is a leap year and 365 otherwise.
pub proof fn law_month_lengths(y: int)
    ensures
        days_in_month(y, 1) == 31 && days_in_month(y, 3) == 31 && days_in_month(y, 5) == 31
            && days_in_month(y, 7) == 31 && days_in_month(y, 8) == 31 && days_in_month(y, 10) == 31
            && days_in_month(y, 12) == 31,
        days_in_month(y, 4) == 30 && days_in_month(y, 6) == 30 && days_in_month(y, 9) == 30
            && days_in_month(y, 11) == 30,
        days_in_month(y, 2) == if is_leap_year(y) { 29int } else { 28int },
        days_in_month(y, 1) + days_in_month(y, 2) + days_in_month(y, 3) + days_in_month(y, 4)
            + days_in_month(y, 5) + days_in_month(y, 6) + days_in_month(y, 7) + days_in_month(y, 8)
            + days_in_month(y, 9) + days_in_month(y, 10) + days_in_month(y, 11) + days_in_month(y, 12)
            == if is_leap_year(y) { 366int } else { 365int },
{
}

/// The last day of every month of a year in range is a date, and the day
/// after it is not; New Year's Eve exists, the 31st of September does not,
/// and the 29th of February exists exactly in leap years (every fourth
/// year, except centuries not divisible by 400).
pub proof fn law_calendar_dates(y: int, m: int)
    requires
        min_year() <= y <= max_year(),
        1 <= m <= 12,
    ensures
        valid_date_time(y, m, days_in_month(y, m), 23, 59, 59),
        !valid_date_time(y, m, days_in_month(y, m) + 1, 0, 0, 0),
        !valid_date_time(y, m, 0, 0, 0, 0),
        valid_date_time(y, 12, 31, 0, 0, 0),
        !valid_date_time(y, 9, 31, 0, 0, 0),
        valid_date_time(y, 2, 29, 0, 0, 0) <==> (y % 4 == 0 && (y % 100 != 0 || y % 400 == 0)),
{
}

/// Scrolling moves the window of six cards as little as it can: when the
/// selected card (brought among the issues) is already among the six cards
/// shown, the window stays; when it lies above, the window starts at it;
/// when it lies below, the window ends at it. An empty column scrolls to
/// the top. Nothing but the selection and the window changes.
pub proof fn law_scroll_moves_least(c: ColumnState)
    ensures
        ({
            let r = scrolled_of(c);
            let n = c.issues@.len();
            let sel = if c.selected < n { c.selected as int } else { n - 1 };
            &&& r.issues == c.issues && r.status == c.status && r.total_count == c.total_count
            &&& n == 0 ==> r.scroll_offset == 0 && r.selected == c.selected
            &&& n > 0 ==> r.selected == sel
            &&& n > 0 && c.scroll_offset <= sel < c.scroll_offset + 6 ==> r.scroll_offset == c.scroll_offset
            &&& n > 0 && sel < c.scroll_offset ==> r.scroll_offset == sel
            &&& n > 0 && sel >= c.scroll_offset + 6 ==> r.scroll_offset + 5 == sel
        }),
{
}

/// The cards shown in a column are as many as fit: every shown card fits in
/// the height at five lines each, and either all cards from the scroll
/// position on are shown or one more would not fit. Shown and hidden cards
/// together are the whole column.
pub proof fn law_window_shows_as_many_as_fit(c: ColumnState, height: nat)
    requires
        c.scroll_offset <= c.issues@.len(),
    ensures
        ({
            let k = shown_count(c, height as int);
            let rest = c.issues@.len() - c.scroll_offset;
            &&& 0 <= k <= rest
            &&& k * 5 <= height
            &&& k == rest || (k + 1) * 5 > height
        }),
{
}

} // verus!

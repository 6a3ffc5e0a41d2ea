//! What holds of the commit lists.

use vstd::prelude::*;
use vstd::view::View as _;

use crate::app::{AppView, BranchHistory, Screen};
use crate::history;
use crate::input::{KeyCode, KeyEvent};
use crate::marks;
use crate::model;
use crate::model::LogRow;

verus! {

proof fn some_row_ahead(lines: Seq<LogRow>, from: int, k: int)
    requires
        from < k,
        forall|j: int| from < j < k ==> !model::is_commit(lines, j),
    ensures
        exists|r: Option<int>| model::nearest_commit(lines, from, true, r),
    decreases lines.len() - k,
{
    if k >= lines.len() {
        assert(model::nearest_commit(lines, from, true, None));
    } else if model::is_commit(lines, k) {
        assert(model::nearest_commit(lines, from, true, Some(k)));
    } else {
        some_row_ahead(lines, from, k + 1);
    }
}

proof fn some_row_behind(lines: Seq<LogRow>, from: int, k: int)
    requires
        k < from,
        forall|j: int| k < j < from ==> !model::is_commit(lines, j),
    ensures
        exists|r: Option<int>| model::nearest_commit(lines, from, false, r),
    decreases k + 1,
{
    if k < 0 {
        assert(model::nearest_commit(lines, from, false, None));
    } else if model::is_commit(lines, k) {
        assert(model::nearest_commit(lines, from, false, Some(k)));
    } else {
        some_row_behind(lines, from, k - 1);
    }
}

/// A step from a commit leads to a commit.
pub proof fn steps_land_on_commits(lines: Seq<LogRow>, from: int, forward: bool)
    requires
        model::is_commit(lines, from),
    ensures
        model::is_commit(lines, model::stepped(lines, from, forward)),
{
    if forward {
        some_row_ahead(lines, from, from + 1);
    } else {
        some_row_behind(lines, from, from - 1);
    }
}

proof fn first_from_is_commit(lines: Seq<LogRow>, i: int, k: int)
    requires
        0 <= i <= k,
        model::is_commit(lines, k),
    ensures
        model::is_commit(lines, model::first_commit_from(lines, i)),
        i <= model::first_commit_from(lines, i) <= k,
    decreases k - i,
{
    if i < k && !model::is_commit(lines, i) {
        first_from_is_commit(lines, i + 1, k);
    }
}

/// A list that holds a commit is entered on its first one.
pub proof fn lists_open_on_a_commit(lines: Seq<LogRow>, k: int)
    requires
        model::is_commit(lines, k),
    ensures
        model::is_commit(lines, model::first_commit(lines)),
        model::first_commit(lines) <= k,
{
    first_from_is_commit(lines, 0, k);
}

/// No key takes the cursor of a log off the commits.
pub proof fn log_cursor_stays_on_commits(
    a: AppView,
    name: Seq<char>,
    lines: Seq<LogRow>,
    selected: int,
    key: KeyEvent,
)
    requires
        a.view == (Screen::Log { name, lines, selected }),
        model::is_commit(lines, selected),
        !(key.code is Esc) && key.code != KeyCode::Char('q'),
    ensures
        a.log_key(key).view matches Screen::Log { lines: l, selected: s, .. } && l == lines
            && model::is_commit(lines, s),
{
    reveal(AppView::log_key);
    steps_land_on_commits(lines, selected, true);
    steps_land_on_commits(lines, selected, false);
    lists_open_on_a_commit(lines, selected);
}

/// Whether only commits are marked, and the cursor is on one.
pub open spec fn tidy(b: BranchHistory) -> bool {
    &&& b.marked.len() == b.lines.len()
    &&& model::is_commit(b.lines, b.selected)
    &&& forall|i: int|
        0 <= i < b.marked.len() && #[trigger] b.marked[i] ==> model::is_commit(b.lines, i)
}

/// No key marks a row that is no commit, or takes the cursor off the commits.
pub proof fn history_stays_tidy(a: AppView, b: BranchHistory, key: KeyEvent)
    requires
        a.view == Screen::BranchCommits(b),
        tidy(b),
        !(key.code is Esc) && key.code != KeyCode::Char('q'),
    ensures
        match a.history_key(key).view {
            Screen::BranchCommits(n) => tidy(n) && n.lines == b.lines,
            _ => true,
        },
{
    reveal(AppView::history_key);
    steps_land_on_commits(b.lines, b.selected, true);
    steps_land_on_commits(b.lines, b.selected, false);
}

/// A history that was opened marks nothing, and is entered on a commit if it
/// holds one.
pub proof fn history_opens_tidy(branch: Seq<char>, lines: Seq<LogRow>, k: int)
    requires
        model::is_commit(lines, k),
    ensures
        tidy(BranchHistory::opened(branch, lines)),
{
    lists_open_on_a_commit(lines, k);
}

proof fn picks_are_commits(lines: Seq<LogRow>, marked: Seq<bool>, n: int, j: int)
    requires
        n <= lines.len(),
        0 <= j < history::picks(lines, marked, n).len(),
    ensures
        exists|i: int|
            0 <= i < n && marked[i] && #[trigger] model::is_commit(lines, i)
                && lines[i].entry == Some(history::picks(lines, marked, n)[j]),
    decreases n,
{
    if n > 0 {
        let rest = history::picks(lines, marked, n - 1);
        match history::commit_at(lines, n - 1) {
            Some(e) => if marked[n - 1] {
                if j == 0 {
                    assert(model::is_commit(lines, n - 1));
                } else {
                    picks_are_commits(lines, marked, n - 1, j - 1);
                }
            } else {
                picks_are_commits(lines, marked, n - 1, j);
            },
            None => {
                picks_are_commits(lines, marked, n - 1, j);
            },
        }
    }
}

/// What is picked are commits of the list: marked ones, or the one under the
/// cursor when none is marked.
pub proof fn picked_are_listed(b: BranchHistory, j: int)
    requires
        0 <= j < b.chosen().len(),
    ensures
        exists|i: int| #[trigger]
            model::is_commit(b.lines, i) && b.lines[i].entry == Some(b.chosen()[j]) && (
            history::any_marked(b.marked) ==> b.marked[i]) && (!history::any_marked(b.marked)
                ==> i == b.selected),
{
    if history::any_marked(b.marked) {
        picks_are_commits(b.lines, b.marked, b.lines.len() as int, j);
    } else {
        assert(model::is_commit(b.lines, b.selected));
    }
}

} // verus!

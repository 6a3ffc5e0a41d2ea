//! What the commit lists and the pickers opened from them ask for.

use vstd::prelude::*;
use vstd::string::*;
use vstd::view::View as _;

use crate::app::{AppView, BranchHistory, CherryPicker, Screen, ThenView};
use crate::candidates;
use crate::commit_browser;
use crate::history;
use crate::history::LogLines;
use crate::input::{KeyCode, KeyEvent};
use crate::key_laws;
use crate::model;
use crate::model::{CherryTarget, LogEntry, LogMode, LogRow, ResolveKind};
use crate::request::{LogThen, OpView, RequestView};

verus! {

/// Enter on a worktree of the cherry-pick picker asks how to bring the commits in,
/// with "commit" on offer first; there Enter brings the picker's commits into that
/// worktree: as commits on the first answer, as changes alone on the second.
pub proof fn pick_mode_decides_commit(a: AppView, c: CherryPicker, m: int, key: KeyEvent)
    requires
        key_laws::reaches(a, key),
        a.view == Screen::CherryPick(c),
        c.mode == Some(m),
        0 <= c.selected < c.targets.len(),
        key.code is Enter,
    ensures
        m == 0 ==> a.press(key).out == a.out.push(
            RequestView::Busy {
                task: a.next_task,
                op: OpView::CherryPick {
                    target: c.targets[c.selected].name@,
                    commits: c.commits,
                    no_commit: false,
                },
            },
        ),
        m == 1 ==> a.press(key).out == a.out.push(
            RequestView::Busy {
                task: a.next_task,
                op: OpView::CherryPick {
                    target: c.targets[c.selected].name@,
                    commits: c.commits,
                    no_commit: true,
                },
            },
        ),
        match a.press(key).view {
            Screen::Busy { rx, then, .. } => rx.id == a.next_task && match then {
                ThenView::Resolve { target, kind, .. } => target == c.targets[c.selected].name@
                    && kind is CherryPick,
                _ => false,
            },
            _ => false,
        },
{
    key_laws::keys_go_to_the_screen(a, key);
    reveal(AppView::pick_key);
}

/// The keys of the cherry-pick picker: the arrows move over the worktrees by one,
/// Enter goes on to the question how with its first answer, there both arrows go
/// to the other answer, and Esc goes one step back. Nothing is picked meanwhile.
pub proof fn pick_keys(a: AppView, c: CherryPicker, key: KeyEvent)
    requires
        key_laws::reaches(a, key),
        a.view == Screen::CherryPick(c),
        0 <= c.selected < c.targets.len(),
    ensures
        c.mode is None && key.code is Enter ==> a.press(key) == (AppView {
            message: None,
            view: Screen::CherryPick(CherryPicker { mode: Some(0), ..c }),
            ..a
        }),
        c.mode is None && (key.code is Down || key.code == KeyCode::Char('j')) ==> a.press(key)
            == (AppView {
            message: None,
            view: Screen::CherryPick(
                CherryPicker {
                    selected: if c.selected + 1 < c.targets.len() {
                        c.selected + 1
                    } else {
                        c.selected
                    },
                    ..c
                },
            ),
            ..a
        }),
        c.mode is None && (key.code is Up || key.code == KeyCode::Char('k')) ==> a.press(key) == (
        AppView {
            message: None,
            view: Screen::CherryPick(
                CherryPicker {
                    selected: if c.selected > 0 {
                        c.selected - 1
                    } else {
                        0
                    },
                    ..c
                },
            ),
            ..a
        }),
        c.mode == Some(0int) && (key.code is Down || key.code is Up || key.code == KeyCode::Char(
            'j',
        ) || key.code == KeyCode::Char('k')) ==> a.press(key) == (AppView {
            message: None,
            view: Screen::CherryPick(CherryPicker { mode: Some(1), ..c }),
            ..a
        }),
        c.mode == Some(1int) && (key.code is Down || key.code is Up || key.code == KeyCode::Char(
            'j',
        ) || key.code == KeyCode::Char('k')) ==> a.press(key) == (AppView {
            message: None,
            view: Screen::CherryPick(CherryPicker { mode: Some(0), ..c }),
            ..a
        }),
        c.mode is Some && (key.code is Esc || key.code == KeyCode::Char('q')) ==> a.press(key) == (
        AppView {
            message: None,
            view: Screen::CherryPick(CherryPicker { mode: None, ..c }),
            ..a
        }),
{
    key_laws::keys_go_to_the_screen(a, key);
    reveal(AppView::pick_key);
}

/// From the list of worktrees, Enter twice picks and commits; Enter, the down
/// arrow and Enter picks without a commit.
pub proof fn two_ways_to_pick(a: AppView, c: CherryPicker, enter: KeyEvent, down: KeyEvent)
    requires
        key_laws::reaches(a, enter),
        a.view == Screen::CherryPick(c),
        c.mode is None,
        0 <= c.selected < c.targets.len(),
        enter.code is Enter,
        down.code is Down,
    ensures
        a.press(enter).press(enter).out == a.out.push(
            RequestView::Busy {
                task: a.next_task,
                op: OpView::CherryPick {
                    target: c.targets[c.selected].name@,
                    commits: c.commits,
                    no_commit: false,
                },
            },
        ),
        a.press(enter).press(down).press(enter).out == a.out.push(
            RequestView::Busy {
                task: a.next_task,
                op: OpView::CherryPick {
                    target: c.targets[c.selected].name@,
                    commits: c.commits,
                    no_commit: true,
                },
            },
        ),
{
    pick_keys(a, c, enter);
    let b = a.press(enter);
    let first = CherryPicker { mode: Some(0), ..c };
    pick_mode_decides_commit(b, first, 0, enter);
    pick_keys(b, first, down);
    pick_mode_decides_commit(b.press(down), CherryPicker { mode: Some(1), ..c }, 1, enter);
}

/// Whether `commits` are those on the rows `at`, which are just the marked commits
/// from the last row up.
pub open spec fn picked_rows(
    lines: Seq<LogRow>,
    marked: Seq<bool>,
    commits: Seq<LogEntry>,
    at: Seq<int>,
) -> bool {
    &&& at.len() == commits.len()
    &&& forall|k: int|
        0 <= k < at.len() ==> 0 <= #[trigger] at[k] < lines.len() && marked[at[k]]
            && lines[at[k]].entry == Some(commits[k])
    &&& forall|k: int, l: int| 0 <= k < l < at.len() ==> #[trigger] at[k] > #[trigger] at[l]
    &&& forall|i: int|
        0 <= i < lines.len() && #[trigger] marked[i] && lines[i].entry is Some ==> at.contains(i)
}

proof fn rows_of_picks(lines: Seq<LogRow>, marked: Seq<bool>, n: int) -> (at: Seq<int>)
    requires
        0 <= n <= lines.len(),
        lines.len() == marked.len(),
    ensures
        picked_rows(lines.take(n), marked.take(n), history::picks(lines, marked, n), at),
    decreases n,
{
    if n == 0 {
        Seq::empty()
    } else {
        let before = rows_of_picks(lines, marked, n - 1);
        let rest = history::picks(lines, marked, n - 1);
        let all = history::picks(lines, marked, n);
        let taken = lines[n - 1].entry is Some && marked[n - 1];
        let at = if taken {
            seq![n - 1] + before
        } else {
            before
        };
        assert forall|k: int| 0 <= k < at.len() implies 0 <= #[trigger] at[k] < n && marked.take(
            n,
        )[at[k]] && lines.take(n)[at[k]].entry == Some(all[k]) by {
            if taken {
                if k > 0 {
                    assert(at[k] == before[k - 1]);
                    assert(all[k] == rest[k - 1]);
                    assert(marked.take(n - 1)[before[k - 1]]);
                }
            } else {
                assert(marked.take(n - 1)[before[k]]);
            }
        }
        assert forall|k: int, l: int| 0 <= k < l < at.len() implies #[trigger] at[k]
            > #[trigger] at[l] by {
            if taken {
                assert(at[l] == before[l - 1]);
                if k > 0 {
                    assert(at[k] == before[k - 1]);
                }
            }
        }
        assert forall|i: int|
            0 <= i < n && #[trigger] marked.take(n)[i] && lines.take(
                n,
            )[i].entry is Some implies at.contains(i) by {
            if i < n - 1 {
                assert(marked.take(n - 1)[i]);
                let k = before.index_of(i);
                assert(at[if taken {
                    k + 1
                } else {
                    k
                }] == i);
            } else {
                assert(at[0] == i);
            }
        }
        at
    }
}

/// `p` takes just the marked commits, the oldest (which the list shows last)
/// first, and with none marked the one under the cursor; they can go into every
/// worktree, and the first one is selected.
pub proof fn p_takes_the_marked(a: AppView, b: BranchHistory, key: KeyEvent, i: int)
    requires
        key_laws::reaches(a, key),
        a.view == Screen::BranchCommits(b),
        b.marked.len() == b.lines.len(),
        a.worktrees.len() > 0,
        0 <= i < b.lines.len(),
        b.marked[i],
        b.lines[i].entry is Some,
        key.code == KeyCode::Char('p'),
    ensures
        a.press(key).out == a.out,
        a.press(key).stack == a.stack.push(a.view),
        a.press(key).view is CherryPick,
        a.press(key).view->CherryPick_0.source_branch == b.branch,
        a.press(key).view->CherryPick_0.mode is None,
        a.press(key).view->CherryPick_0.selected == 0,
        a.press(key).view->CherryPick_0.targets.len() == a.worktrees.len(),
        forall|k: int|
            0 <= k < a.worktrees.len() ==> (#[trigger] a.press(
                key,
            ).view->CherryPick_0.targets[k]).name == a.worktrees[k].name,
        exists|commits: Seq<LogEntry>, at: Seq<int>| #[trigger]
            picked_rows(b.lines, b.marked, commits, at) && hashed(
                commits,
                a.press(key).view->CherryPick_0.commits,
            ),
{
    key_laws::keys_go_to_the_screen(a, key);
    reveal(AppView::history_key);
    let n = b.lines.len() as int;
    let at = rows_of_picks(b.lines, b.marked, n);
    assert(b.lines.take(n) =~= b.lines);
    assert(b.marked.take(n) =~= b.marked);
    let commits = history::picks(b.lines, b.marked, n);
    assert(picked_rows(b.lines, b.marked, commits, at));
    assert(at.contains(i));
    assert(commits.len() > 0);
    assert(b.chosen() == commits);
    assert(hashed(commits, history::hashes(commits)));
}

/// Whether `names` are the hashes of `commits`, one for one.
pub open spec fn hashed(commits: Seq<LogEntry>, names: Seq<Seq<char>>) -> bool {
    &&& commits.len() == names.len()
    &&& forall|k: int| 0 <= k < commits.len() ==> #[trigger] names[k] == commits[k].hash@
}

/// With no mark, `p` takes the one commit under the cursor.
pub proof fn p_takes_the_one(a: AppView, b: BranchHistory, key: KeyEvent, e: LogEntry)
    requires
        key_laws::reaches(a, key),
        a.view == Screen::BranchCommits(b),
        forall|i: int| 0 <= i < b.marked.len() ==> !#[trigger] b.marked[i],
        a.worktrees.len() > 0,
        0 <= b.selected < b.lines.len(),
        b.lines[b.selected].entry == Some(e),
        key.code == KeyCode::Char('p'),
    ensures
        a.press(key).view is CherryPick,
        a.press(key).view->CherryPick_0.commits == seq![e.hash@],
        a.press(key).view->CherryPick_0.summaries == seq![e.subject@],
{
    key_laws::keys_go_to_the_screen(a, key);
    reveal(AppView::history_key);
    assert(history::hashes(seq![e]) =~= seq![e.hash@]);
    assert(history::subjects(seq![e]) =~= seq![e.subject@]);
}

/// Enter in the merge picker merges the branch that the picker was opened for into
/// the worktree under the cursor, unless that worktree is on it.
pub proof fn enter_merges_into_the_worktree(
    a: AppView,
    source: Seq<char>,
    targets: Seq<CherryTarget>,
    selected: int,
    key: KeyEvent,
)
    requires
        key_laws::reaches(a, key),
        a.view == (Screen::MergePick { source_branch: source, targets, selected }),
        0 <= selected < targets.len(),
        key.code is Enter,
    ensures
        !(targets[selected].branch matches Some(b) && b@ == source) ==> a.press(key).out
            == a.out.push(
            RequestView::Busy {
                task: a.next_task,
                op: OpView::Merge { target: targets[selected].name@, source },
            },
        ),
        !(targets[selected].branch matches Some(b) && b@ == source) ==> match a.press(key).view {
            Screen::Busy { rx, then, .. } => rx.id == a.next_task && then == (ThenView::Resolve {
                target: targets[selected].name@,
                source_label: source,
                kind: ResolveKind::Merge,
            }),
            _ => false,
        },
        (targets[selected].branch matches Some(b) && b@ == source) ==> a.press(key).out == a.out
            && a.press(key).view == a.view && a.press(key).message is Some,
{
    key_laws::keys_go_to_the_screen(a, key);
    reveal(AppView::merge_key);
}

/// The arrows of the merge picker move over the worktrees by one, and stay at
/// either end.
pub proof fn arrows_move_over_targets(
    a: AppView,
    source: Seq<char>,
    targets: Seq<CherryTarget>,
    selected: int,
    key: KeyEvent,
)
    requires
        key_laws::reaches(a, key),
        a.view == (Screen::MergePick { source_branch: source, targets, selected }),
        0 <= selected < targets.len(),
    ensures
        key.code is Down || key.code == KeyCode::Char('j') ==> a.press(key).view == (
        Screen::MergePick {
            source_branch: source,
            targets,
            selected: if selected + 1 < targets.len() {
                selected + 1
            } else {
                selected
            },
        }),
        key.code is Up || key.code == KeyCode::Char('k') ==> a.press(key).view == (
        Screen::MergePick {
            source_branch: source,
            targets,
            selected: if selected > 0 {
                selected - 1
            } else {
                0
            },
        }),
{
    key_laws::keys_go_to_the_screen(a, key);
    reveal(AppView::merge_key);
}

/// `t` draws logs the other way and reads the one in front anew, in its place:
/// that of the worktree or the branch shown, as long as before.
pub proof fn t_redraws_the_log(
    a: AppView,
    name: Seq<char>,
    lines: Seq<LogRow>,
    selected: int,
    b: BranchHistory,
    key: KeyEvent,
)
    requires
        key_laws::reaches(a, key),
        key.code == KeyCode::Char('t'),
    ensures
        a.view == (Screen::Log { name, lines, selected }) ==> a.press(key).out == a.out.push(
            RequestView::WorktreeLog {
                name,
                mode: a.press(key).log_mode,
                limit: 100,
                then: LogThen::Replace,
            },
        ) && a.press(key).log_mode != a.log_mode && a.press(key).view == a.view,
        a.view == Screen::BranchCommits(b) ==> a.press(key).out == a.out.push(
            RequestView::BranchLog {
                branch: b.branch,
                mode: a.press(key).log_mode,
                limit: 200,
                then: LogThen::Replace,
            },
        ) && a.press(key).log_mode != a.log_mode && a.press(key).view == a.view,
        (a.view == (Screen::Log { name, lines, selected }) || a.view == Screen::BranchCommits(b))
            && a.log_mode == LogMode::Tree ==> a.press(key).log_mode == LogMode::Flat
            && a.press(key).message == Some("flat"@ + " view"@),
{
    key_laws::keys_go_to_the_screen(a, key);
    reveal(AppView::log_key);
    reveal(AppView::history_key);
}

/// A log that was read opens on top, or takes the place of the one in front, with
/// its rows as they were read and the cursor on a commit of them.
pub proof fn read_log_is_shown(
    a: AppView,
    name: Seq<char>,
    entries: Vec<LogEntry>,
    e: String,
)
    requires
        entries@.len() > 0,
    ensures
        a.worktree_log_read(name, LogThen::Open, Ok(LogLines::Plain(entries))).stack
            == a.stack.push(a.view),
        a.worktree_log_read(name, LogThen::Replace, Ok(LogLines::Plain(entries))).stack == a.stack,
        match a.worktree_log_read(name, LogThen::Replace, Ok(LogLines::Plain(entries))).view {
            Screen::Log { name: n, lines, selected } => n == name && selected == 0 && lines.len()
                == entries@.len() && forall|i: int|
                0 <= i < lines.len() ==> (#[trigger] lines[i]).entry == Some(entries@[i])
                    && lines[i].graph.len() == 0,
            _ => false,
        },
        match a.branch_log_read(name, LogThen::Open, Ok(LogLines::Plain(entries))).view {
            Screen::BranchCommits(b) => b.branch == name && b.selected == 0 && b.lines.len()
                == entries@.len() && b.marked.len() == b.lines.len() && forall|i: int|
                0 <= i < b.marked.len() ==> !#[trigger] b.marked[i],
            _ => false,
        },
        a.worktree_log_read(name, LogThen::Open, Err(e)) == (AppView { error: Some(e@), ..a }),
        a.branch_log_read(name, LogThen::Open, Err(e)) == (AppView { error: Some(e@), ..a }),
{
    let rows = LogLines::Plain(entries).rows();
    assert(model::is_commit(rows, 0));
    assert(model::first_commit(rows) == 0);
}

/// Enter in a log asks for the files of the commit under the cursor: in that
/// worktree; from a branch, as seen from the main worktree. The heading is the
/// start of the hash and the subject.
pub proof fn enter_browses_the_commit(
    a: AppView,
    name: Seq<char>,
    lines: Seq<LogRow>,
    selected: int,
    e: LogEntry,
    key: KeyEvent,
)
    requires
        key_laws::reaches(a, key),
        a.view == (Screen::Log { name, lines, selected }),
        0 <= selected < lines.len(),
        lines[selected].entry == Some(e),
        key.code is Enter,
        e.hash@.len() >= 9,
    ensures
        a.press(key).out == a.out.push(
            RequestView::CommitFiles {
                name,
                hash: e.hash@,
                label: e.hash@.take(9) + " "@ + e.subject@,
            },
        ),
{
    key_laws::keys_go_to_the_screen(a, key);
    reveal(AppView::log_key);
}

/// From the history of a branch, the files of a commit are asked for as the main
/// worktree sees them.
pub proof fn history_browses_from_the_main(
    a: AppView,
    b: BranchHistory,
    e: LogEntry,
    main: int,
    key: KeyEvent,
)
    requires
        key_laws::reaches(a, key),
        a.view == Screen::BranchCommits(b),
        0 <= b.selected < b.lines.len(),
        b.lines[b.selected].entry == Some(e),
        0 <= main < a.worktrees.len(),
        a.worktrees[main].is_main,
        forall|k: int| 0 <= k < main ==> !(#[trigger] a.worktrees[k]).is_main,
        key.code is Enter || key.code == KeyCode::Char('v') || key.code is Right,
    ensures
        a.press(key).out.len() == a.out.len() + 1,
        match a.press(key).out.last() {
            RequestView::CommitFiles { name, hash, label } => name == a.worktrees[main].name@
                && hash == e.hash@ && label == commit_browser::heading(e),
            _ => false,
        },
{
    key_laws::keys_go_to_the_screen(a, key);
    reveal(AppView::history_key);
    candidates::main_is_found(a.worktrees, 0, main);
}

/// In the history of a branch the space bar turns the mark of the commit under the
/// cursor and no other; `a` marks every commit, or clears every mark when each
/// commit was marked.
pub proof fn marks_of_the_history(a: AppView, b: BranchHistory, key: KeyEvent, i: int)
    requires
        key_laws::reaches(a, key),
        a.view == Screen::BranchCommits(b),
        b.marked.len() == b.lines.len(),
        0 <= b.selected < b.lines.len(),
        b.lines[b.selected].entry is Some,
        0 <= i < b.lines.len(),
    ensures
        key.code == KeyCode::Char(' ') ==> a.press(key).view == Screen::BranchCommits(
            BranchHistory { marked: b.marked.update(b.selected, !b.marked[b.selected]), ..b },
        ),
        key.code == KeyCode::Char('a') ==> match a.press(key).view {
            Screen::BranchCommits(n) => n.lines == b.lines && n.selected == b.selected
                && n.marked.len() == b.marked.len() && (n.marked[i] <==> (b.lines[i].entry is Some
                && exists|k: int|
                0 <= k < b.lines.len() && (#[trigger] b.lines[k]).entry is Some && !b.marked[k])),
            _ => false,
        },
        key.code == KeyCode::Char(' ') || key.code == KeyCode::Char('a') ==> a.press(key).out
            == a.out,
{
    key_laws::keys_go_to_the_screen(a, key);
    reveal(AppView::history_key);
    if key.code == KeyCode::Char('a') {
        let some = exists|k: int|
            0 <= k < b.lines.len() && (#[trigger] b.lines[k]).entry is Some && !b.marked[k];
        if some {
            let k = choose|k: int|
                0 <= k < b.lines.len() && (#[trigger] b.lines[k]).entry is Some && !b.marked[k];
            assert(model::is_commit(b.lines, k));
        }
        assert(history::all_commits_marked(b.lines, b.marked) == !some);
    }
}

/// The down arrow and `j` go to the next commit below, past rows of art, and the
/// up arrow and `k` to the next one above.
pub proof fn arrows_move_over_commits(
    a: AppView,
    b: BranchHistory,
    to: int,
    key: KeyEvent,
)
    requires
        key_laws::reaches(a, key),
        a.view == Screen::BranchCommits(b),
        0 <= to < b.lines.len(),
        b.lines[to].entry is Some,
    ensures
        (key.code is Down || key.code == KeyCode::Char('j')) && b.selected < to && (forall|k: int|
            b.selected < k < to && 0 <= k ==> (#[trigger] b.lines[k]).entry is None) ==> a.press(
            key,
        ).view == Screen::BranchCommits(BranchHistory { selected: to, ..b }),
        (key.code is Up || key.code == KeyCode::Char('k')) && to < b.selected && (forall|k: int|
            to < k < b.selected && k < b.lines.len() ==> (#[trigger] b.lines[k]).entry is None)
            ==> a.press(key).view == Screen::BranchCommits(
            BranchHistory { selected: to, ..b },
        ),
{
    key_laws::keys_go_to_the_screen(a, key);
    reveal(AppView::history_key);
    if b.selected < to && (forall|k: int|
        b.selected < k < to && 0 <= k ==> (#[trigger] b.lines[k]).entry is None) {
        assert(model::nearest_commit(b.lines, b.selected, true, Some(to)));
        let r = choose|r: Option<int>| model::nearest_commit(b.lines, b.selected, true, r);
        model::nearest_is_unique(b.lines, b.selected, true, r, Some(to));
    }
    if to < b.selected && (forall|k: int|
        to < k < b.selected && k < b.lines.len() ==> (#[trigger] b.lines[k]).entry is None) {
        assert(model::nearest_commit(b.lines, b.selected, false, Some(to)));
        let r = choose|r: Option<int>| model::nearest_commit(b.lines, b.selected, false, r);
        model::nearest_is_unique(b.lines, b.selected, false, r, Some(to));
    }
}

} // verus!

//! What the keys of the Changes tab ask for, and what opens once files were read.

use vstd::prelude::*;
use vstd::string::*;
use vstd::view::View as _;

use crate::app::{AppView, ChangesView, CommitFocus, Screen, Tab};
use crate::input::{KeyCode, KeyEvent};
use crate::key_laws;
use crate::marks;
use crate::request::{RequestView, StatusThenView};
use crate::rows::{RowView, StatusEntry};
use crate::tree;

verus! {

/// Whether a key reaches the Changes tab.
pub open spec fn on_changes(a: AppView, key: KeyEvent) -> bool {
    key_laws::reaches(a, key) && a.view is List && a.tab == Tab::Changes
}

/// Whether row `row` of the Changes tab shows the file `e`.
pub open spec fn shows_file(c: ChangesView, row: int, e: StatusEntry) -> bool {
    &&& 0 <= row < c.rows.len()
    &&& match c.rows[row] {
        RowView::File { index, .. } => 0 <= index < c.files.len() && c.files[index] == e,
        _ => false,
    }
}

/// On a file, `s` stashes it alone, Enter opens it and `i` asks for the pattern of
/// files like it: that file, in the worktree that the tab shows.
pub proof fn file_keys_act_on_the_file(a: AppView, key: KeyEvent, e: StatusEntry)
    requires
        on_changes(a, key),
        shows_file(a.changes, a.changes.selected, e),
    ensures
        key.code == KeyCode::Char('s') ==> a.press(key) == (AppView {
            message: None,
            out: a.out.push(RequestView::StashFile { name: a.changes.name, path: e.path@ }),
            ..a
        }),
        key.code is Enter ==> a.press(key) == (AppView {
            message: None,
            out: a.out.push(RequestView::OpenFile { name: a.changes.name, path: e.path@ }),
            ..a
        }),
        key.code == KeyCode::Char('i') ==> a.press(key) == (AppView {
            message: None,
            out: a.out.push(RequestView::IgnorePattern { file: e.path@ }),
            ..a
        }),
{
    if key_laws::ordinary(key) {
        key_laws::keys_go_to_changes(a, key);
    }
    reveal(AppView::changes_key);
}

/// `S` stashes just the marked files, in their order, in the worktree that the tab
/// shows; without a mark it stashes nothing.
pub proof fn shift_s_stashes_the_marked(a: AppView, key: KeyEvent, i: int)
    requires
        on_changes(a, key),
        a.changes.files.len() == a.changes.marked.len(),
        key.code == KeyCode::Char('S'),
    ensures
        0 <= i < a.changes.marked.len() && a.changes.marked[i] ==> exists|
            paths: Seq<Seq<char>>,
            at: Seq<int>,
        | #[trigger]
            marks::picked_at(a.changes.files, a.changes.marked, paths, at) && a.press(key).out
                == a.out.push(RequestView::StashMarked { name: a.changes.name, paths }),
        (forall|k: int| 0 <= k < a.changes.marked.len() ==> !#[trigger] a.changes.marked[k])
            ==> a.press(key).out == a.out && a.press(key).message is Some,
{
    if key_laws::ordinary(key) {
        key_laws::keys_go_to_changes(a, key);
    }
    reveal(AppView::changes_key);
    let c = a.changes;
    marks::just_the_marked(c.files, c.marked);
    let paths = marks::marked_paths(c.files, c.marked);
    let at = choose|at: Seq<int>| #[trigger] marks::picked_at(c.files, c.marked, paths, at);
    if 0 <= i < c.marked.len() && c.marked[i] {
        assert(at.contains(i));
        assert(paths.len() > 0);
    }
    if forall|k: int| 0 <= k < c.marked.len() ==> !#[trigger] c.marked[k] {
        if at.len() > 0 {
            assert(c.marked[at[0]]);
        }
        assert(paths.len() == 0);
    }
}

/// The changed files of a worktree open the Changes tab on that worktree with all
/// of them marked, the cursor at the top, and the diff of the first file asked
/// for.
pub proof fn read_files_open_the_tab(
    a: AppView,
    name: Seq<char>,
    files: Seq<StatusEntry>,
    e: Seq<char>,
)
    ensures
        ({
            let b = a.status_read(name, StatusThenView::OpenChanges, Ok(files));
            &&& b.tab == Tab::Changes
            &&& b.changes.name == name
            &&& b.changes.files == files
            &&& b.changes.selected == 0
            &&& b.changes.scroll == 0
            &&& b.changes.rows == tree::layout(files, a.file_tree, a.collapsed_folders)
            &&& b.changes.marked.len() == files.len()
            &&& forall|i: int| 0 <= i < files.len() ==> #[trigger] b.changes.marked[i]
            &&& forall|f: StatusEntry| #[trigger]
                shows_file(b.changes, 0, f) && f.code@.len() > 0 ==> b.out == a.out.push(
                    RequestView::FileDiff {
                        task: a.next_task,
                        token: b.changes.load_gen,
                        name,
                        path: f.path@,
                        untracked: f.code@[0] == '?',
                    },
                )
        }),
        a.status_read(name, StatusThenView::OpenChanges, Err(e)) == (AppView {
            error: Some(e),
            ..a
        }),
{
}

/// The changed files that were read for a commit open its dialog on that worktree
/// with all of them marked.
pub proof fn read_files_open_the_commit(
    a: AppView,
    name: Seq<char>,
    files: Seq<StatusEntry>,
)
    ensures
        match a.status_read(name, StatusThenView::OpenCommit, Ok(files)).view {
            Screen::Commit(d) => d.name == name && d.files == files && d.marked.len()
                == files.len() && d.cursor == 0 && d.input.value.len() == 0 && d.focus
                == CommitFocus::Message && forall|i: int|
                0 <= i < files.len() ==> #[trigger] d.marked[i],
            _ => false,
        },
        a.status_read(name, StatusThenView::OpenCommit, Ok(files)).stack == a.stack.push(a.view),
{
}

/// Files that were read again keep the worktree, and each file that stays keeps
/// its mark; where they cannot be read, the tab is given up with the error.
pub proof fn reread_files_keep_the_tab(
    a: AppView,
    name: Seq<char>,
    files: Seq<StatusEntry>,
    e: Seq<char>,
)
    ensures
        ({
            let b = a.status_read(name, StatusThenView::RefreshDiff, Ok(files));
            &&& b.tab == a.tab
            &&& b.changes.name == a.changes.name
            &&& b.changes.files == files
            &&& b.changes.marked == marks::carried(a.changes.files, a.changes.marked, files)
            &&& b.changes.last_refresh == a.now
        }),
        a.status_read(name, StatusThenView::RefreshDiff, Err(e)).error == Some(e),
        a.status_read(name, StatusThenView::RefreshDiff, Err(e)).tab == Tab::Worktrees,
{
}

/// The files of a commit open the browser on them, with the diff of the first one
/// asked for in that commit.
pub proof fn read_commit_opens_the_browser(
    a: AppView,
    name: Seq<char>,
    hash: Seq<char>,
    label: Seq<char>,
    files: Seq<StatusEntry>,
    e: Seq<char>,
)
    ensures
        match a.commit_read(name, hash, label, Ok(files)).view {
            Screen::CommitDiff(c) => c.name == name && c.hash == hash && c.label == label
                && c.files == files && c.selected == 0 && c.rows == tree::layout(
                files,
                a.file_tree,
                a.collapsed_folders,
            ),
            _ => false,
        },
        a.commit_read(name, hash, label, Ok(files)).stack == a.stack.push(a.view),
        a.commit_read(name, hash, label, Err(e)) == (AppView { error: Some(e), ..a }),
{
}

} // verus!

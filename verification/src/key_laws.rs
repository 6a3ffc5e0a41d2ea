//! What the keys of the tabs ask for.

use vstd::prelude::*;
use vstd::view::View as _;

use crate::app::{AppView, Screen, Tab, ThenView};
use crate::input::{KeyCode, KeyEvent, TextState};
use crate::modal::{ActionView, ModalView};
use crate::model::{BranchListItem, ResolveKind, StashEntry, TaskView, WorktreeInfo};
use crate::request::{
    BranchesThenView, ListThenView, LogThen, OpView, RequestView, StatusThenView,
};
use crate::text;

verus! {

/// Whether a key reaches the screen in front: no error, no help panel and no
/// modal takes it, and it is no interrupt.
pub open spec fn reaches(a: AppView, key: KeyEvent) -> bool {
    &&& a.error is None
    &&& !a.show_help
    &&& a.modal is None
    &&& !(key.control && key.code == KeyCode::Char('c'))
}

/// Whether a key reaches the Worktrees tab with the cursor on a worktree.
pub open spec fn on_worktree(a: AppView, key: KeyEvent, w: WorktreeInfo) -> bool {
    &&& reaches(a, key)
    &&& a.view is List
    &&& a.tab == Tab::Worktrees
    &&& 0 <= a.selected < a.worktrees.len()
    &&& a.worktrees[a.selected] == w
}

/// Whether a key reaches the Branches tab with the cursor on a branch.
pub open spec fn on_branch(a: AppView, key: KeyEvent, b: BranchListItem) -> bool {
    &&& reaches(a, key)
    &&& a.view is List
    &&& a.tab == Tab::Branches
    &&& 0 <= a.branch_selected < a.branches.len()
    &&& a.branches[a.branch_selected] == b
}

/// Whether a key reaches the Stash tab with the cursor on an entry.
pub open spec fn on_stash(a: AppView, key: KeyEvent, e: StashEntry) -> bool {
    &&& reaches(a, key)
    &&& a.view is List
    &&& a.tab == Tab::Stash
    &&& 0 <= a.stash_selected < a.stash_entries.len()
    &&& a.stash_entries[a.stash_selected] == e
}

/// Whether a key neither asks for help nor changes the tab.
pub open spec fn ordinary(key: KeyEvent) -> bool {
    key.code != KeyCode::F(1) && key.code != KeyCode::Char('?') && !(key.code is Tab) && !(key.code
        is BackTab)
}

/// An ordinary key on the Worktrees tab is for that tab; it takes the status line away
/// first.
pub proof fn keys_go_to_worktrees(a: AppView, key: KeyEvent)
    requires
        reaches(a, key),
        ordinary(key),
        a.view is List,
        a.tab == Tab::Worktrees,
    ensures
        a.press(key) == (AppView { message: None, ..a }).worktrees_key(key),
{
    reveal(AppView::screen_key);
    reveal(AppView::list_key);
}

/// An ordinary key on the Changes tab is for that tab; it takes the status line away
/// first.
pub proof fn keys_go_to_changes(a: AppView, key: KeyEvent)
    requires
        reaches(a, key),
        ordinary(key),
        a.view is List,
        a.tab == Tab::Changes,
    ensures
        a.press(key) == (AppView { message: None, ..a }).changes_key(key),
{
    reveal(AppView::screen_key);
    reveal(AppView::list_key);
}

/// An ordinary key on the Branches tab is for that tab; it takes the status line away
/// first.
pub proof fn keys_go_to_branches(a: AppView, key: KeyEvent)
    requires
        reaches(a, key),
        ordinary(key),
        a.view is List,
        a.tab == Tab::Branches,
    ensures
        a.press(key) == (AppView { message: None, ..a }).branches_key(key),
{
    reveal(AppView::screen_key);
    reveal(AppView::list_key);
}

/// An ordinary key on the Stash tab is for that tab; it takes the status line away
/// first.
pub proof fn keys_go_to_stash(a: AppView, key: KeyEvent)
    requires
        reaches(a, key),
        ordinary(key),
        a.view is List,
        a.tab == Tab::Stash,
    ensures
        a.press(key) == (AppView { message: None, ..a }).stash_key(key),
{
    reveal(AppView::screen_key);
    reveal(AppView::list_key);
}

/// A key on another screen, other than those that ask for help, is for the screen
/// in front; it takes the status line away first.
pub proof fn keys_go_to_the_screen(a: AppView, key: KeyEvent)
    ensures
        reaches(a, key) && !(a.view is List) && key.code != KeyCode::F(1) && key.code
            != KeyCode::Char('?') ==> a.press(key) == match a.view {
            Screen::Create(_) => (AppView { message: None, ..a }).create_key(key),
            Screen::RunCommand { .. } => (AppView { message: None, ..a }).command_key(key),
            Screen::RenameWorktree { .. } => (AppView { message: None, ..a }).rename_key(key),
            Screen::Creating(_) => (AppView { message: None, ..a }).run_key(key),
            Screen::Setup(_) => (AppView { message: None, ..a }).wizard_key(key),
            Screen::Commit(_) => (AppView { message: None, ..a }).commit_key(key),
            Screen::Switch(_) => (AppView { message: None, ..a }).switch_key(key),
            Screen::Log { .. } => (AppView { message: None, ..a }).log_key(key),
            Screen::CommitDiff(_) => (AppView { message: None, ..a }).commit_diff_key(key),
            Screen::BranchCommits(_) => (AppView { message: None, ..a }).history_key(key),
            Screen::CherryPick(_) => (AppView { message: None, ..a }).pick_key(key),
            Screen::MergePick { .. } => (AppView { message: None, ..a }).merge_key(key),
            Screen::ConflictResolver(_) => (AppView { message: None, ..a }).resolver_key(key),
            Screen::List => (AppView { message: None, ..a }).list_key(key),
            Screen::Busy { .. } => AppView { message: None, ..a },
        },
{
    reveal(AppView::screen_key);
}

/// `p` pulls the worktree under the cursor without a rebase, and remembers its
/// name in case the pull is refused.
pub proof fn p_pulls(a: AppView, key: KeyEvent, w: WorktreeInfo)
    requires
        on_worktree(a, key, w),
        key.code == KeyCode::Char('p'),
    ensures
        a.press(key) == (AppView {
            message: None,
            stack: Seq::empty(),
            view: Screen::Busy {
                label: "pulling "@ + w.name@ + "…"@,
                rx: TaskView { id: a.next_task, queue: Seq::empty() },
                then: ThenView::Pull { name: w.name@ },
            },
            next_task: a.next_task.wrapping_add(1),
            out: a.out.push(
                RequestView::Busy {
                    task: a.next_task,
                    op: OpView::Pull { name: w.name@, rebase: false },
                },
            ),
            ..a
        }),
{
    if ordinary(key) {
        keys_go_to_worktrees(a, key);
    }
    reveal(AppView::worktrees_key);
}

/// `P` pushes the worktree under the cursor.
pub proof fn shift_p_pushes(a: AppView, key: KeyEvent, w: WorktreeInfo)
    requires
        on_worktree(a, key, w),
        key.code == KeyCode::Char('P'),
    ensures
        a.press(key) == (AppView {
            message: None,
            stack: Seq::empty(),
            view: Screen::Busy {
                label: "pushing "@ + w.name@ + "…"@,
                rx: TaskView { id: a.next_task, queue: Seq::empty() },
                then: ThenView::List,
            },
            next_task: a.next_task.wrapping_add(1),
            out: a.out.push(
                RequestView::Busy { task: a.next_task, op: OpView::Push { name: w.name@ } },
            ),
            ..a
        }),
{
    if ordinary(key) {
        keys_go_to_worktrees(a, key);
    }
    reveal(AppView::worktrees_key);
}

/// `f` fetches on the Worktrees and the Branches tab, and the list that is shown
/// is the one read anew.
pub proof fn f_fetches(a: AppView, key: KeyEvent)
    requires
        reaches(a, key),
        a.view is List,
        a.tab == Tab::Worktrees || a.tab == Tab::Branches,
        key.code == KeyCode::Char('f'),
    ensures
        a.press(key).out == a.out.push(
            RequestView::Busy { task: a.next_task, op: OpView::Fetch },
        ),
        a.press(key).view == (Screen::Busy {
            label: "fetching all remotes…"@,
            rx: TaskView { id: a.next_task, queue: Seq::empty() },
            then: if a.tab == Tab::Branches {
                ThenView::Branch
            } else {
                ThenView::List
            },
        }),
        a.press(key).tab == a.tab,
{
    if a.tab == Tab::Worktrees {
        keys_go_to_worktrees(a, key);
        reveal(AppView::worktrees_key);
    } else {
        keys_go_to_branches(a, key);
        reveal(AppView::branches_key);
    }
}

/// `u` updates a clean worktree at once without stashing; for one with changes it
/// only asks, with the three answers on offer and the first one highlighted; the
/// main worktree is left alone.
pub proof fn u_updates(a: AppView, key: KeyEvent, w: WorktreeInfo)
    requires
        on_worktree(a, key, w),
        key.code == KeyCode::Char('u'),
    ensures
        w.is_main ==> a.press(key) == (AppView {
            message: Some("the main worktree is already on the default branch"@),
            ..a
        }),
        !w.is_main && w.dirty == 0 ==> a.press(key).out == a.out.push(
            RequestView::Busy {
                task: a.next_task,
                op: OpView::Update { name: w.name@, autostash: false },
            },
        ),
        !w.is_main && w.dirty == 0 ==> match a.press(key).view {
            Screen::Busy { rx, then, .. } => rx.id == a.next_task && then == (ThenView::Resolve {
                target: w.name@,
                source_label: "the default branch"@,
                kind: ResolveKind::Merge,
            }),
            _ => false,
        },
        !w.is_main && w.dirty > 0 ==> a.press(key).out == a.out,
        !w.is_main && w.dirty > 0 ==> match a.press(key).modal {
            Some(ModalView::Confirm { options, selected, action, .. }) => action == (
            ActionView::UpdateStash { name: w.name@ }) && selected == 0 && options.len() == 3
                && options[0].enabled && options[1].enabled && options[2].enabled
                && options[0].label == "stash them, update, then reapply (recommended)"@
                && options[1].label == "update without stashing"@ && options[2].label
                == "cancel"@,
            _ => false,
        },
{
    if ordinary(key) {
        keys_go_to_worktrees(a, key);
    }
    reveal(AppView::worktrees_key);
}

/// `l` asks for the last hundred commits of the worktree under the cursor, drawn
/// the way that logs are drawn, to open on top.
pub proof fn l_opens_the_log(a: AppView, key: KeyEvent, w: WorktreeInfo)
    requires
        on_worktree(a, key, w),
        key.code == KeyCode::Char('l'),
    ensures
        a.press(key) == (AppView {
            message: None,
            out: a.out.push(
                RequestView::WorktreeLog {
                    name: w.name@,
                    mode: a.log_mode,
                    limit: 100,
                    then: LogThen::Open,
                },
            ),
            ..a
        }),
{
    if ordinary(key) {
        keys_go_to_worktrees(a, key);
    }
    reveal(AppView::worktrees_key);
}

/// `d` asks before the worktree under the cursor goes. With a branch the first
/// answer keeps it, and only the second deletes it as well; without one there is
/// a single answer. The main worktree stays.
pub proof fn d_asks_before_removing(a: AppView, key: KeyEvent, w: WorktreeInfo)
    requires
        on_worktree(a, key, w),
        key.code == KeyCode::Char('d'),
    ensures
        a.press(key).out == a.out,
        a.press(key).view == a.view,
        w.is_main ==> a.press(key).modal is None,
        !w.is_main ==> match a.press(key).modal {
            Some(ModalView::Confirm { options, selected, action, .. }) => {
                &&& action == (ActionView::DeleteWorktree {
                    name: w.name@,
                    dirty: w.dirty as int,
                    branch: match w.branch {
                        Some(b) => Some(b@),
                        None => None,
                    },
                })
                &&& selected == 0
                &&& options[0].enabled && !options[0].destructive
                &&& match w.branch {
                    Some(b) => options.len() == 2 && options[0].label
                        == "remove folder only (keep branch "@ + ("'"@ + b@ + "'"@) + ")"@
                        && options[1].enabled && options[1].destructive && options[1].label
                        == "remove folder and delete branch "@ + ("'"@ + b@ + "'"@),
                    None => options.len() == 1 && options[0].label
                        == "remove the worktree folder"@,
                }
            },
            _ => false,
        },
{
    if ordinary(key) {
        keys_go_to_worktrees(a, key);
    }
    reveal(AppView::worktrees_key);
}

/// What the other keys of the Worktrees tab ask for: `n` the branches for a new
/// worktree, `b` those that the worktree under the cursor can switch to, `o` the
/// settings, `r` the worktrees, and Enter the changed files of the worktree, to
/// show them.
pub proof fn worktree_keys_ask(a: AppView, key: KeyEvent, w: WorktreeInfo)
    requires
        on_worktree(a, key, w),
    ensures
        key.code == KeyCode::Char('n') ==> a.press(key).out == a.out.push(
            RequestView::CreateChoices { prefill: None },
        ),
        key.code == KeyCode::Char('b') ==> a.press(key).out == a.out.push(
            RequestView::SwitchChoices { name: w.name@ },
        ),
        key.code == KeyCode::Char('o') ==> a.press(key).out == a.out.push(
            RequestView::ReloadSettings,
        ),
        key.code == KeyCode::Char('r') ==> a.press(key).out == a.out.push(
            RequestView::ListWorktrees { then: ListThenView::Refresh },
        ) && a.press(key).message == Some("refreshed"@) && a.press(key).last_auto_refresh
            == a.now,
        key.code is Enter ==> a.press(key).out == a.out.push(
            RequestView::Status {
                name: w.name@,
                then: StatusThenView::OpenChanges,
                activate: false,
            },
        ),
{
    if ordinary(key) {
        keys_go_to_worktrees(a, key);
    }
    reveal(AppView::worktrees_key);
}

/// `c` asks for the changed files of the worktree under the cursor, to commit
/// them, just when it has any.
pub proof fn c_commits_changes_only(a: AppView, key: KeyEvent, w: WorktreeInfo)
    requires
        on_worktree(a, key, w),
        key.code == KeyCode::Char('c'),
    ensures
        w.dirty > 0 ==> a.press(key).out == a.out.push(
            RequestView::Status {
                name: w.name@,
                then: StatusThenView::OpenCommit,
                activate: false,
            },
        ),
        w.dirty == 0 ==> a.press(key).out == a.out && a.press(key).message is Some,
        a.press(key).view is List,
{
    if ordinary(key) {
        keys_go_to_worktrees(a, key);
    }
    reveal(AppView::worktrees_key);
}

/// `e` runs the configured command in the folder of the worktree under the
/// cursor; where none is configured, or only blanks, it asks for one.
pub proof fn e_opens_the_folder(a: AppView, key: KeyEvent, w: WorktreeInfo)
    requires
        on_worktree(a, key, w),
        key.code == KeyCode::Char('e'),
    ensures
        match a.open_command {
            Some(c) => text::trimmed(c).len() > 0 ==> a.press(key) == (AppView {
                message: None,
                out: a.out.push(
                    RequestView::Spawn { cmd: text::trimmed(c), dir: w.path@, name: w.name@ },
                ),
                ..a
            }),
            None => true,
        },
        (a.open_command is None || text::trimmed(a.open_command->0).len() == 0) ==> a.press(key)
            == (AppView {
            message: None,
            stack: a.stack.push(a.view),
            view: Screen::RunCommand {
                name: w.name@,
                path: w.path@,
                input: TextState { value: Seq::empty(), cursor: 0 },
            },
            ..a
        }),
{
    if ordinary(key) {
        keys_go_to_worktrees(a, key);
    }
    reveal(AppView::worktrees_key);
}

/// Enter on the Branches tab asks for the last two hundred commits of the branch
/// under the cursor, drawn the way that logs are drawn.
pub proof fn enter_opens_the_history(a: AppView, key: KeyEvent, b: BranchListItem)
    requires
        on_branch(a, key, b),
        key.code is Enter,
    ensures
        a.press(key) == (AppView {
            message: None,
            out: a.out.push(
                RequestView::BranchLog {
                    branch: b.name@,
                    mode: a.log_mode,
                    limit: 200,
                    then: LogThen::Open,
                },
            ),
            ..a
        }),
{
    if ordinary(key) {
        keys_go_to_branches(a, key);
    }
    reveal(AppView::branches_key);
}

/// `p` fast-forwards the branch under the cursor.
pub proof fn p_pulls_the_branch(a: AppView, key: KeyEvent, b: BranchListItem)
    requires
        on_branch(a, key, b),
        key.code == KeyCode::Char('p'),
    ensures
        a.press(key).out == a.out.push(
            RequestView::Busy {
                task: a.next_task,
                op: OpView::BranchPull { branch: b.name@ },
            },
        ),
        a.press(key).view == (Screen::Busy {
            label: "pulling "@ + b.name@ + "…"@,
            rx: TaskView { id: a.next_task, queue: Seq::empty() },
            then: ThenView::Branch,
        }),
{
    if ordinary(key) {
        keys_go_to_branches(a, key);
    }
    reveal(AppView::branches_key);
}

/// `n` asks for the name of a new branch; `R` for a new name of the branch under
/// the cursor, starting from its name; `d` asks before that branch goes, by force
/// only on the second answer. None of them changes anything yet.
pub proof fn branch_keys_ask_first(a: AppView, key: KeyEvent, b: BranchListItem)
    requires
        on_branch(a, key, b),
    ensures
        key.code == KeyCode::Char('n') ==> a.press(key).out == a.out && match a.press(key).modal {
            Some(ModalView::Prompt { input, action, .. }) => action is BranchCreate && input
                == (TextState { value: Seq::empty(), cursor: 0 }),
            _ => false,
        },
        key.code == KeyCode::Char('R') ==> a.press(key).out == a.out && match a.press(key).modal {
            Some(ModalView::Prompt { input, action, .. }) => action == (
            ActionView::BranchRename { old: b.name@ }) && input == (TextState {
                value: b.name@,
                cursor: b.name@.len() as int,
            }),
            _ => false,
        },
        key.code == KeyCode::Char('d') ==> a.press(key).out == a.out && match a.press(key).modal {
            Some(ModalView::Confirm { options, selected, action, .. }) => action == (
            ActionView::BranchDelete { name: b.name@ }) && selected == 0 && options.len() == 2
                && options[0].enabled && !options[0].destructive && options[0].label
                == "delete branch"@ && options[1].enabled && options[1].destructive
                && options[1].label == "force delete"@ && options[1].key == Some('f'),
            _ => false,
        },
{
    if ordinary(key) {
        keys_go_to_branches(a, key);
    }
    reveal(AppView::branches_key);
}

/// `m` opens the merge picker for the branch under the cursor over all worktrees,
/// in their order, with the first one selected.
pub proof fn m_picks_a_merge_target(a: AppView, key: KeyEvent, b: BranchListItem)
    requires
        on_branch(a, key, b),
        key.code == KeyCode::Char('m'),
        a.worktrees.len() > 0,
    ensures
        a.press(key).out == a.out,
        a.press(key).stack == a.stack.push(a.view),
        match a.press(key).view {
            Screen::MergePick { source_branch, targets, selected } => {
                &&& source_branch == b.name@
                &&& selected == 0
                &&& targets.len() == a.worktrees.len()
                &&& forall|i: int|
                    0 <= i < targets.len() ==> (#[trigger] targets[i]).name
                        == a.worktrees[i].name && targets[i].branch == a.worktrees[i].branch
            },
            _ => false,
        },
{
    if ordinary(key) {
        keys_go_to_branches(a, key);
    }
    reveal(AppView::branches_key);
}

/// `c` starts a worktree for the branch under the cursor, unless some worktree
/// has it checked out; `r` asks for the branches again with the cursor where it
/// is.
pub proof fn c_checks_the_branch_out(a: AppView, key: KeyEvent, b: BranchListItem)
    requires
        on_branch(a, key, b),
    ensures
        key.code == KeyCode::Char('c') && b.checked_out_path is None ==> a.press(key).out
            == a.out.push(RequestView::CreateChoices { prefill: Some(b.name@) }),
        key.code == KeyCode::Char('c') && b.checked_out_path is Some ==> a.press(key).out == a.out
            && a.press(key).message is Some,
        key.code == KeyCode::Char('r') ==> a.press(key).out == a.out.push(
            RequestView::ListBranches { then: BranchesThenView::At(a.branch_selected) },
        ),
{
    if ordinary(key) {
        keys_go_to_branches(a, key);
    }
    reveal(AppView::branches_key);
}

/// `p` pops the stash entry under the cursor, by its own number, in the worktree
/// that the tab shows; should that leave conflicts, the resolver knows which
/// entry it was.
pub proof fn p_pops_the_entry(a: AppView, key: KeyEvent, e: StashEntry)
    requires
        on_stash(a, key, e),
        key.code == KeyCode::Char('p'),
    ensures
        a.press(key) == (AppView {
            message: None,
            stack: Seq::empty(),
            view: Screen::Busy {
                label: "stash pop…"@,
                rx: TaskView { id: a.next_task, queue: Seq::empty() },
                then: ThenView::Resolve {
                    target: a.stash_name,
                    source_label: "the stashed changes"@,
                    kind: ResolveKind::StashPop { index: Some(e.index) },
                },
            },
            next_task: a.next_task.wrapping_add(1),
            out: a.out.push(
                RequestView::Busy {
                    task: a.next_task,
                    op: OpView::StashPop { name: a.stash_name, index: Some(e.index) },
                },
            ),
            ..a
        }),
{
    if ordinary(key) {
        keys_go_to_stash(a, key);
    }
    reveal(AppView::stash_key);
}

/// `a` applies the stash entry under the cursor, by its own number, in the
/// worktree that the tab shows.
pub proof fn a_applies_the_entry(a: AppView, key: KeyEvent, e: StashEntry)
    requires
        on_stash(a, key, e),
        key.code == KeyCode::Char('a'),
    ensures
        a.press(key) == (AppView {
            message: None,
            stack: Seq::empty(),
            view: Screen::Busy {
                label: "stash apply…"@,
                rx: TaskView { id: a.next_task, queue: Seq::empty() },
                then: ThenView::Stash(a.stash_name),
            },
            next_task: a.next_task.wrapping_add(1),
            out: a.out.push(
                RequestView::Busy {
                    task: a.next_task,
                    op: OpView::StashApply { name: a.stash_name, index: Some(e.index) },
                },
            ),
            ..a
        }),
{
    if ordinary(key) {
        keys_go_to_stash(a, key);
    }
    reveal(AppView::stash_key);
}

/// `x` asks first, and only the answer drops the stash entry that was under the
/// cursor, by its own number.
pub proof fn x_drops_the_entry(a: AppView, key: KeyEvent, e: StashEntry, yes: KeyEvent)
    requires
        on_stash(a, key, e),
        key.code == KeyCode::Char('x'),
        yes.code is Enter,
    ensures
        a.press(key).out == a.out,
        a.press(key).modal is Some,
        a.press(key).press(yes).out == a.out.push(
            RequestView::Busy {
                task: a.next_task,
                op: OpView::StashDrop { name: a.stash_name, index: Some(e.index) },
            },
        ),
        a.press(key).press(yes).view == (Screen::Busy {
            label: "stash drop…"@,
            rx: TaskView { id: a.next_task, queue: Seq::empty() },
            then: ThenView::Stash(a.stash_name),
        }),
        a.press(key).press(yes).modal is None,
{
    if ordinary(key) {
        keys_go_to_stash(a, key);
    }
    reveal(AppView::stash_key);
    reveal(AppView::modal_key);
    reveal(AppView::answered);
}

/// With the cursor on another entry, one with another number, `p` and `a` ask for
/// something else.
pub proof fn cursor_decides_the_entry(
    a: AppView,
    b: AppView,
    key: KeyEvent,
    e: StashEntry,
    f: StashEntry,
)
    requires
        on_stash(a, key, e),
        on_stash(b, key, f),
        e.index != f.index,
        key.code == KeyCode::Char('p') || key.code == KeyCode::Char('a'),
    ensures
        a.press(key).out.last() != b.press(key).out.last(),
{
    if key.code == KeyCode::Char('p') {
        p_pops_the_entry(a, key, e);
        p_pops_the_entry(b, key, f);
    } else {
        a_applies_the_entry(a, key, e);
        a_applies_the_entry(b, key, f);
    }
}

/// `s` asks for the message of a new stash in the worktree that the tab shows,
/// with nothing typed yet.
pub proof fn s_asks_for_a_message(a: AppView, key: KeyEvent)
    requires
        reaches(a, key),
        a.view is List,
        a.tab == Tab::Stash,
        key.code == KeyCode::Char('s'),
    ensures
        a.press(key).out == a.out,
        match a.press(key).modal {
            Some(ModalView::Prompt { input, action, .. }) => action == (ActionView::StashPush {
                name: a.stash_name,
            }) && input == (TextState { value: Seq::empty(), cursor: 0 }),
            _ => false,
        },
{
    if ordinary(key) {
        keys_go_to_stash(a, key);
    }
    reveal(AppView::stash_key);
}

} // verus!

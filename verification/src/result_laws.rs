//! What follows from the results of what was asked for.

use vstd::prelude::*;
use vstd::string::*;
use vstd::view::View as _;

use crate::app::{AppView, Screen, Tab, ThenView};
use crate::changes_keys::OpenOutcome;
use crate::modal::{ActionView, ModalView};
use crate::model::{
    BranchListItem, CheckOutcome, ConfigInfo, Release, ResolveKind, StashEntry, TaskView,
    WorktreeInfo,
};
use crate::request::{
    BranchesThenView, ListThenView, OpError, OpView, RequestView, StatusThenView,
};
use crate::tabs;
use crate::text;
use crate::ticks;

verus! {

/// Whether the screen waits for an operation whose result has come.
pub open spec fn awaits(a: AppView, then: ThenView, result: Result<String, OpError>) -> bool {
    match a.view {
        Screen::Busy { rx, then: t, .. } => t == then && rx.queue.len() > 0 && rx.queue.last()
            == result,
        _ => false,
    }
}

/// An operation that succeeded says so and has the worktrees read; behind that
/// come the stashes of the worktree that one was about, or the branches with the
/// cursor where it is.
pub proof fn success_is_told(a: AppView, then: ThenView, m: String, name: Seq<char>)
    requires
        awaits(a, then, Ok(m)),
    ensures
        then is List || then is Commit || then is Pull ==> a.busy_polled().out == a.out.push(
            RequestView::ListWorktrees { then: ListThenView::Refresh },
        ) && a.busy_polled().message == Some(m@),
        then == ThenView::Stash(name) ==> a.busy_polled().out == a.out.push(
            RequestView::ListWorktrees { then: ListThenView::Refresh },
        ).push(RequestView::StashList { name }) && a.busy_polled().message == Some(m@),
        then is Branch ==> a.busy_polled().out == a.out.push(
            RequestView::ListWorktrees { then: ListThenView::Refresh },
        ).push(RequestView::ListBranches { then: BranchesThenView::At(a.branch_selected) })
            && a.busy_polled().message == Some(m@),
        a.busy_polled().view is List,
        a.busy_polled().error == a.error,
{
}

/// An operation that may leave conflicts has them looked for, in the worktree that
/// it was about; its message waits for the answer. A worktree that went together
/// with its branch has the branch deleted next. A new release is started.
pub proof fn success_goes_on(
    a: AppView,
    then: ThenView,
    m: String,
    name: Seq<char>,
    label: Seq<char>,
    kind: ResolveKind,
)
    requires
        awaits(a, then, Ok(m)),
    ensures
        then == (ThenView::Resolve { target: name, source_label: label, kind }) ==> a.busy_polled().out
            == a.out.push(RequestView::ListWorktrees { then: ListThenView::Refresh }).push(
            RequestView::ListConflicts { target: name, source_label: label, kind, msg: m@ },
        ),
        then == (ThenView::DeleteBranch { name, branch: label }) ==> a.busy_polled().out == a.out.push(
            RequestView::ListWorktrees { then: ListThenView::Refresh },
        ).push(RequestView::TryDeleteBranch { name, branch: label }),
        then == (ThenView::Restart { exe: name }) ==> a.busy_polled().quit
            && a.busy_polled().restart_exe == Some(name) && a.busy_polled().out == a.out,
        !(then is Restart) ==> a.busy_polled().quit == a.quit && a.busy_polled().restart_exe
            == a.restart_exe,
{
}

/// An operation that failed shows its error and has the worktrees read. Only a
/// pull that was refused because the branches have diverged is offered again, with
/// a rebase.
pub proof fn failure_is_shown(a: AppView, then: ThenView, e: OpError, name: Seq<char>)
    requires
        awaits(a, then, Err(e)),
    ensures
        !(then is Pull && e.non_fast_forward) ==> a.busy_polled().error == Some(e.text@),
        then == (ThenView::Pull { name }) && e.non_fast_forward ==> a.busy_polled().error == a.error
            && a.busy_polled().view is List && match a.busy_polled().modal {
            Some(ModalView::Confirm { options, selected, action, .. }) => action == (
            ActionView::PullRebase { name }) && selected == 0 && options.len() == 1
                && options[0].enabled && options[0].key == Some('r'),
            _ => false,
        },
        a.busy_polled().out == a.out.push(RequestView::ListWorktrees { then: ListThenView::Refresh }),
{
}

/// The worktrees that were read take the place of those shown. The cursor keeps
/// its place where the list is long enough, and goes to the last one otherwise.
pub proof fn read_worktrees_are_shown(a: AppView, v: Vec<WorktreeInfo>, e: String)
    requires
        0 <= a.selected,
    ensures
        ({
            let b = a.worktrees_read(ListThenView::Refresh, Ok(v));
            &&& b.worktrees == v@
            &&& b.preview_for is None
            &&& a.selected < v@.len() ==> b.selected == a.selected
            &&& a.selected >= v@.len() && v@.len() > 0 ==> b.selected == v@.len() - 1
            &&& v@.len() == 0 ==> b.selected == 0
            &&& b.error == a.error
        }),
        a.worktrees_read(ListThenView::Refresh, Err(e)).error == Some(e@),
        a.worktrees_read(ListThenView::Refresh, Err(e)).worktrees == a.worktrees,
        a.worktrees_read(ListThenView::Auto, Err(e)) == a,
{
}

/// A worktree that was renamed is the one that the cursor goes to.
pub proof fn renamed_worktree_is_selected(
    a: AppView,
    old_name: String,
    new_name: String,
    v: Vec<WorktreeInfo>,
    i: int,
    e: String,
)
    requires
        0 <= i < v@.len(),
        v@[i].name@ == new_name@,
        forall|k: int| 0 <= k < i ==> (#[trigger] v@[k]).name@ != new_name@,
    ensures
        a.renamed(Ok((old_name, new_name))).out == a.out.push(
            RequestView::ListWorktrees { then: ListThenView::Select(new_name@) },
        ),
        a.renamed(Ok((old_name, new_name))).message == Some(
            "renamed worktree "@ + ("'"@ + old_name@ + "'"@) + " to "@ + ("'"@ + new_name@
                + "'"@),
        ),
        a.worktrees_read(ListThenView::Select(new_name@), Ok(v)).worktrees == v@,
        a.worktrees_read(ListThenView::Select(new_name@), Ok(v)).selected == i,
        a.renamed(Err(e)) == (AppView { error: Some(e@), ..a }),
{
    first_named(v@, new_name@, 0, i);
}

proof fn first_named(v: Seq<WorktreeInfo>, name: Seq<char>, from: int, i: int)
    requires
        0 <= from <= i < v.len(),
        v[i].name@ == name,
        forall|k: int| from <= k < i ==> (#[trigger] v[k]).name@ != name,
    ensures
        tabs::worktree_named(v, name, from) == Some(i),
    decreases i - from,
{
    if from < i {
        first_named(v, name, from + 1, i);
    }
}

/// The branches that were read take the place of those shown, with the cursor
/// where it was asked for or on the last one; where they cannot be read, the tab
/// is left for the worktrees with the error.
pub proof fn read_branches_are_shown(a: AppView, at: int, v: Vec<BranchListItem>, e: String)
    requires
        0 <= at,
    ensures
        ({
            let b = a.branches_read(BranchesThenView::At(at), Ok(v));
            &&& b.branches == v@
            &&& b.tab == a.tab
            &&& at < v@.len() ==> b.branch_selected == at
            &&& at >= v@.len() && v@.len() > 0 ==> b.branch_selected == v@.len() - 1
            &&& v@.len() == 0 ==> b.branch_selected == 0
        }),
        a.branches_read(BranchesThenView::At(at), Err(e)).error == Some(e@),
        a.branches_read(BranchesThenView::At(at), Err(e)).tab == Tab::Worktrees,
        a.branches_read(BranchesThenView::Auto, Err(e)) == a,
{
}

/// Reading the branches in the background keeps the cursor on the branch it was
/// on, as long as that is still there and no earlier one has its name.
pub proof fn cursor_follows_branch(a: AppView, v: Vec<BranchListItem>, b: BranchListItem, i: int)
    requires
        0 <= a.branch_selected < a.branches.len(),
        a.branches[a.branch_selected] == b,
        0 <= i < v@.len(),
        v@[i].name@ == b.name@,
        forall|k: int| 0 <= k < i ==> (#[trigger] v@[k]).name@ != b.name@,
    ensures
        a.branches_read(BranchesThenView::Auto, Ok(v)).branch_selected == i,
        a.branches_read(BranchesThenView::Auto, Ok(v)).branches == v@,
{
    first_branch(v@, b.name@, 0, i);
}

proof fn first_branch(v: Seq<BranchListItem>, name: Seq<char>, from: int, i: int)
    requires
        0 <= from <= i < v.len(),
        v[i].name@ == name,
        forall|k: int| from <= k < i ==> (#[trigger] v[k]).name@ != name,
    ensures
        tabs::branch_named(v, name, from) == Some(i),
    decreases i - from,
{
    if from < i {
        first_branch(v, name, from + 1, i);
    }
}

/// The stash entries that were read are shown as those of that worktree, with the
/// cursor kept in the list.
pub proof fn read_stashes_are_shown(a: AppView, name: Seq<char>, v: Vec<StashEntry>, e: String)
    requires
        0 <= a.stash_selected,
    ensures
        ({
            let b = a.stashes_read(name, Ok(v));
            &&& b.stash_name == name
            &&& b.stash_entries == v@
            &&& a.stash_selected < v@.len() ==> b.stash_selected == a.stash_selected
            &&& a.stash_selected >= v@.len() && v@.len() > 0 ==> b.stash_selected == v@.len()
                - 1
            &&& v@.len() == 0 ==> b.stash_selected == 0
        }),
        a.stashes_read(name, Err(e)) == (AppView { error: Some(e@), ..a }),
{
}

/// What was done to a branch is reported and the branches read; a branch that
/// could not be deleted is asked about again, with the error.
pub proof fn branch_results(a: AppView, x: String, y: String, name: Seq<char>, e: String)
    ensures
        a.branch_renamed(Ok((x, y))).out == a.out.push(
            RequestView::ListBranches { then: BranchesThenView::At(a.branch_selected) },
        ),
        a.branch_renamed(Ok((x, y))).message == Some(
            "renamed branch "@ + ("'"@ + x@ + "'"@) + " to "@ + ("'"@ + y@ + "'"@),
        ),
        a.branch_renamed(Err(e)) == (AppView { error: Some(e@), ..a }),
        a.branch_deleted(name, Ok((x, true))).message == Some(
            "deleted branch "@ + ("'"@ + x@ + "'"@) + " (forced)"@,
        ),
        a.branch_deleted(name, Ok((x, false))).message == Some(
            "deleted branch "@ + ("'"@ + x@ + "'"@) + ""@,
        ),
        a.branch_deleted(name, Ok((x, false))).out == a.out.push(
            RequestView::ListBranches { then: BranchesThenView::At(a.branch_selected) },
        ),
        a.branch_deleted(name, Err(e)).out == a.out,
        a.branch_deleted(name, Err(e)).error == Some(e@ + " — press f to force"@),
        match a.branch_deleted(name, Err(e)).modal {
            Some(ModalView::Confirm { action, options, .. }) => action == (
            ActionView::BranchDelete { name }) && options.len() == 2,
            _ => false,
        },
        a.branch_forced(name, Ok(())).message == Some(
            "deleted branch "@ + ("'"@ + name + "'"@) + " (forced)"@,
        ),
        a.branch_forced(name, Err(e)).error == Some(e@),
        a.branch_forced(name, Ok(())).out == a.out.push(
            RequestView::ListWorktrees { then: ListThenView::Refresh },
        ),
{
}

/// What was done to files is reported, and the Changes tab and the worktrees are
/// read; so they are when it failed, with the error.
pub proof fn file_results(a: AppView, verb: Seq<char>, path: Seq<char>, n: nat, e: String)
    requires
        a.changes.name.len() > 0,
    ensures
        a.file_done(verb, path, Ok(())).message == Some(verb + ("'"@ + path + "'"@)),
        a.file_done(verb, path, Err(e)).error == Some(e@),
        a.marked_stashed(n, Ok(())).message == Some(
            "stashed "@ + text::decimal(n) + " marked file(s)"@,
        ),
        a.ignored(path, Ok(true)).message == Some(
            "added "@ + ("'"@ + path + "'"@) + " to .gitignore"@,
        ),
        a.ignored(path, Ok(false)).message == Some(
            ("'"@ + path + "'"@) + " is already in .gitignore"@,
        ),
        a.file_done(verb, path, Ok(())).out == a.out.push(
            RequestView::Status {
                name: a.changes.name,
                then: StatusThenView::RefreshDiff,
                activate: false,
            },
        ).push(RequestView::ListWorktrees { then: ListThenView::Refresh }),
        a.file_done(verb, path, Err(e)).out == a.file_done(verb, path, Ok(())).out,
        a.marked_stashed(n, Ok(())).out == a.file_done(verb, path, Ok(())).out,
        a.ignored(path, Ok(true)).out == a.file_done(verb, path, Ok(())).out,
{
}

/// How opening a file, running a command and copying a path went is told, and
/// changes nothing else.
pub proof fn outside_results(
    a: AppView,
    path: Seq<char>,
    cmd: Seq<char>,
    name: Seq<char>,
    e: String,
)
    ensures
        a.file_opened(path, OpenOutcome::Opened) == (AppView {
            message: Some("opened "@ + ("'"@ + path + "'"@)),
            ..a
        }),
        a.file_opened(path, OpenOutcome::Missing) == (AppView {
            message: Some(("'"@ + path + "'"@) + " no longer exists in the worktree"@),
            ..a
        }),
        a.file_opened(path, OpenOutcome::NoWorktree(e)) == (AppView { error: Some(e@), ..a }),
        a.file_opened(path, OpenOutcome::Failed(e)).error is Some,
        a.spawned(cmd, name, Ok(())) == (AppView {
            message: Some("ran "@ + ("'"@ + cmd + "'"@) + " in "@ + ("'"@ + name + "'"@)),
            ..a
        }),
        a.spawned(cmd, name, Err(e)) == (AppView { error: Some(e@), ..a }),
        a.text_copied(path, Ok(())) == (AppView {
            message: Some("copied "@ + ("'"@ + path + "'"@) + " to the clipboard"@),
            ..a
        }),
        a.text_copied(path, Err(e)).error is Some,
{
}

/// Settings that were read are the ones that the interface works by; those that
/// were written are put to use, the theme at once.
pub proof fn settings_results(a: AppView, c: ConfigInfo, path: String, e: String)
    ensures
        a.config_read(Ok(c)) == (AppView {
            open_command: match c.open_command {
                Some(s) => Some(s@),
                None => None,
            },
            worktree_base: match c.worktree_base {
                Some(s) => Some(s@),
                None => None,
            },
            ..a
        }),
        a.config_read(Err(e)) == (AppView { error: Some(e@), ..a }),
        a.settings_saved(Ok(path)).out.len() == a.out.len() + 2,
        a.settings_saved(Ok(path)).out[a.out.len() as int] is SetTheme,
        a.settings_saved(Ok(path)).out.last() is ReloadConfig,
        a.message is None ==> a.settings_saved(Ok(path)).message == Some("saved "@ + path@),
        a.message is Some ==> a.settings_saved(Ok(path)).message == a.message,
        a.settings_saved(Err(e)) == (AppView { message: Some("error: "@ + e@), ..a }),
        a.setup_written(Ok(c)).view is List,
        a.setup_written(Ok(c)).out == a.out.push(
            RequestView::ListWorktrees { then: ListThenView::Refresh },
        ),
        a.setup_written(Err(e)) == (AppView { error: Some(e@), ..a }),
{
}

/// A newer release is noted; the user hears of an update check only when they
/// asked for it, except that a newer release is offered once the tabs are in
/// front.
pub proof fn update_results(a: AppView, release: Release, latest: String, e: String)
    ensures
        a.update_checked(Ok(CheckOutcome::Available(release))).update_available == Some(release),
        a.update_checked(Ok(CheckOutcome::UpToDate { latest })).update_available is None,
        a.update_checked(Err(e)).update_available == a.update_available,
        !a.update_check_requested ==> a.update_checked(
            Ok(CheckOutcome::Available(release)),
        ).message == a.message && a.update_checked(
            Ok(CheckOutcome::UpToDate { latest }),
        ).message == a.message && a.update_checked(Err(e)).error == a.error,
        a.update_check_requested ==> a.update_checked(
            Ok(CheckOutcome::Available(release)),
        ).message == Some("wtm "@ + release.version@ + " is available"@) && !a.update_checked(
            Ok(CheckOutcome::Available(release)),
        ).update_prompted,
        a.update_check_requested ==> a.update_checked(
            Ok(CheckOutcome::UpToDate { latest }),
        ).message == Some("wtm "@ + latest@ + " is the latest version"@),
        a.update_check_requested ==> a.update_checked(Err(e)).error == Some(
            "update check failed: "@ + e@,
        ),
        a.update_checked(Err(e)).update_check is None,
        a.view is List && a.error is None && a.modal is None && !a.show_help && !a.update_prompted
            && a.update_available == Some(release) ==> match a.prompted().modal {
            Some(ModalView::Confirm { options, selected, action, .. }) => action
                == ActionView::UpdateApp(release) && selected == 0 && options.len() == 2
                && options[0].key == Some('u') && options[0].label == "update and restart"@
                && options[1].key == Some('n') && options[1].label == "not now"@,
            _ => false,
        },
{
}

/// A status line goes four seconds after it was first seen, and not before; the
/// changed files are read again after one second, and the lists after one minute.
pub proof fn times_that_pass(a: AppView, m: Seq<char>, t: u64)
    requires
        a.message == Some(m),
        a.message_shown == Some(m),
        a.message_at == Some(t),
        t <= a.now,
    ensures
        a.now - t >= 4000 ==> a.expired().message is None,
        a.now - t < 4000 ==> a.expired() == a,
        a.view is List && a.error is None && a.modal is None && a.last_auto_refresh <= a.now
            && a.now - a.last_auto_refresh >= 60000 && a.tab == Tab::Branches
            ==> a.auto_refreshed().out == a.out.push(
            RequestView::ListWorktrees { then: ListThenView::Auto },
        ).push(RequestView::ListBranches { then: BranchesThenView::Auto }),
        a.view is List && a.error is None && a.modal is None && a.last_auto_refresh <= a.now
            && a.now - a.last_auto_refresh >= 60000 && a.tab != Tab::Branches
            ==> a.auto_refreshed().out == a.out.push(
            RequestView::ListWorktrees { then: ListThenView::Auto },
        ),
        a.last_auto_refresh <= a.now && a.now - a.last_auto_refresh < 60000
            ==> a.auto_refreshed() == a,
        a.view is List && a.tab == Tab::Changes && a.changes.pending is None
            && a.changes.name.len() > 0 && a.changes.last_refresh <= a.now && a.now
            - a.changes.last_refresh >= 1000 ==> a.screen_polled().out == a.out.push(
            RequestView::Status {
                name: a.changes.name,
                then: StatusThenView::RefreshDiff,
                activate: false,
            },
        ),
        a.view is List && a.tab == Tab::Changes && a.changes.pending is None
            && a.changes.last_refresh <= a.now && a.now - a.changes.last_refresh < 1000
            ==> a.screen_polled().out == a.out,
{
}

} // verus!

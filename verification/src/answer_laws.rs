//! What the answers to questions and prompts ask for.

use vstd::prelude::*;
use vstd::string::*;
use vstd::view::View as _;

use crate::app::{AppView, Screen, ThenView};
use crate::input::{KeyCode, KeyEvent, TextState};
use crate::modal;
use crate::modal::{ActionView, ModalView, OptionView, ResultView};
use crate::model::{DeleteBranchOutcome, Release, ResolveKind};
use crate::request::{ListThenView, OpView, RequestView, StatusThenView};
use crate::rows::StatusEntry;
use crate::text;

verus! {

/// Whether Enter or `y` answers the question for `action` with option `i`.
pub open spec fn answers(a: AppView, key: KeyEvent, action: ActionView, i: int) -> bool {
    &&& a.error is None
    &&& !a.show_help
    &&& (key.code is Enter || key.code == KeyCode::Char('y'))
    &&& match a.modal {
        Some(ModalView::Confirm { selected, action: x, .. }) => selected == i && x == action,
        _ => false,
    }
}

/// Whether Enter hands in `typed` to the prompt for `action`.
pub open spec fn hands_in(a: AppView, key: KeyEvent, action: ActionView, typed: Seq<char>) -> bool {
    &&& a.error is None
    &&& !a.show_help
    &&& key.code is Enter
    &&& match a.modal {
        Some(ModalView::Prompt { input, action: x, .. }) => input.value == typed && x == action,
        _ => false,
    }
}

/// Enter and `y` close a question and answer it with the option that is
/// highlighted.
pub proof fn enter_answers(a: AppView, key: KeyEvent, action: ActionView, i: int)
    requires
        answers(a, key, action, i),
    ensures
        a.press(key) == (AppView { message: None, modal: None, ..a }).answered(
            action,
            ResultView::Confirmed(i),
        ),
{
    reveal(AppView::modal_key);
}

/// Enter closes a prompt and hands in what was typed, without the blanks around
/// it.
pub proof fn enter_hands_in(a: AppView, key: KeyEvent, action: ActionView, typed: Seq<char>)
    requires
        hands_in(a, key, action, typed),
    ensures
        a.press(key) == (AppView { message: None, modal: None, ..a }).answered(
            action,
            ResultView::Submitted(text::trimmed(typed)),
        ),
{
    reveal(AppView::modal_key);
}

/// The first answer updates with the changes stashed, the second without, and the
/// third not at all.
pub proof fn update_answers(a: AppView, key: KeyEvent, name: Seq<char>, i: int)
    requires
        answers(a, key, ActionView::UpdateStash { name }, i),
    ensures
        i == 0 ==> a.press(key).out == a.out.push(
            RequestView::Busy { task: a.next_task, op: OpView::Update { name, autostash: true } },
        ),
        i == 1 ==> a.press(key).out == a.out.push(
            RequestView::Busy { task: a.next_task, op: OpView::Update { name, autostash: false } },
        ),
        i == 0 || i == 1 ==> match a.press(key).view {
            Screen::Busy { rx, then, .. } => rx.id == a.next_task && then == (ThenView::Resolve {
                target: name,
                source_label: "the default branch"@,
                kind: ResolveKind::Merge,
            }),
            _ => false,
        },
        i == 2 ==> a.press(key) == (AppView { message: None, modal: None, ..a }),
        a.press(key).modal is None,
{
    enter_answers(a, key, ActionView::UpdateStash { name }, i);
    reveal(AppView::answered);
    reveal(AppView::update_answered);
}

/// Removing a worktree asks whether it has changes before anything goes; its
/// branch goes along on the second answer alone.
pub proof fn remove_answers(
    a: AppView,
    key: KeyEvent,
    name: Seq<char>,
    dirty: int,
    branch: Option<Seq<char>>,
    i: int,
)
    requires
        answers(a, key, ActionView::DeleteWorktree { name, dirty, branch }, i),
    ensures
        i == 0 ==> a.press(key) == (AppView {
            message: None,
            modal: None,
            out: a.out.push(
                RequestView::WorktreeDirty {
                    name,
                    cached_dirty: dirty,
                    branch,
                    delete_branch: false,
                },
            ),
            ..a
        }),
        i == 1 ==> a.press(key) == (AppView {
            message: None,
            modal: None,
            out: a.out.push(
                RequestView::WorktreeDirty {
                    name,
                    cached_dirty: dirty,
                    branch,
                    delete_branch: true,
                },
            ),
            ..a
        }),
{
    enter_answers(a, key, ActionView::DeleteWorktree { name, dirty, branch }, i);
    reveal(AppView::answered);
}

/// A worktree without changes goes at once and not by force; one with changes is
/// asked about. What could not be read is taken from what was known before. The
/// branch goes along just where that was asked for and there is one.
pub proof fn clean_worktree_goes(
    a: AppView,
    name: Seq<char>,
    cached: int,
    branch: Option<Seq<char>>,
    delete_branch: bool,
)
    ensures
        a.dirtiness_read(name, cached, branch, delete_branch, Some(false)).out == a.out.push(
            RequestView::Busy {
                task: a.next_task,
                op: OpView::RemoveWorktree {
                    name,
                    force: false,
                    with_branch: delete_branch && branch is Some,
                },
            },
        ),
        match a.dirtiness_read(name, cached, branch, delete_branch, Some(false)).view {
            Screen::Busy { rx, then, .. } => rx.id == a.next_task && then == if delete_branch
                && branch is Some {
                ThenView::DeleteBranch { name, branch: branch->0 }
            } else {
                ThenView::List
            },
            _ => false,
        },
        a.dirtiness_read(name, cached, branch, delete_branch, Some(true)).out == a.out,
        match a.dirtiness_read(name, cached, branch, delete_branch, Some(true)).modal {
            Some(ModalView::Confirm { options, selected, action, .. }) => {
                &&& action == (ActionView::DeleteWorktreeDirty { name, branch, delete_branch })
                &&& selected == 0
                &&& options.len() == 3
                &&& options[0].label == "stash the changes (keep them), then remove"@
                &&& !options[0].destructive
                &&& options[1].label == "discard the changes and remove"@
                &&& options[1].destructive
                &&& options[2].label == "cancel"@
            },
            _ => false,
        },
        a.dirtiness_read(name, cached, branch, delete_branch, None) == a.dirtiness_read(
            name,
            cached,
            branch,
            delete_branch,
            Some(cached > 0),
        ),
{
}

/// The changes of a worktree that goes are stashed on the first answer and thrown
/// away on the second alone; the third keeps the worktree. Whether its branch goes
/// along was settled before.
pub proof fn dirty_answers(
    a: AppView,
    key: KeyEvent,
    name: Seq<char>,
    branch: Option<Seq<char>>,
    delete_branch: bool,
    i: int,
)
    requires
        answers(a, key, ActionView::DeleteWorktreeDirty { name, branch, delete_branch }, i),
    ensures
        i == 0 ==> a.press(key) == (AppView {
            message: None,
            modal: None,
            out: a.out.push(RequestView::StashWorktree { name, branch, delete_branch }),
            ..a
        }),
        i == 1 ==> a.press(key).out == a.out.push(
            RequestView::Busy {
                task: a.next_task,
                op: OpView::RemoveWorktree {
                    name,
                    force: true,
                    with_branch: delete_branch && branch is Some,
                },
            },
        ),
        i == 2 ==> a.press(key) == (AppView { message: None, modal: None, ..a }),
{
    enter_answers(a, key, ActionView::DeleteWorktreeDirty { name, branch, delete_branch }, i);
    reveal(AppView::answered);
    reveal(AppView::dirty_answered);
}

/// A worktree whose changes were stashed goes without force; where they could not
/// be, it stays.
pub proof fn stashed_worktree_goes(
    a: AppView,
    name: Seq<char>,
    branch: Option<Seq<char>>,
    delete_branch: bool,
    e: String,
)
    ensures
        a.worktree_stashed(name, branch, delete_branch, Ok(())).out == a.out.push(
            RequestView::Busy {
                task: a.next_task,
                op: OpView::RemoveWorktree {
                    name,
                    force: false,
                    with_branch: delete_branch && branch is Some,
                },
            },
        ),
        a.worktree_stashed(name, branch, delete_branch, Err(e)).out == a.out.push(
            RequestView::ListWorktrees { then: ListThenView::Refresh },
        ),
        a.worktree_stashed(name, branch, delete_branch, Err(e)).error == Some(e@),
{
}

/// A branch that git refuses to delete is offered to go by force; one that it
/// deleted is reported.
pub proof fn refused_branch_is_offered(
    a: AppView,
    name: Seq<char>,
    branch: Seq<char>,
    w: String,
)
    ensures
        a.branch_tried(name, branch, Ok(DeleteBranchOutcome::Deleted)).message == Some(
            "removed "@ + ("'"@ + name + "'"@) + " and branch "@ + ("'"@ + branch + "'"@),
        ),
        a.branch_tried(name, branch, Ok(DeleteBranchOutcome::Deleted)).modal == a.modal,
        match a.branch_tried(name, branch, Ok(DeleteBranchOutcome::NotMerged)).modal {
            Some(ModalView::Confirm { options, action, .. }) => action == (
            ActionView::ForceBranch { branch }) && options.len() == 1 && options[0].destructive
                && options[0].key == Some('f'),
            _ => false,
        },
        match a.branch_tried(name, branch, Ok(DeleteBranchOutcome::CheckedOutElsewhere(w))).modal {
            Some(ModalView::Confirm { options, action, .. }) => action == (
            ActionView::ForceBranch { branch }) && options.len() == 1 && options[0].destructive,
            _ => false,
        },
{
}

/// A branch goes by force when that is confirmed, and is kept when it is not.
pub proof fn force_answers(a: AppView, key: KeyEvent, no: KeyEvent, branch: Seq<char>, i: int)
    requires
        answers(a, key, ActionView::ForceBranch { branch }, i),
        no.code is Esc || no.code == KeyCode::Char('n') || no.code == KeyCode::Char('q'),
    ensures
        a.press(key) == (AppView {
            message: None,
            modal: None,
            out: a.out.push(RequestView::ForceDeleteBranch { branch }),
            ..a
        }),
        a.press(no).out == a.out.push(
            RequestView::ListWorktrees { then: ListThenView::Refresh },
        ),
        a.press(no).message == Some("kept branch "@ + ("'"@ + branch + "'"@)),
        a.press(no).modal is None,
{
    reveal(AppView::modal_key);
    reveal(AppView::answered);
    reveal(AppView::force_answered);
}

/// A pull that was refused is done again with a rebase when that is confirmed.
pub proof fn rebase_answers(a: AppView, key: KeyEvent, name: Seq<char>, i: int)
    requires
        answers(a, key, ActionView::PullRebase { name }, i),
    ensures
        a.press(key).out == a.out.push(
            RequestView::Busy { task: a.next_task, op: OpView::Pull { name, rebase: true } },
        ),
        match a.press(key).view {
            Screen::Busy { rx, then, .. } => rx.id == a.next_task && then is List,
            _ => false,
        },
{
    enter_answers(a, key, ActionView::PullRebase { name }, i);
    reveal(AppView::answered);
}

/// A branch goes without force on the first answer, and by force on the second.
pub proof fn branch_delete_answers(a: AppView, key: KeyEvent, name: Seq<char>, i: int)
    requires
        answers(a, key, ActionView::BranchDelete { name }, i),
    ensures
        i == 0 ==> a.press(key).out == a.out.push(
            RequestView::BranchDelete { name, force: false },
        ),
        i == 1 ==> a.press(key).out == a.out.push(RequestView::BranchDelete { name, force: true }),
        a.press(key).modal is None,
{
    enter_answers(a, key, ActionView::BranchDelete { name }, i);
    reveal(AppView::answered);
}

/// Ignoring adds just the path on the first answer, and the pattern on the second,
/// to the worktree that the Changes tab shows.
pub proof fn ignore_answers(
    a: AppView,
    key: KeyEvent,
    file: Seq<char>,
    pattern: Seq<char>,
    i: int,
)
    requires
        answers(a, key, ActionView::IgnorePath { file, pattern }, i),
    ensures
        i == 0 ==> a.press(key).out == a.out.push(
            RequestView::AddIgnore { name: a.changes.name, pattern: file },
        ),
        i == 1 ==> a.press(key).out == a.out.push(
            RequestView::AddIgnore { name: a.changes.name, pattern },
        ),
{
    enter_answers(a, key, ActionView::IgnorePath { file, pattern }, i);
    reveal(AppView::answered);
}

/// Reverting and deleting take the file under the cursor of the Changes tab, in
/// the worktree that it shows, and say whether git knows the file: its code starts
/// with a question mark where it does not.
pub proof fn file_answers(a: AppView, key: KeyEvent, index: int, e: StatusEntry, i: int)
    requires
        answers(a, key, ActionView::RevertFile, i) || answers(a, key, ActionView::DeleteFile, i),
        0 <= a.changes.selected < a.changes.rows.len(),
        a.changes.rows[a.changes.selected] is File,
        a.changes.rows[a.changes.selected]->File_index == index,
        0 <= index < a.changes.files.len(),
        a.changes.files[index] == e,
        e.code@.len() > 0,
    ensures
        answers(a, key, ActionView::RevertFile, i) ==> a.press(key).out == a.out.push(
            RequestView::RevertFile {
                name: a.changes.name,
                path: e.path@,
                untracked: e.code@[0] == '?',
            },
        ),
        answers(a, key, ActionView::DeleteFile, i) ==> a.press(key).out == a.out.push(
            RequestView::DeleteFile {
                name: a.changes.name,
                path: e.path@,
                untracked: e.code@[0] == '?',
            },
        ),
{
    if answers(a, key, ActionView::RevertFile, i) {
        enter_answers(a, key, ActionView::RevertFile, i);
    } else {
        enter_answers(a, key, ActionView::DeleteFile, i);
    }
    reveal(AppView::answered);
}

/// A folder in the way is opened on the first answer where it is a worktree,
/// looked into for work before it is replaced on the second, and left alone on the
/// third.
pub proof fn existing_answers(
    a: AppView,
    key: KeyEvent,
    branch: Seq<char>,
    base: Option<Seq<char>>,
    path: Seq<char>,
    name: Option<Seq<char>>,
    i: int,
)
    requires
        answers(
            a,
            key,
            ActionView::ConfirmExisting { branch, base, path, existing_name: name },
            i,
        ),
    ensures
        i == 0 && name is Some ==> a.press(key).out == a.out.push(
            RequestView::Status {
                name: name->0,
                then: StatusThenView::OpenChanges,
                activate: false,
            },
        ),
        i == 0 && name is None ==> a.press(key).out == a.out && a.press(key).message is Some,
        i == 1 ==> a.press(key).out == a.out.push(
            RequestView::TargetHasChanges { branch, base, path },
        ),
        i == 2 ==> a.press(key) == (AppView { message: None, modal: None, ..a }),
{
    enter_answers(a, key, ActionView::ConfirmExisting { branch, base, path, existing_name: name }, i);
    reveal(AppView::answered);
    reveal(AppView::existing_answered);
}

/// Work in the way is thrown away on the first answer alone.
pub proof fn replace_answers(
    a: AppView,
    key: KeyEvent,
    branch: Seq<char>,
    base: Option<Seq<char>>,
    path: Seq<char>,
    i: int,
)
    requires
        answers(a, key, ActionView::ConfirmReplaceChanges { branch, base, path }, i),
    ensures
        i == 0 ==> a.press(key).out == a.out.push(
            RequestView::RemoveTarget { branch, base, path },
        ),
        i == 1 ==> a.press(key) == (AppView { message: None, modal: None, ..a }),
{
    enter_answers(a, key, ActionView::ConfirmReplaceChanges { branch, base, path }, i);
    reveal(AppView::answered);
}

/// A release is installed on the first answer alone: over the binary that runs,
/// which is started anew then.
pub proof fn release_answers(a: AppView, key: KeyEvent, release: Release, exe: String, i: int)
    requires
        answers(a, key, ActionView::UpdateApp(release), i),
    ensures
        i == 0 ==> a.press(key).out == a.out.push(RequestView::CurrentBinary { release }),
        i == 1 ==> a.press(key) == (AppView { message: None, modal: None, ..a }),
        a.binary_found(release, Ok(exe)).out == a.out.push(
            RequestView::Busy { task: a.next_task, op: OpView::InstallUpdate { release } },
        ),
        match a.binary_found(release, Ok(exe)).view {
            Screen::Busy { rx, then, .. } => rx.id == a.next_task && then == (ThenView::Restart {
                exe: exe@,
            }),
            _ => false,
        },
{
    enter_answers(a, key, ActionView::UpdateApp(release), i);
    reveal(AppView::answered);
}

/// What is typed into a prompt is used without the blanks around it: as the name
/// of a new branch, as the new name of a branch, and as the message of a stash,
/// which may be missing.
pub proof fn prompt_answers(
    a: AppView,
    key: KeyEvent,
    action: ActionView,
    typed: Seq<char>,
    name: Seq<char>,
)
    requires
        hands_in(a, key, action, typed),
    ensures
        action is BranchCreate && text::trimmed(typed).len() > 0 ==> a.press(key).out
            == a.out.push(
            RequestView::Busy {
                task: a.next_task,
                op: OpView::BranchCreate { name: text::trimmed(typed) },
            },
        ),
        action is BranchCreate && text::trimmed(typed).len() == 0 ==> a.press(key).out == a.out
            && a.press(key).message is Some,
        action == (ActionView::BranchRename { old: name }) && text::trimmed(typed).len() > 0
            ==> a.press(key).out == a.out.push(
            RequestView::BranchRename { old_name: name, new_name: text::trimmed(typed) },
        ),
        action == (ActionView::BranchRename { old: name }) && text::trimmed(typed).len() == 0
            ==> a.press(key).out == a.out && a.press(key).message is Some,
        action == (ActionView::StashPush { name }) && text::trimmed(typed).len() > 0 ==> a.press(
            key,
        ).out == a.out.push(
            RequestView::Busy {
                task: a.next_task,
                op: OpView::StashPush { name, message: Some(text::trimmed(typed)) },
            },
        ),
        action == (ActionView::StashPush { name }) && text::trimmed(typed).len() == 0 ==> a.press(
            key,
        ).out == a.out.push(
            RequestView::Busy {
                task: a.next_task,
                op: OpView::StashPush { name, message: None },
            },
        ),
        action is BranchCreate || action is BranchRename || action is StashPush ==> a.press(
            key,
        ).modal is None,
{
    enter_hands_in(a, key, action, typed);
    reveal(AppView::answered);
    reveal(AppView::branch_typed);
    reveal(AppView::rename_typed);
    reveal(AppView::stash_typed);
}

/// Keys that are typed into a prompt edit its text and nothing else.
pub proof fn prompt_keys_edit(
    a: AppView,
    key: KeyEvent,
    title: Seq<char>,
    input: TextState,
    hint: Seq<char>,
    action: ActionView,
    c: char,
)
    requires
        a.error is None,
        !a.show_help,
        a.modal == Some(ModalView::Prompt { title, input, hint, action }),
        key.code == KeyCode::Char(c),
        !key.control,
        0 <= input.cursor <= input.value.len(),
        input.value.len() < usize::MAX,
    ensures
        a.press(key) == (AppView {
            message: None,
            modal: Some(
                ModalView::Prompt {
                    title,
                    input: TextState {
                        value: input.value.insert(input.cursor, c),
                        cursor: input.cursor + 1,
                    },
                    hint,
                    action,
                },
            ),
            ..a
        }),
{
    reveal(AppView::modal_key);
}

/// The arrows of a question go to the next option that can be chosen, and stay
/// where there is none; Enter and `y` choose, and Esc, `n` and `q` dismiss.
pub proof fn question_keys(options: Seq<OptionView>, selected: int, to: int, code: KeyCode)
    requires
        0 <= selected < options.len(),
        0 <= to < options.len(),
        options[to].enabled,
    ensures
        (code is Down || code == KeyCode::Char('j') || code is Tab) && selected < to && (forall|
            k: int,
        |
            selected < k < to ==> !(#[trigger] options[k]).enabled) ==> modal::confirm_key(
            options,
            selected,
            code,
        ) == (to, None::<modal::ResultView>),
        (code is Up || code == KeyCode::Char('k')) && to < selected && (forall|k: int|
            to < k < selected ==> !(#[trigger] options[k]).enabled) ==> modal::confirm_key(
            options,
            selected,
            code,
        ) == (to, None::<modal::ResultView>),
        code is Enter || code == KeyCode::Char('y') ==> modal::confirm_key(options, selected, code)
            == (selected, Some(modal::ResultView::Confirmed(selected))),
        code is Esc || code == KeyCode::Char('n') || code == KeyCode::Char('q')
            ==> modal::confirm_key(options, selected, code) == (
            selected,
            Some(modal::ResultView::Cancelled),
        ),
{
    if selected < to && (forall|k: int| selected < k < to ==> !(#[trigger] options[k]).enabled) {
        enabled_is_next(options, selected + 1, to);
    }
    if to < selected && (forall|k: int| to < k < selected ==> !(#[trigger] options[k]).enabled) {
        enabled_is_before(options, selected, to);
    }
}

proof fn enabled_is_next(options: Seq<OptionView>, i: int, to: int)
    requires
        0 <= i <= to < options.len(),
        options[to].enabled,
        forall|k: int| i <= k < to ==> !(#[trigger] options[k]).enabled,
    ensures
        modal::enabled_from(options, i) == Some(to),
    decreases to - i,
{
    if i < to {
        enabled_is_next(options, i + 1, to);
    }
}

proof fn enabled_is_before(options: Seq<OptionView>, i: int, to: int)
    requires
        0 <= to < i <= options.len(),
        options[to].enabled,
        forall|k: int| to < k < i ==> !(#[trigger] options[k]).enabled,
    ensures
        modal::enabled_before(options, i) == Some(to),
    decreases i,
{
    if to < i - 1 {
        enabled_is_before(options, i - 1, to);
    }
}

/// The capital F answers the question before a branch goes with force, and a small
/// one does not.
pub proof fn capital_f_forces(
    a: AppView,
    key: KeyEvent,
    name: Seq<char>,
    options: Seq<OptionView>,
)
    requires
        a.error is None,
        !a.show_help,
        match a.modal {
            Some(ModalView::Confirm { options: o, action, .. }) => o == options && action == (
            ActionView::BranchDelete { name }),
            _ => false,
        },
        options.len() == 2,
        options[0].key is None,
        options[1].key == Some('f'),
        options[1].destructive,
        options[1].enabled,
    ensures
        key.code == KeyCode::Char('F') ==> a.press(key).out == a.out.push(
            RequestView::BranchDelete { name, force: true },
        ),
        key.code == KeyCode::Char('f') ==> a.press(key).out == a.out && a.press(key).modal is Some,
{
    reveal(AppView::modal_key);
    reveal(AppView::answered);
    reveal_with_fuel(modal::hot_from, 3);
    assert(options[1].hot() == Some('F'));
}

} // verus!

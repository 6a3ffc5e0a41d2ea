//! What the dialogs ask for once they are filled in.

use vstd::prelude::*;
use vstd::string::*;
use vstd::view::View as _;

use crate::app::{
    AppView, CommitDialog, CommitFocus, CreateDialog, CreateRun, Screen, SwitchPicker, ThenView,
};
use crate::candidates;
use crate::create;
use crate::input::{KeyCode, KeyEvent, TextState};
use crate::key_laws;
use crate::marks;
use crate::modal::{ActionView, ModalView};
use crate::model::{CreateMsg, CreateResult, ExistingTarget, TaskView};
use crate::request::{ListThenView, OpView, RequestView};
use crate::text;

verus! {

/// On the row for a new branch, Enter asks for the typed name off the base that
/// the dialog shows; and once no folder is known to be in the way, the create that
/// runs is of that branch off that base.
pub proof fn new_branch_starts_at_its_base(a: AppView, d: CreateDialog, key: KeyEvent)
    requires
        key_laws::reaches(a, key),
        a.view == Screen::Create(d),
        d.base_pick is None,
        !d.base_focus,
        d.selected == 0,
        text::trimmed(d.name.value).len() > 0,
        key.code is Enter,
    ensures
        a.press(key) == (AppView {
            message: None,
            out: a.out.push(
                RequestView::ExistingTarget {
                    branch: text::trimmed(d.name.value),
                    base: Some(d.base),
                },
            ),
            ..a
        }),
        a.press(key).target_checked(
            text::trimmed(d.name.value),
            Some(d.base),
            Ok(None),
        ).out.last() == (RequestView::Create {
            task: a.next_task,
            branch: text::trimmed(d.name.value),
            base: Some(d.base),
        }),
{
    key_laws::keys_go_to_the_screen(a, key);
    reveal(AppView::create_key);
    reveal(AppView::create_step);
}

/// A name of blanks alone creates nothing, and the dialog says so.
pub proof fn blank_name_creates_nothing(a: AppView, d: CreateDialog, key: KeyEvent)
    requires
        key_laws::reaches(a, key),
        a.view == Screen::Create(d),
        d.base_pick is None,
        !d.base_focus,
        d.selected == 0,
        text::trimmed(d.name.value).len() == 0,
        key.code is Enter,
    ensures
        a.press(key) == (AppView { message: Some("type a name for the new branch"@), ..a }),
{
    key_laws::keys_go_to_the_screen(a, key);
    reveal(AppView::create_key);
    reveal(AppView::create_step);
}

/// On the row of a branch that exists, Enter asks for that branch: a local one as
/// it is, and one that only a remote has off that remote.
pub proof fn listed_branch_is_checked_out(a: AppView, d: CreateDialog, key: KeyEvent, i: int)
    requires
        key_laws::reaches(a, key),
        a.view == Screen::Create(d),
        d.base_pick is None,
        !d.base_focus,
        0 < d.selected <= candidates::filtered(d.branches, d.name.value).len(),
        candidates::filtered(d.branches, d.name.value)[d.selected - 1] == i,
        0 <= i < d.branches.len(),
        key.code is Enter,
    ensures
        a.press(key).out == a.out.push(
            RequestView::ExistingTarget {
                branch: d.branches[i].branch@,
                base: match d.branches[i].remote {
                    Some(r) => Some(r@),
                    None => None,
                },
            },
        ),
        a.press(key).view == a.view,
{
    key_laws::keys_go_to_the_screen(a, key);
    reveal(AppView::create_key);
    reveal(AppView::create_step);
}

/// In the list of bases, Enter and Tab take the branch under the cursor as the
/// base, Esc keeps the base as it was, and the arrows move by one; nothing is
/// asked for meanwhile.
pub proof fn base_is_the_one_picked(a: AppView, d: CreateDialog, key: KeyEvent, i: int)
    requires
        key_laws::reaches(a, key),
        a.view == Screen::Create(d),
        d.base_pick == Some(i),
        0 <= i < d.all_branches.len(),
    ensures
        key.code is Enter || key.code is Tab ==> a.press(key) == (AppView {
            message: None,
            view: Screen::Create(
                CreateDialog { base: d.all_branches[i], base_pick: None, ..d },
            ),
            ..a
        }),
        key.code is Esc ==> a.press(key).view == Screen::Create(
            CreateDialog { base_pick: None, ..d },
        ),
        key.code is Down ==> a.press(key).view == Screen::Create(
            CreateDialog {
                base_pick: Some(
                    if i + 1 < d.all_branches.len() {
                        i + 1
                    } else {
                        i
                    },
                ),
                ..d
            },
        ),
        key.code is Up ==> a.press(key).view == Screen::Create(
            CreateDialog {
                base_pick: Some(
                    if i > 0 {
                        i - 1
                    } else {
                        0
                    },
                ),
                ..d
            },
        ),
{
    key_laws::keys_go_to_the_screen(a, key);
    reveal(AppView::create_key);
    reveal(AppView::create_step);
}

/// A base that was picked is the one that the create is asked for with: Enter in
/// the list of bases, a key back to the name, and Enter there.
pub proof fn picked_base_is_used(
    a: AppView,
    d: CreateDialog,
    i: int,
    enter: KeyEvent,
    up: KeyEvent,
)
    requires
        key_laws::reaches(a, enter),
        a.view == Screen::Create(d),
        d.base_pick == Some(i),
        0 <= i < d.all_branches.len(),
        d.selected == 0,
        text::trimmed(d.name.value).len() > 0,
        enter.code is Enter,
        up.code is Up,
    ensures
        a.press(enter).press(up).press(enter).out == a.out.push(
            RequestView::ExistingTarget {
                branch: text::trimmed(d.name.value),
                base: Some(d.all_branches[i]),
            },
        ),
{
    base_is_the_one_picked(a, d, enter, i);
    let b = a.press(enter);
    let e = CreateDialog { base: d.all_branches[i], base_pick: None, ..d };
    arrows_move_over_choices(b, e, up);
    let c = b.press(up);
    new_branch_starts_at_its_base(c, CreateDialog { base_focus: false, ..e }, enter);
}

/// Tab on the row for a new branch goes to its base first, and opens the list of
/// bases then, as Enter and the space bar do; the list opens on the base where it
/// holds it.
pub proof fn tab_leads_to_the_base(a: AppView, d: CreateDialog, key: KeyEvent)
    requires
        key_laws::reaches(a, key),
        a.view == Screen::Create(d),
        d.base_pick is None,
        d.selected == 0,
        d.all_branches.len() > 0,
    ensures
        key.code is Tab && !d.base_focus ==> a.press(key).view == Screen::Create(
            CreateDialog { base_focus: true, ..d },
        ),
        (key.code is Tab || key.code is Enter || key.code == KeyCode::Char(' ')) && d.base_focus
            ==> a.press(key).out == a.out && match a.press(key).view {
            Screen::Create(n) => n.base == d.base && n.name == d.name && match n.base_pick {
                Some(p) => 0 <= p < d.all_branches.len() && (d.all_branches.contains(d.base)
                    ==> d.all_branches[p] == d.base),
                None => false,
            },
            _ => false,
        },
        key.code is Esc && d.base_focus ==> a.press(key).view == Screen::Create(
            CreateDialog { base_focus: false, ..d },
        ),
{
    key_laws::keys_go_to_the_screen(a, key);
    reveal(AppView::create_key);
    reveal(AppView::create_step);
    place_is_found(d.all_branches, d.base, 0);
}

/// The place of a name in a list is where the name stands, and a place of the
/// list anyhow.
pub proof fn place_is_found(names: Seq<Seq<char>>, name: Seq<char>, i: int)
    requires
        0 <= i,
        names.len() > 0,
    ensures
        0 <= create::place_of(names, name, i) < names.len(),
        (exists|k: int| i <= k < names.len() && #[trigger] names[k] == name)
            ==> names[create::place_of(names, name, i)] == name,
    decreases names.len() - i,
{
    if i < names.len() && names[i] != name {
        place_is_found(names, name, i + 1);
    }
}

/// The arrows move over the row for a new branch and the listed branches, by one
/// and no further than the last; typing changes the name alone and goes back to
/// the row for a new branch.
pub proof fn arrows_move_over_choices(a: AppView, d: CreateDialog, key: KeyEvent)
    requires
        key_laws::reaches(a, key),
        a.view == Screen::Create(d),
        d.base_pick is None,
    ensures
        key.code is Down ==> a.press(key) == (AppView {
            message: None,
            view: Screen::Create(
                CreateDialog {
                    base_focus: false,
                    selected: if d.selected < candidates::filtered(
                        d.branches,
                        d.name.value,
                    ).len() {
                        d.selected + 1
                    } else {
                        d.selected
                    },
                    ..d
                },
            ),
            ..a
        }),
        key.code is Up ==> a.press(key) == (AppView {
            message: None,
            view: Screen::Create(
                CreateDialog {
                    base_focus: false,
                    selected: if d.selected > 0 {
                        d.selected - 1
                    } else {
                        d.selected
                    },
                    ..d
                },
            ),
            ..a
        }),
        key.code == KeyCode::Char('x') ==> a.press(key).out == a.out && match a.press(key).view {
            Screen::Create(n) => n.selected == 0 && n.base == d.base && n.branches == d.branches
                && n.name == d.name.after(KeyCode::Char('x')),
            _ => false,
        },
{
    key_laws::keys_go_to_the_screen(a, key);
    reveal(AppView::create_key);
    reveal(AppView::create_step);
}

/// What follows when it is known whether a folder is in the way of a new
/// worktree: none, and the create runs with the same branch and base; one, and
/// the choice is asked for with both kept, where opening is only on offer for a
/// worktree.
pub proof fn folder_in_the_way_is_asked_about(
    a: AppView,
    branch: Seq<char>,
    base: Option<Seq<char>>,
    t: ExistingTarget,
)
    ensures
        a.target_checked(branch, base, Ok(None)).out == a.out.push(
            RequestView::Create { task: a.next_task, branch, base },
        ),
        match a.target_checked(branch, base, Ok(None)).view {
            Screen::Creating(r) => r.branch == branch && !r.done && r.rx.id == a.next_task
                && r.lines.len() == 0,
            _ => false,
        },
        a.target_checked(branch, base, Ok(Some(t))).out == a.out,
        a.target_checked(branch, base, Ok(Some(t))).view is List,
        match a.target_checked(branch, base, Ok(Some(t))).modal {
            Some(ModalView::Confirm { options, selected, action, .. }) => {
                &&& action == (ActionView::ConfirmExisting {
                    branch,
                    base,
                    path: t.path@,
                    existing_name: match t.worktree_name {
                        Some(n) => Some(n@),
                        None => None,
                    },
                })
                &&& options.len() == 3
                &&& options[0].enabled == (t.worktree_name is Some)
                &&& options[1].enabled && options[2].enabled
                &&& options[1].label == "replace it (delete, then create)"@
                &&& options[2].label == "cancel"@
                &&& selected == if t.worktree_name is Some {
                    0int
                } else {
                    1int
                }
            },
            _ => false,
        },
{
    reveal_with_fuel(crate::modal::enabled_from, 3);
}

/// A folder that is in the way goes without a question only where it holds no
/// work; once it is gone the create runs with the same branch and base.
pub proof fn work_in_the_way_is_asked_about(
    a: AppView,
    branch: Seq<char>,
    base: Option<Seq<char>>,
    path: Seq<char>,
)
    ensures
        a.target_inspected(branch, base, path, Ok(false)).out == a.out.push(
            RequestView::RemoveTarget { branch, base, path },
        ),
        a.target_inspected(branch, base, path, Ok(true)).out == a.out,
        match a.target_inspected(branch, base, path, Ok(true)).modal {
            Some(ModalView::Confirm { options, selected, action, .. }) => action == (
            ActionView::ConfirmReplaceChanges { branch, base, path }) && selected == 0
                && options.len() == 2 && options[0].destructive && options[1].label
                == "cancel"@,
            _ => false,
        },
        a.target_removed(branch, base, Ok(())).out == a.out.push(
            RequestView::Create { task: a.next_task, branch, base },
        ),
{
}

/// While a create runs, Enter sends the typed line to it and starts a new one;
/// once it has ended, Enter goes back and reads the worktrees.
pub proof fn enter_talks_to_the_create(a: AppView, r: CreateRun, key: KeyEvent)
    requires
        key_laws::reaches(a, key),
        a.view == Screen::Creating(r),
        key.code is Enter,
    ensures
        !r.done ==> a.press(key).out == a.out.push(
            RequestView::SendLine { task: r.rx.id, text: r.input },
        ) && match a.press(key).view {
            Screen::Creating(n) => n.input.len() == 0 && n.lines == r.lines && n.rx == r.rx,
            _ => false,
        },
        r.done ==> a.press(key).out == a.out.push(
            RequestView::ListWorktrees { then: ListThenView::Refresh },
        ) && (a.stack.len() > 0 ==> a.press(key).view == a.stack.last()) && (a.stack.len() == 0
            ==> a.press(key).view is List),
{
    key_laws::keys_go_to_the_screen(a, key);
    reveal(AppView::run_key);
}

/// A create shows each line as it comes, and ends with the path of the worktree
/// or with the error, and the way out. It is told apart whether every setup step
/// went well.
pub proof fn create_shows_how_it_went(r: CreateRun, line: String, m: CreateResult, e: String)
    requires
        !r.done,
        m.setup@.len() == 0,
    ensures
        (CreateRun {
            rx: TaskView { queue: seq![CreateMsg::Progress(line)], ..r.rx },
            ..r
        }).polled() == (CreateRun {
            lines: r.lines.push(line@),
            rx: TaskView { queue: Seq::empty(), ..r.rx },
            ..r
        }),
        (CreateRun {
            rx: TaskView { queue: seq![CreateMsg::Done(Err(e))], ..r.rx },
            ..r
        }).polled() == (CreateRun {
            lines: r.lines + seq!["error: "@ + e@, "press Enter to continue"@],
            rx: TaskView { queue: Seq::empty(), ..r.rx },
            done: true,
            ..r
        }),
        m.setup_ok ==> (CreateRun {
            rx: TaskView { queue: seq![CreateMsg::Done(Ok(m))], ..r.rx },
            ..r
        }).polled().lines == r.lines + seq![
            "worktree ready: "@ + m.path@,
            "press Enter to continue"@,
        ],
        !m.setup_ok ==> (CreateRun {
            rx: TaskView { queue: seq![CreateMsg::Done(Ok(m))], ..r.rx },
            ..r
        }).polled().lines == r.lines + seq![
            "worktree kept at "@ + m.path@ + " but some setup steps failed"@,
            "press Enter to continue"@,
        ],
{
    reveal_with_fuel(CreateRun::told, 2);
    reveal_with_fuel(CreateRun::ended, 2);
    reveal_with_fuel(CreateRun::step_lines, 1);
    assert(seq!["error: "@ + e@].push("press Enter to continue"@) =~= seq![
        "error: "@ + e@,
        "press Enter to continue"@,
    ]);
    let none = Seq::<Seq<char>>::empty();
    let good = "worktree ready: "@ + m.path@;
    let bad = "worktree kept at "@ + m.path@ + " but some setup steps failed"@;
    assert(none.push(good).push("press Enter to continue"@) =~= seq![
        good,
        "press Enter to continue"@,
    ]);
    assert(none.push(bad).push("press Enter to continue"@) =~= seq![
        bad,
        "press Enter to continue"@,
    ]);
}

/// Enter on a branch of the switch picker switches the worktree to that branch
/// and creates none.
pub proof fn switch_takes_the_branch(a: AppView, p: SwitchPicker, key: KeyEvent, i: int)
    requires
        key_laws::reaches(a, key),
        a.view == Screen::Switch(p),
        0 <= p.selected < candidates::filtered(p.branches, p.filter.value).len(),
        candidates::filtered(p.branches, p.filter.value)[p.selected] == i,
        0 <= i < p.branches.len(),
        key.code is Enter,
    ensures
        a.press(key).out == a.out.push(
            RequestView::Busy {
                task: a.next_task,
                op: OpView::Switch {
                    name: p.name,
                    branch: p.branches[i].branch@,
                    create: false,
                },
            },
        ),
        match a.press(key).view {
            Screen::Busy { rx, then, .. } => rx.id == a.next_task && then is List,
            _ => false,
        },
{
    key_laws::keys_go_to_the_screen(a, key);
    reveal(AppView::switch_key);
    reveal(AppView::switch_step);
}

/// A name that no branch holds is created, and the worktree switched to it; a
/// blank one is not.
pub proof fn switch_creates_a_new_name(a: AppView, p: SwitchPicker, key: KeyEvent)
    requires
        key_laws::reaches(a, key),
        a.view == Screen::Switch(p),
        candidates::filtered(p.branches, p.filter.value).len() == 0,
        p.selected >= 0,
        key.code is Enter,
    ensures
        text::trimmed(p.filter.value).len() > 0 ==> a.press(key).out == a.out.push(
            RequestView::Busy {
                task: a.next_task,
                op: OpView::Switch {
                    name: p.name,
                    branch: text::trimmed(p.filter.value),
                    create: true,
                },
            },
        ),
        text::trimmed(p.filter.value).len() == 0 ==> a.press(key) == (AppView {
            message: None,
            ..a
        }),
{
    key_laws::keys_go_to_the_screen(a, key);
    reveal(AppView::switch_key);
    reveal(AppView::switch_step);
}

/// The arrows move over what the filter lists, by one and no further than the
/// ends.
pub proof fn arrows_move_over_switches(a: AppView, p: SwitchPicker, key: KeyEvent)
    requires
        key_laws::reaches(a, key),
        a.view == Screen::Switch(p),
        p.selected >= 0,
    ensures
        key.code is Down ==> a.press(key).view == Screen::Switch(
            SwitchPicker {
                selected: if p.selected + 1 < candidates::filtered(
                    p.branches,
                    p.filter.value,
                ).len() {
                    p.selected + 1
                } else {
                    p.selected
                },
                ..p
            },
        ),
        key.code is Up ==> a.press(key).view == Screen::Switch(
            SwitchPicker {
                selected: if p.selected > 0 {
                    p.selected - 1
                } else {
                    0
                },
                ..p
            },
        ),
{
    key_laws::keys_go_to_the_screen(a, key);
    reveal(AppView::switch_key);
    reveal(AppView::switch_step);
}

/// Enter commits just the marked files, in their order, with the message without
/// the blanks around it, in the worktree of the dialog; the dialog is kept in case
/// the commit fails.
pub proof fn enter_commits_the_marked(a: AppView, d: CommitDialog, key: KeyEvent, i: int)
    requires
        key_laws::reaches(a, key),
        a.view == Screen::Commit(d),
        d.files.len() == d.marked.len(),
        text::trimmed(d.input.value).len() > 0,
        0 <= i < d.marked.len(),
        d.marked[i],
        key.code is Enter,
    ensures
        exists|paths: Seq<Seq<char>>, at: Seq<int>| #[trigger]
            marks::picked_at(d.files, d.marked, paths, at) && a.press(key).out == a.out.push(
                RequestView::Busy {
                    task: a.next_task,
                    op: OpView::Commit {
                        name: d.name,
                        message: text::trimmed(d.input.value),
                        paths,
                    },
                },
            ),
        match a.press(key).view {
            Screen::Busy { rx, then, .. } => rx.id == a.next_task && then == ThenView::Commit(d),
            _ => false,
        },
{
    key_laws::keys_go_to_the_screen(a, key);
    reveal(AppView::commit_key);
    marks::just_the_marked(d.files, d.marked);
    let paths = marks::marked_paths(d.files, d.marked);
    let at = choose|at: Seq<int>| #[trigger] marks::picked_at(d.files, d.marked, paths, at);
    assert(at.contains(i));
    assert(paths.len() > 0);
    assert(marks::picked_at(d.files, d.marked, paths, at));
}

/// In the file list of the commit dialog the space bar turns the mark under the
/// cursor and no other, the arrows move by one, and Tab changes between the list
/// and the message; what is typed into the message goes nowhere else.
pub proof fn commit_dialog_keys(a: AppView, d: CommitDialog, key: KeyEvent)
    requires
        key_laws::reaches(a, key),
        a.view == Screen::Commit(d),
        d.files.len() == d.marked.len(),
        0 <= d.cursor < d.files.len(),
    ensures
        key.code is Tab ==> a.press(key).view == Screen::Commit(
            CommitDialog {
                focus: if d.focus == CommitFocus::Files {
                    CommitFocus::Message
                } else {
                    CommitFocus::Files
                },
                ..d
            },
        ),
        d.focus == CommitFocus::Files && key.code == KeyCode::Char(' ') ==> a.press(key).view
            == Screen::Commit(
            CommitDialog { marked: d.marked.update(d.cursor, !d.marked[d.cursor]), ..d },
        ),
        d.focus == CommitFocus::Files && key.code is Down ==> a.press(key).view == Screen::Commit(
            CommitDialog {
                cursor: if d.cursor + 1 < d.files.len() {
                    d.cursor + 1
                } else {
                    d.cursor
                },
                ..d
            },
        ),
        d.focus == CommitFocus::Files && key.code is Up ==> a.press(key).view == Screen::Commit(
            CommitDialog {
                cursor: if d.cursor > 0 {
                    d.cursor - 1
                } else {
                    0
                },
                ..d
            },
        ),
        d.focus == CommitFocus::Message && key.code == KeyCode::Char('a') ==> a.press(key).view
            == Screen::Commit(
            CommitDialog {
                input: TextState {
                    value: d.input.after(KeyCode::Char('a')).value,
                    cursor: d.input.after(KeyCode::Char('a')).cursor,
                },
                ..d
            },
        ),
{
    key_laws::keys_go_to_the_screen(a, key);
    reveal(AppView::commit_key);
}

/// Enter in the prompt for a command runs what was typed, without the blanks
/// around it, in the folder of that worktree; blanks alone run nothing.
pub proof fn enter_runs_the_command(
    a: AppView,
    name: Seq<char>,
    path: Seq<char>,
    input: TextState,
    key: KeyEvent,
)
    requires
        key_laws::reaches(a, key),
        a.view == (Screen::RunCommand { name, path, input }),
        key.code is Enter,
    ensures
        a.press(key).view is List,
        text::trimmed(input.value).len() > 0 ==> a.press(key).out == a.out.push(
            RequestView::Spawn { cmd: text::trimmed(input.value), dir: path, name },
        ),
        text::trimmed(input.value).len() == 0 ==> a.press(key).out == a.out,
{
    key_laws::keys_go_to_the_screen(a, key);
    reveal(AppView::command_key);
}

/// Enter in the prompt for a worktree's name renames that worktree to what was
/// typed, without the blanks around it; blanks alone rename nothing.
pub proof fn enter_renames_the_worktree(
    a: AppView,
    name: Seq<char>,
    input: TextState,
    key: KeyEvent,
)
    requires
        key_laws::reaches(a, key),
        a.view == (Screen::RenameWorktree { name, input }),
        key.code is Enter,
    ensures
        a.press(key).view is List,
        text::trimmed(input.value).len() > 0 ==> a.press(key).out == a.out.push(
            RequestView::RenameWorktree { name, new_name: text::trimmed(input.value) },
        ),
        text::trimmed(input.value).len() == 0 ==> a.press(key).out == a.out
            && a.press(key).message is Some,
{
    key_laws::keys_go_to_the_screen(a, key);
    reveal(AppView::rename_key);
}

} // verus!

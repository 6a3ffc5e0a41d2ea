//! Nothing is thrown away unasked, and a question that is turned down changes
//! nothing.

use vstd::prelude::*;
use vstd::view::View as _;

use crate::app::{AppView, Screen};
use crate::geometry::MouseEvent;
use crate::input::{KeyCode, KeyEvent};
use crate::modal::{ActionView, ModalView};
use crate::mouse;
use crate::request::{OpView, RequestView};

verus! {

/// Whether a request throws something away: changes, a worktree, a branch, a
/// stash entry, a merge under way, or the running binary.
pub open spec fn destroys(r: RequestView) -> bool {
    match r {
        RequestView::RemoveTarget { .. } => true,
        RequestView::ForceDeleteBranch { .. } => true,
        RequestView::TryDeleteBranch { .. } => true,
        RequestView::RevertFile { .. } => true,
        RequestView::DeleteFile { .. } => true,
        RequestView::AbortResolution { .. } => true,
        RequestView::BranchDelete { .. } => true,
        RequestView::Busy { op, .. } => match op {
            OpView::RemoveWorktree { .. } => true,
            OpView::StashDrop { .. } => true,
            OpView::InstallUpdate { .. } => true,
            _ => false,
        },
        _ => false,
    }
}

/// Whether requests were only added, and none that throws something away.
pub open spec fn spares(before: Seq<RequestView>, after: Seq<RequestView>) -> bool {
    &&& before.len() <= after.len()
    &&& forall|i: int| 0 <= i < before.len() ==> #[trigger] after[i] == before[i]
    &&& forall|i: int| before.len() <= i < after.len() ==> !destroys(#[trigger] after[i])
}

proof fn worktree_screens_spare(a: AppView)
    ensures
        spares(a.out, a.enter_worktree().out),
        spares(a.out, a.open_commit().out),
        spares(a.out, a.open_worktree().out),
        spares(a.out, a.open_stash().out),
        spares(a.out, a.open_switch().out),
        spares(a.out, a.open_log().out),
        spares(a.out, a.open_rename().out),
        spares(a.out, a.ask_remove().out),
{
}

proof fn worktree_operations_spare(a: AppView)
    ensures
        spares(a.out, a.pull().out),
        spares(a.out, a.push_worktree().out),
        spares(a.out, a.fetch().out),
        spares(a.out, a.update().out),
{
}

#[verifier::rlimit(30)]
proof fn worktrees_spare(a: AppView, key: KeyEvent)
    ensures
        spares(a.out, a.worktrees_key(key).out),
{
    worktree_screens_spare(a);
    worktree_operations_spare(a);
    reveal(AppView::worktrees_key);
}

proof fn nav_spares(a: AppView, code: KeyCode)
    ensures
        spares(a.out, a.nav(code).out),
{
}

proof fn change_steps_spare(a: AppView, down: bool)
    ensures
        spares(a.out, a.step_change(down).out),
        spares(a.out, a.toggle_layout().out),
        spares(a.out, a.refresh_diff().out),
{
}

proof fn change_actions_spare(a: AppView)
    ensures
        spares(a.out, a.open_change().out),
        spares(a.out, a.stash_change().out),
        spares(a.out, a.stash_marks().out),
        spares(a.out, a.revert_change().out),
        spares(a.out, a.delete_change().out),
        spares(a.out, a.ignore_change().out),
        spares(a.out, a.commit_changes().out),
{
}

#[verifier::rlimit(30)]
proof fn changes_spare(a: AppView, key: KeyEvent)
    ensures
        spares(a.out, a.changes_key(key).out),
{
    let code = key.code;
    nav_spares(a, code);
    nav_spares(a, KeyCode::Enter);
    change_steps_spare(a, true);
    change_steps_spare(a, false);
    change_actions_spare(a);
    assert(spares(a.out, a.mark_change().out));
    assert(spares(a.out, a.activate_change().out));
    reveal(AppView::changes_key);
}

#[verifier::rlimit(30)]
proof fn branches_spare(a: AppView, key: KeyEvent)
    ensures
        spares(a.out, a.branches_key(key).out),
{
    reveal(AppView::branches_key);
}

proof fn stash_spares(a: AppView, key: KeyEvent)
    ensures
        spares(a.out, a.stash_key(key).out),
{
    reveal(AppView::stash_key);
}

proof fn settings_spare(a: AppView, key: KeyEvent)
    ensures
        spares(a.out, a.settings_key(key).out),
{
    reveal(AppView::settings_key);
}

proof fn tabs_spare(a: AppView, key: KeyEvent)
    ensures
        spares(a.out, a.list_key(key).out),
{
    reveal(AppView::list_key);
    worktrees_spare(a, key);
    changes_spare(a, key);
    branches_spare(a, key);
    stash_spares(a, key);
    settings_spare(a, key);
}

#[verifier::rlimit(30)]
proof fn create_spares(a: AppView, key: KeyEvent)
    ensures
        spares(a.out, a.create_key(key).out),
{
    reveal(AppView::create_key);
    reveal(AppView::create_step);
}

#[verifier::rlimit(30)]
proof fn forms_spare(a: AppView, key: KeyEvent)
    ensures
        spares(a.out, a.command_key(key).out),
        spares(a.out, a.rename_key(key).out),
        spares(a.out, a.commit_key(key).out),
        spares(a.out, a.switch_key(key).out),
{
    reveal(AppView::command_key);
    reveal(AppView::rename_key);
    reveal(AppView::commit_key);
    reveal(AppView::switch_key);
    reveal(AppView::switch_step);
}

proof fn run_spares(a: AppView, key: KeyEvent)
    ensures
        spares(a.out, a.run_key(key).out),
        spares(a.out, a.wizard_key(key).out),
{
    reveal(AppView::run_key);
    reveal(AppView::wizard_key);
}

#[verifier::rlimit(30)]
proof fn logs_spare(a: AppView, key: KeyEvent)
    ensures
        spares(a.out, a.log_key(key).out),
        spares(a.out, a.history_key(key).out),
        spares(a.out, a.pick_key(key).out),
        spares(a.out, a.merge_key(key).out),
{
    reveal(AppView::log_key);
    reveal(AppView::history_key);
    reveal(AppView::pick_key);
    reveal(AppView::merge_key);
}

#[verifier::rlimit(30)]
proof fn browser_spares(a: AppView, key: KeyEvent)
    ensures
        spares(a.out, a.commit_diff_key(key).out),
{
    reveal(AppView::commit_diff_key);
}

#[verifier::rlimit(30)]
proof fn resolver_spares(a: AppView, key: KeyEvent)
    ensures
        spares(a.out, a.resolver_key(key).out),
{
    reveal(AppView::resolver_key);
}

/// With no question open, no key throws anything away: what destroys work is
/// only ever asked for by answering a question.
pub proof fn keys_destroy_nothing_unasked(a: AppView, key: KeyEvent)
    requires
        a.modal is None,
    ensures
        spares(a.out, a.press(key).out),
{
    let b = AppView { message: None, ..a };
    reveal(AppView::help_key);
    reveal(AppView::screen_key);
    tabs_spare(b, key);
    create_spares(b, key);
    forms_spare(b, key);
    run_spares(b, key);
    logs_spare(b, key);
    browser_spares(b, key);
    resolver_spares(b, key);
}

proof fn tab_rows_spare(a: AppView, i: int)
    ensures
        spares(a.out, a.tab_clicked(i).out),
{
    reveal(AppView::tab_clicked);
}

proof fn rows_spare(a: AppView, i: int)
    ensures
        spares(a.out, a.row_clicked(i).out),
{
    reveal(AppView::screen_clicked);
    tab_rows_spare(a, i);
}

proof fn clicks_spare(a: AppView, col: u16, row: u16)
    ensures
        spares(a.out, a.clicked(col, row).out),
{
    match mouse::row_under(a.row_list, col, row) {
        Some(i) => rows_spare(a, i),
        None => {},
    }
}

proof fn wheel_spares(a: AppView, down: bool, col: u16, row: u16)
    ensures
        spares(a.out, a.wheeled(down, col, row).out),
{
    change_steps_spare(a, down);
}

proof fn double_clicks_spare(a: AppView)
    ensures
        spares(a.out, a.double_clicked().out),
{
    nav_spares(a, KeyCode::Enter);
    change_actions_spare(a);
}

proof fn activating_spares(a: AppView, b: AppView)
    requires
        spares(a.out, b.out),
        b.asked_files(a.out.len()),
    ensures
        spares(a.out, b.activating().out),
{
}

/// The mouse throws nothing away, whatever is open: a question is answered by a
/// key alone.
pub proof fn mouse_destroys_nothing(a: AppView, m: MouseEvent)
    ensures
        spares(a.out, a.moused(m).out),
{
    let b = a.click_noted(m.column, m.row);
    clicks_spare(b, m.column, m.row);
    if b.clicked(m.column, m.row).asked_files(a.out.len()) {
        activating_spares(a, b.clicked(m.column, m.row));
    }
    double_clicks_spare(b.clicked(m.column, m.row));
    wheel_spares(a, true, m.column, m.row);
    wheel_spares(a, false, m.column, m.row);
}

/// Whether a key turns a question down.
pub open spec fn declines(m: ModalView, code: KeyCode) -> bool {
    code is Esc || (m is Confirm && (code == KeyCode::Char('q') || code == KeyCode::Char('n')))
}

/// Turning a question down closes it and changes nothing else. Only a branch
/// that is then kept is told of.
#[verifier::rlimit(30)]
pub proof fn declining_changes_nothing(a: AppView, key: KeyEvent)
    requires
        a.error is None,
        !a.show_help,
        !key.control,
        a.modal matches Some(m) && declines(m, key.code) && !(m matches ModalView::Confirm {
            action: ActionView::ForceBranch { .. },
            ..
        }) && !(m matches ModalView::Prompt { action: ActionView::ForceBranch { .. }, .. }),
    ensures
        a.press(key) == (AppView { modal: None, message: None, ..a }),
{
    reveal(AppView::modal_key);
    reveal(AppView::editor_key);
    reveal(AppView::answered);
    reveal(AppView::existing_answered);
    reveal(AppView::dirty_answered);
    reveal(AppView::update_answered);
    reveal(AppView::branch_typed);
    reveal(AppView::rename_typed);
    reveal(AppView::stash_typed);
}

/// The screens that Esc leaves for the one they were opened from.
pub open spec fn left_by_esc(s: Screen) -> bool {
    match s {
        Screen::Create(d) => d.base_pick is None && !d.base_focus,
        Screen::RunCommand { .. } => true,
        Screen::RenameWorktree { .. } => true,
        Screen::Commit(_) => true,
        Screen::Switch(p) => p.filter.value.len() == 0,
        Screen::Log { .. } => true,
        Screen::CommitDiff(_) => true,
        Screen::BranchCommits(_) => true,
        Screen::CherryPick(p) => p.mode is None,
        Screen::MergePick { .. } => true,
        _ => false,
    }
}

/// Esc goes back to the screen that opened the one in front.
#[verifier::rlimit(30)]
pub proof fn esc_goes_back(a: AppView, screen: Screen, key: KeyEvent)
    requires
        a.error is None,
        !a.show_help,
        a.modal is None,
        key.code is Esc,
        !key.control,
        left_by_esc(screen),
    ensures
        a.pushed(screen).press(key) == (AppView { message: None, ..a }),
{
    let b = AppView { message: None, ..a.pushed(screen) };
    assert(b.popped() =~= AppView { message: None, ..a });
    reveal(AppView::screen_key);
    reveal(AppView::create_key);
    reveal(AppView::create_step);
    reveal(AppView::command_key);
    reveal(AppView::rename_key);
    reveal(AppView::commit_key);
    reveal(AppView::switch_key);
    reveal(AppView::switch_step);
    reveal(AppView::log_key);
    reveal(AppView::commit_diff_key);
    reveal(AppView::history_key);
    reveal(AppView::pick_key);
    reveal(AppView::merge_key);
}

} // verus!

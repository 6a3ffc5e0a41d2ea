//! What holds of the application in every state.

use vstd::prelude::*;
use vstd::view::View as _;

use crate::app::{AppView, ChangesView, CommitBrowser, CommitDialog, CreateRun, Screen, Tab};
use crate::changes;
use crate::dialogs;
use crate::input::{KeyCode, KeyEvent, TextState};
use crate::model;
use crate::model::TaskView;
use crate::panes;
use crate::panes::Pane;
use crate::request::{OpError, RequestView};
use crate::rows;
use crate::rows::{RowView, StatusEntry};
use crate::text;
use crate::ticks;
use crate::tree;
use crate::tree_laws;

verus! {

/// While an error popup is open, a key does nothing but close it, whatever key
/// it is and whatever lies below.
pub proof fn error_takes_the_key(a: AppView, key: KeyEvent)
    requires
        a.error is Some,
    ensures
        a.press(key) == (AppView { error: None, message: None, ..a }),
{
}

/// F1 opens the help panel from everywhere but an error popup and the panel
/// itself; so does `?`, except where a text field takes it as a character.
pub proof fn help_opens(a: AppView, key: KeyEvent)
    requires
        a.error is None,
        !a.show_help,
        !key.control,
        key.code == KeyCode::F(1) || (key.code == KeyCode::Char('?') && !a.takes_text()),
    ensures
        a.press(key) == (AppView { message: None, ..a }).open_help(),
        a.press(key).show_help,
{
}

/// Where a text field listens, `?` reaches what lies in front like any other
/// character.
pub proof fn question_mark_reaches_the_field(a: AppView)
    requires
        a.error is None,
        !a.show_help,
        a.takes_text(),
    ensures
        ({
            let key = KeyEvent { code: KeyCode::Char('?'), shift: false, control: false };
            let b = AppView { message: None, ..a };
            a.press(key) == if a.modal is Some {
                b.modal_key(key)
            } else {
                b.screen_key(key)
            }
        }),
{
}

/// Where a text field listens, `?` is one of its characters.
pub proof fn question_mark_is_typed(a: AppView, name: Seq<char>, input: TextState)
    requires
        a.error is None,
        !a.show_help,
        a.modal is None,
        a.view == (Screen::RenameWorktree { name, input }),
    ensures
        a.press((KeyEvent { code: KeyCode::Char('?'), shift: false, control: false })) == (AppView {
            message: None,
            view: Screen::RenameWorktree { name, input: input.after(KeyCode::Char('?')) },
            ..a
        }),
{
    reveal(AppView::screen_key);
    reveal(AppView::rename_key);
}

/// While the help panel is open, no key but Ctrl+C reaches anything below it.
pub proof fn help_keeps_the_rest(a: AppView, key: KeyEvent)
    requires
        a.error is None,
        a.show_help,
        !key.control,
    ensures
        a.press(key) == (AppView {
            message: None,
            help_tab: a.press(key).help_tab,
            help_scroll: a.press(key).help_scroll,
            show_help: a.press(key).show_help,
            ..a
        }),
{
    reveal(AppView::help_key);
}

/// While a background operation holds the screen, keys change nothing, as long
/// as they neither interrupt nor ask for help.
pub proof fn busy_ignores_keys(a: AppView, key: KeyEvent)
    requires
        a.view is Busy,
        a.error is None,
        a.modal is None,
        !a.show_help,
        !a.asks_help(key),
        !key.control,
    ensures
        a.press(key) == (AppView { message: None, ..a }),
{
    reveal(AppView::screen_key);
}

/// The first Ctrl+C while a create runs kills nothing and does not quit; a
/// second one right after it asks for the setup command to be killed; and any
/// key in between takes the first one back.
pub proof fn two_interrupts_kill(a: AppView, r: CreateRun, key: KeyEvent)
    requires
        a.view == Screen::Creating(r),
        !r.done,
        !r.kill_armed,
    ensures
        a.interrupt().out == a.out,
        a.interrupt().quit == a.quit,
        a.interrupt().interrupt().out == a.out.push(RequestView::KillSetup { task: r.rx.id }),
        a.interrupt().interrupt().quit == a.quit,
        a.interrupt().run_key(key).view matches Screen::Creating(later) && !later.kill_armed,
{
    reveal(AppView::run_key);
}

/// Everywhere else Ctrl+C quits.
pub proof fn interrupt_quits(a: AppView)
    requires
        a.view matches Screen::Creating(r) ==> r.done,
    ensures
        a.interrupt() == (AppView { quit: true, ..a }),
{
}

/// Esc and `q` quit from every tab, the Settings tab as long as nothing is
/// edited there.
pub proof fn tabs_quit(a: AppView, key: KeyEvent)
    requires
        key.code is Esc || key.code == KeyCode::Char('q'),
        a.tab == Tab::Settings ==> a.settings.editing is None && a.settings.open_list is None,
    ensures
        a.list_key(key) == (AppView { quit: true, ..a }),
{
    reveal(AppView::list_key);
    reveal(AppView::worktrees_key);
    reveal(AppView::changes_key);
    reveal(AppView::branches_key);
    reveal(AppView::stash_key);
    reveal(AppView::settings_key);
}

/// The lists are never read anew while another screen, an error or a modal is in
/// front, nor before their time.
pub proof fn auto_refresh_waits(a: AppView)
    requires
        !(a.view is List) || a.error is Some || a.modal is Some || ticks::elapsed(
            a.now,
            a.last_auto_refresh,
        ) < ticks::AUTO_REFRESH_INTERVAL,
    ensures
        a.auto_refreshed() == a,
{
}

/// Once the lists were asked for, they are not due before their time.
pub proof fn auto_refresh_rests(a: AppView)
    ensures
        !a.auto_refreshed().lists_due(),
{
}

/// A status line stays for its time and no longer: it is still there as long as
/// less than that has passed since it appeared, and gone after that.
pub proof fn message_has_its_time(a: AppView, m: Seq<char>, later: u64)
    requires
        a.message == Some(m),
        a.message_shown != Some(m),
        later >= a.now,
    ensures
        a.expired().message == Some(m),
        ({
            let b = AppView { now: later, ..a.expired() };
            b.expired().message == if later - a.now < ticks::MESSAGE_TIMEOUT {
                Some(m)
            } else {
                None
            }
        }),
{
}

/// The update prompt opens once; after it was shown it does not come back by
/// itself, and it never opens over something else.
pub proof fn update_prompt_opens_once(a: AppView)
    ensures
        a.prompted() != a ==> a.prompted().update_prompted && a.modal is None && a.error is None
            && a.view is List && !a.show_help,
        a.update_prompted ==> a.prompted() == a,
{
}

/// Postponing an update keeps the release known, so that the Settings tab can
/// still show it, and does not bring the prompt back.
pub proof fn postponed_update_is_kept(a: AppView, release: model::Release)
    requires
        !a.prompt_waits(),
        a.update_available == Some(release),
    ensures
        ({
            let shown = a.prompted();
            let later = shown.close_modal(
                crate::modal::ActionView::UpdateApp(release),
                crate::modal::ResultView::Cancelled,
            );
            later.update_available == Some(release) && later.modal is None && later.prompted()
                == later
        }),
{
    reveal(AppView::answered);
}

/// A diff that arrives for a load that is not the last one changes nothing that
/// is shown.
pub proof fn stale_diff_is_dropped(c: ChangesView)
    requires
        c.pending matches Some(t) && t.queue.len() > 0 && t.queue.last().0 != c.load_gen,
    ensures
        c.polled() == (ChangesView { pending: c.polled().pending, ..c }),
{
}

/// A diff that arrives for the load last started leaves the viewport where it
/// is, or on the last line when the diff has become shorter than that, however
/// long it is. So does the diff of a file in a commit.
pub proof fn viewport_is_only_clamped(c: ChangesView, b: CommitBrowser)
    requires
        c.pending matches Some(t) && t.queue.len() > 0 && t.queue.last().0 == c.load_gen,
        b.pending matches Some(t) && t.queue.len() > 0 && t.queue.last().0 == b.load_gen,
    ensures
        c.polled().scroll as int == clamped_to(c.scroll as int, c.polled().content),
        b.polled().scroll as int == clamped_to(b.scroll as int, b.polled().content),
{
}

/// A line of a text, or its last line where the text is shorter.
pub open spec fn clamped_to(line: int, content: Seq<char>) -> int {
    let n = text::lines_of(content).len();
    if line < n {
        line
    } else if n > 0 {
        n - 1
    } else {
        0
    }
}

/// A load makes the results of the load before it stale.
pub proof fn loading_makes_stale(a: AppView, reset: bool)
    requires
        a.changes.entry() is Some,
    ensures
        a.load_diff(reset).changes.load_gen != a.changes.load_gen,
        a.load_diff(reset).changes.pending == Some(
            TaskView::<(u64, String, String)>::started(a.next_task),
        ),
{
}

/// Reading the same file anew leaves the viewport where it is; another file is
/// shown from the top.
pub proof fn refresh_keeps_viewport(a: AppView, files: Seq<StatusEntry>)
    ensures
        ({
            let b = a.take_files(files);
            if b.changes.path() == a.changes.path() {
                b.changes.scroll == a.changes.scroll
            } else {
                b.changes.scroll == 0
            }
        }),
{
}

/// The cursor of the Changes tab is in the list after its files were read anew,
/// unless the list is empty.
pub proof fn refresh_keeps_cursor_in_list(a: AppView, files: Seq<StatusEntry>)
    requires
        a.changes.selected >= 0,
    ensures
        ({
            let c = a.take_files(files).changes;
            c.rows.len() > 0 ==> 0 <= c.selected < c.rows.len()
        }),
{
}

/// Collapsing a folder and opening it again, or the other way round, gives back
/// the same folders and rows.
pub proof fn toggling_a_folder_undoes(p: Pane, files: Seq<StatusEntry>, prefix: Seq<char>)
    ensures
        p.toggled(files, prefix).toggled(files, prefix).collapsed == p.collapsed,
        p.toggled(files, prefix).toggled(files, prefix).rows == tree::layout(
            files,
            true,
            p.collapsed,
        ),
{
    let twice = p.toggled(files, prefix).toggled(files, prefix);
    assert(twice.collapsed =~= p.collapsed);
}

/// Every file that lies in no collapsed folder has a row in the tree.
pub proof fn visible_file_is_listed(files: Seq<StatusEntry>, collapsed: Set<Seq<char>>, i: int)
    requires
        0 <= i < files.len(),
        !tree::hidden(
            tree::dirs_of(files[i].path@),
            tree::dirs_of(files[i].path@).len() as int,
            collapsed,
        ),
    ensures
        exists|k: int| panes::file_index(tree::layout(files, true, collapsed), k) == Some(i),
{
    let p = rows::paths(files);
    let order = rows::by_path(p);
    rows::by_path_is_order(p);
    assert(order.contains(i));
    let at = order.index_of(i);
    assert(p[order[at]] == files[i].path@);
    tree_laws::visible_file_has_row(p, order, p.len() as int, collapsed, at);
    let row = RowView::File {
        index: i,
        label: tree::leaf_of(files[i].path@),
        depth: tree::dirs_of(files[i].path@).len() as int,
    };
    let all = tree::layout(files, true, collapsed);
    let k = all.index_of(row);
    assert(all.contains(row));
    assert(panes::file_index(all, k) == Some(i));
}

/// Every file has a row in the flat list.
pub proof fn flat_list_has_every_file(files: Seq<StatusEntry>, collapsed: Set<Seq<char>>, i: int)
    requires
        0 <= i < files.len(),
    ensures
        exists|k: int| panes::file_index(tree::layout(files, false, collapsed), k) == Some(i),
{
    let p = rows::paths(files);
    let order = rows::by_path(p);
    rows::by_path_is_order(p);
    assert(order.contains(i));
    let at = order.index_of(i);
    assert(panes::file_index(tree::layout(files, false, collapsed), at) == Some(i));
}

proof fn path_row_found(
    all: Seq<RowView>,
    files: Seq<StatusEntry>,
    path: Seq<char>,
    k: int,
    from: int,
)
    requires
        0 <= from <= k < all.len(),
        panes::path_at(all, files, k) == Some(path),
    ensures
        panes::row_of_path(all, files, path, from) matches Some(i) && panes::path_at(
            all,
            files,
            i,
        ) == Some(path),
    decreases k - from,
{
    if panes::path_at(all, files, from) != Some(path) {
        path_row_found(all, files, path, k, from + 1);
    }
}

/// Switching from the tree to the flat list keeps the cursor on its file.
/// Switching to the tree does too, unless a collapsed folder hides the file
/// there.
pub proof fn layout_switch_keeps_file(a: AppView, i: int)
    requires
        panes::file_index(a.changes.rows, a.changes.selected) == Some(i),
        0 <= i < a.changes.files.len(),
        !a.file_tree ==> !tree::hidden(
            tree::dirs_of(a.changes.files[i].path@),
            tree::dirs_of(a.changes.files[i].path@).len() as int,
            a.collapsed_folders,
        ),
    ensures
        a.toggle_layout().changes.path() == a.changes.path(),
        a.toggle_layout().file_tree != a.file_tree,
{
    let files = a.changes.files;
    let all = tree::layout(files, !a.file_tree, a.collapsed_folders);
    if a.file_tree {
        flat_list_has_every_file(files, a.collapsed_folders, i);
    } else {
        visible_file_is_listed(files, a.collapsed_folders, i);
    }
    let k = choose|k: int| panes::file_index(all, k) == Some(i);
    assert(panes::path_at(all, files, k) == Some(files[i].path@));
    path_row_found(all, files, files[i].path@, k, 0);
}

/// Going to a path that the Changes tab lists puts the cursor on a file of that
/// path, whatever was collapsed.
pub proof fn going_to_a_path_lands_there(a: AppView, path: Seq<char>, i: int)
    requires
        a.tab == Tab::Changes,
        a.changes.rows == tree::layout(a.changes.files, a.file_tree, a.collapsed_folders),
        changes::file_with_path(a.changes.files, path, 0) == Some(i),
    ensures
        a.go_to_path(path).changes.path() == Some(path),
{
    let files = a.changes.files;
    file_found(files, path, 0);
    let dirs = tree::dirs_of(path);
    let n = dirs.len() as int;
    let collapsed = changes::opened_to(a.collapsed_folders, dirs, n);
    assert forall|d: int| 1 <= d <= n implies !(#[trigger] collapsed.contains(
        tree::prefix_at(dirs, d),
    )) by {
        changes::opened_shape(a.collapsed_folders, dirs, n, tree::prefix_at(dirs, d));
    }
    assert(!tree::hidden(dirs, n, collapsed));
    let all = if tree::hidden(dirs, n, a.collapsed_folders) {
        tree::layout(files, a.file_tree, collapsed)
    } else {
        a.changes.rows
    };
    let shut = if tree::hidden(dirs, n, a.collapsed_folders) {
        collapsed
    } else {
        a.collapsed_folders
    };
    if a.file_tree {
        visible_file_is_listed(files, shut, i);
    } else {
        flat_list_has_every_file(files, shut, i);
    }
    let k = choose|k: int| panes::file_index(all, k) == Some(i);
    file_row_found(all, i, k, 0);
}

proof fn file_found(files: Seq<StatusEntry>, path: Seq<char>, from: int)
    requires
        0 <= from,
    ensures
        changes::file_with_path(files, path, from) matches Some(i) ==> 0 <= i < files.len()
            && files[i].path@ == path,
    decreases files.len() - from,
{
    if from < files.len() {
        file_found(files, path, from + 1);
    }
}

proof fn file_row_found(all: Seq<RowView>, i: int, k: int, from: int)
    requires
        0 <= from <= k < all.len(),
        panes::file_index(all, k) == Some(i),
    ensures
        panes::row_of_file(all, i, from) matches Some(r) && panes::file_index(all, r) == Some(i),
    decreases k - from,
{
    if panes::file_index(all, from) != Some(i) {
        file_row_found(all, i, k, from + 1);
    }
}

/// Esc in the switch picker clears a filter first, and closes the picker only
/// then.
pub proof fn switch_esc_clears_first(a: AppView, key: KeyEvent)
    requires
        key.code is Esc,
        a.view matches Screen::Switch(p) && p.filter.value.len() > 0,
    ensures
        a.switch_key(key).view matches Screen::Switch(q) && q.filter.value.len() == 0,
        a.switch_key(key).stack == a.stack,
        a.switch_key(key).switch_key(key) == a.switch_key(key).popped(),
{
    reveal(AppView::switch_key);
    reveal(AppView::switch_step);
}

/// A commit is never started without a message and a file.
pub proof fn commit_needs_message_and_file(a: AppView)
    ensures
        a.do_commit().out != a.out ==> match a.view {
            Screen::Commit(d) => text::trimmed(d.input.value).len() > 0
                && crate::marks::marked_paths(d.files, d.marked).len() > 0,
            _ => false,
        },
{
}

/// A commit that fails brings its dialog back as it was, with the message, the
/// marks and the cursor, below the error; and Esc leads from it to the tabs.
pub proof fn failed_commit_keeps_dialog(a: AppView, d: CommitDialog, e: OpError, key: KeyEvent)
    requires
        a.view == Screen::Commit(d),
        a.do_commit().view is Busy,
        key.code is Esc,
    ensures
        match a.do_commit().view {
            Screen::Busy { label, rx, then } => {
                let answered = Screen::Busy {
                    label,
                    rx: TaskView { queue: rx.queue.push(Err(e)), ..rx },
                    then,
                };
                let b = AppView { view: answered, ..a.do_commit() }.busy_polled();
                &&& b.view == Screen::Commit(d)
                &&& b.error == Some(e.text@)
                &&& b.commit_key(key).view is List
            },
            _ => false,
        },
{
    reveal(AppView::commit_key);
}

/// The main worktree is never offered for removal, nor for renaming.
pub proof fn main_worktree_stays(a: AppView, w: model::WorktreeInfo)
    requires
        a.worktree() == Some(w),
        w.is_main,
    ensures
        a.ask_remove().modal == a.modal,
        a.open_rename().view == a.view,
        a.ask_remove().out == a.out,
        a.open_rename().out == a.out,
{
}

/// A worktree with changes is not removed before it was asked what becomes of
/// them; where that could not be read, what was last known decides.
pub proof fn changes_are_asked_about(
    a: AppView,
    name: Seq<char>,
    cached_dirty: int,
    branch: Option<Seq<char>>,
    delete_branch: bool,
    dirty: Option<bool>,
)
    requires
        dirty == Some(true) || (dirty is None && cached_dirty > 0),
    ensures
        a.dirtiness_read(name, cached_dirty, branch, delete_branch, dirty) == a.show(
            dialogs::dirty_question(name, branch, delete_branch),
        ),
{
}

/// Every tick counts, whatever happens in it.
pub proof fn every_tick_counts(a: AppView)
    ensures
        a.ticked().tick_count == a.tick_count.wrapping_add(1),
{
}

/// The settings never hold a change that is not being written: a key that
/// changes one asks for the file to be written.
pub proof fn settings_are_never_unsaved(a: AppView, key: KeyEvent)
    ensures
        a.settings_key(key).settings.fields == a.settings.fields || a.settings_key(key).out
            == a.out.push(RequestView::SaveSettings),
{
    reveal(AppView::settings_key);
}

} // verus!

//! The application's state: what is on screen, and how a change of it is
//! described.

use vstd::prelude::*;
use vstd::string::*;
use vstd::view::View as _;

use crate::candidates::CheckoutCandidate;
use crate::config_editor::{ConfigEditor, EditorView, FieldsView};
use crate::geometry::{Rect, RowList};
use crate::help::HelpTab;
use crate::input::{TextInput, TextState};
use crate::modal;
use crate::modal::{ConfirmOption, Modal, ModalAction, ModalView};
use crate::model;
use crate::model::{
    BranchListItem, CheckOutcome, CherryTarget, ChoiceView, ConflictFile, CreateMsg, GraphLine,
    LogMode, LogRow, Release, ResolutionAction, ResolveKind, StashEntry, Task, TaskView,
    WorktreeInfo,
};
use crate::request;
use crate::request::{BusyOp, ListThen, OpError, OpView, Request, RequestView};
use crate::rows;
use crate::rows::{DiffRow, FolderSet, RowView, StatusEntry};
use crate::setup::{SetupWizard, WizardView};
use crate::styled;
use crate::styled::Line;
use crate::text;
use crate::tree;

verus! {

/// The top-level tabs.
#[derive(Clone, Copy, Debug, PartialEq, Eq, Structural)]
pub enum Tab {
    Worktrees,
    Changes,
    Branches,
    Stash,
    Settings,
}

impl Tab {
    pub const ALL: [Tab; 5] = [
        Tab::Worktrees,
        Tab::Changes,
        Tab::Branches,
        Tab::Stash,
        Tab::Settings,
    ];

    /// The title of the tab.
    pub fn title(self) -> (r: &'static str)
        ensures
            r@ == match self {
                Tab::Worktrees => "Worktrees"@,
                Tab::Changes => "Changes"@,
                Tab::Branches => "Branches"@,
                Tab::Stash => "Stash"@,
                Tab::Settings => "Settings"@,
            },
    {
        match self {
            Tab::Worktrees => "Worktrees",
            Tab::Changes => "Changes",
            Tab::Branches => "Branches",
            Tab::Stash => "Stash",
            Tab::Settings => "Settings",
        }
    }

    /// A glyph shown before the tab's title.
    pub fn glyph(self) -> (r: &'static str)
        ensures
            r@ == match self {
                Tab::Worktrees => "⌂"@,
                Tab::Changes => "±"@,
                Tab::Branches => "⎇"@,
                Tab::Stash => "▤"@,
                Tab::Settings => "⚙"@,
            },
    {
        match self {
            Tab::Worktrees => "⌂",
            Tab::Changes => "±",
            Tab::Branches => "⎇",
            Tab::Stash => "▤",
            Tab::Settings => "⚙",
        }
    }

    /// The place of the tab in `ALL`.
    pub open spec fn place(self) -> int {
        match self {
            Tab::Worktrees => 0,
            Tab::Changes => 1,
            Tab::Branches => 2,
            Tab::Stash => 3,
            Tab::Settings => 4,
        }
    }

    /// The tab at a place of `ALL`.
    pub open spec fn at(i: int) -> Tab {
        Tab::ALL[i % 5]
    }

    /// The next tab, wrapping at the end.
    pub fn next(self) -> (r: Tab)
        ensures
            r == Tab::at(self.place() + 1),
    {
        match self {
            Tab::Worktrees => Tab::Changes,
            Tab::Changes => Tab::Branches,
            Tab::Branches => Tab::Stash,
            Tab::Stash => Tab::Settings,
            Tab::Settings => Tab::Worktrees,
        }
    }

    /// The previous tab, wrapping at the start.
    pub fn prev(self) -> (r: Tab)
        ensures
            r == Tab::at(self.place() + 4),
    {
        match self {
            Tab::Worktrees => Tab::Settings,
            Tab::Changes => Tab::Worktrees,
            Tab::Branches => Tab::Changes,
            Tab::Stash => Tab::Branches,
            Tab::Settings => Tab::Stash,
        }
    }
}

/// Going on to the next tab and back, or back and on, leads nowhere; going on as
/// often as there are tabs comes back to the start.
pub proof fn tabs_cycle(t: Tab)
    ensures
        Tab::at(t.place()) == t,
        Tab::at(Tab::at(t.place() + 1).place() + 4) == t,
        Tab::at(Tab::at(t.place() + 4).place() + 1) == t,
        Tab::at(t.place() + 5) == t,
{
}

/// Which part of the commit dialog has the focus.
#[derive(Clone, Copy, Debug, PartialEq, Eq, Structural)]
pub enum CommitFocus {
    Files,
    Message,
}

/// Why a branch could not be deleted safely.
#[derive(Debug)]
pub enum ForceBranchReason {
    /// It has commits that are merged nowhere.
    NotMerged,
    /// Another worktree has it checked out.
    CheckedOutElsewhere(String),
}

impl ForceBranchReason {
    /// The worktree that has the branch checked out, if that is the reason.
    pub open spec fn elsewhere(self) -> Option<Seq<char>> {
        match self {
            ForceBranchReason::NotMerged => None,
            ForceBranchReason::CheckedOutElsewhere(w) => Some(w@),
        }
    }
}

/// What to do once a background operation has ended.
#[allow(inconsistent_fields)]
#[derive(Debug)]
pub enum BusyThen {
    List,
    Stash(String),
    Branch,
    /// A commit; the dialog comes back when it fails.
    Commit {
        name: String,
        files: Vec<StatusEntry>,
        marked: Vec<bool>,
        cursor: usize,
        input: TextInput,
        focus: CommitFocus,
    },
    /// A pull; a refused one is offered again with a rebase.
    Pull { name: String },
    /// A worktree was removed; its branch goes next.
    DeleteBranch { name: String, branch: String },
    /// Conflicts may be left to resolve.
    Resolve { target: String, source_label: String, kind: ResolveKind },
    /// A new binary was installed.
    Restart { exe: String },
}

/// What to do once a background operation has ended.
pub enum ThenView {
    List,
    Stash(Seq<char>),
    Branch,
    Commit(CommitDialog),
    Pull { name: Seq<char> },
    DeleteBranch { name: Seq<char>, branch: Seq<char> },
    Resolve { target: Seq<char>, source_label: Seq<char>, kind: ResolveKind },
    Restart { exe: Seq<char> },
}

impl vstd::view::View for BusyThen {
    type V = ThenView;

    open spec fn view(&self) -> ThenView {
        match self {
            BusyThen::List => ThenView::List,
            BusyThen::Stash(name) => ThenView::Stash(name@),
            BusyThen::Branch => ThenView::Branch,
            BusyThen::Commit { name, files, marked, cursor, input, focus } => ThenView::Commit(
                CommitDialog {
                    name: name@,
                    files: files@,
                    marked: marked@,
                    cursor: *cursor as int,
                    input: input@,
                    focus: *focus,
                },
            ),
            BusyThen::Pull { name } => ThenView::Pull { name: name@ },
            BusyThen::DeleteBranch { name, branch } => ThenView::DeleteBranch {
                name: name@,
                branch: branch@,
            },
            BusyThen::Resolve { target, source_label, kind } => ThenView::Resolve {
                target: target@,
                source_label: source_label@,
                kind: *kind,
            },
            BusyThen::Restart { exe } => ThenView::Restart { exe: exe@ },
        }
    }
}

/// A file with conflicts and the resolution chosen for each of them.
#[derive(Debug)]
pub struct ResolverFile {
    pub file: ConflictFile,
    /// The choice for each conflict; none until one was made.
    pub actions: Vec<Option<ResolutionAction>>,
    /// Cursor over the conflicts.
    pub hunk: usize,
}

/// What the resolver shows of a file.
pub struct ResolverView {
    pub file: ConflictFile,
    pub actions: Seq<Option<ChoiceView>>,
    pub hunk: int,
}

/// The view of an optional choice.
pub open spec fn choice_view(a: Option<ResolutionAction>) -> Option<ChoiceView> {
    match a {
        Some(c) => Some(c@),
        None => None,
    }
}

impl vstd::view::View for ResolverFile {
    type V = ResolverView;

    open spec fn view(&self) -> ResolverView {
        ResolverView {
            file: self.file,
            actions: self.actions@.map_values(|a: Option<ResolutionAction>| choice_view(a)),
            hunk: self.hunk as int,
        }
    }
}

/// The view of an optional resolver file.
pub open spec fn resolver_view(r: Option<ResolverFile>) -> Option<ResolverView> {
    match r {
        Some(f) => Some(f@),
        None => None,
    }
}

/// The view of an optional background operation.
pub open spec fn task_view<T>(t: Option<Task<T>>) -> Option<TaskView<T>> {
    match t {
        Some(k) => Some(k@),
        None => None,
    }
}

/// The view of an optional modal.
pub open spec fn modal_view(m: Option<Modal>) -> Option<ModalView> {
    match m {
        Some(k) => Some(k@),
        None => None,
    }
}

/// Which screen is on top.
#[allow(inconsistent_fields)]
#[derive(Debug)]
pub enum View {
    /// The tabs.
    List,
    /// New-worktree dialog. The first row creates a branch off `base`; the rows below
    /// check an existing branch out. `name` also narrows the list.
    Create {
        name: TextInput,
        branches: Vec<CheckoutCandidate>,
        all_branches: Vec<String>,
        base: String,
        selected: usize,
        base_focus: bool,
        base_pick: Option<usize>,
    },
    /// Progress of a create that is running.
    Creating {
        branch: String,
        lines: Vec<String>,
        rx: Task<CreateMsg>,
        done: bool,
        input: String,
        kill_armed: bool,
    },
    /// Prompt for a command to run in a worktree.
    RunCommand {
        name: String,
        path: String,
        input: TextInput,
    },
    /// Prompt for a worktree's new name.
    RenameWorktree {
        name: String,
        input: TextInput,
    },
    /// The first-run setup wizard.
    Setup(Box<SetupWizard>),
    /// Commit dialog: pick files and type a message.
    Commit {
        name: String,
        files: Vec<StatusEntry>,
        marked: Vec<bool>,
        cursor: usize,
        input: TextInput,
        focus: CommitFocus,
    },
    /// Picker for switching a worktree to another branch.
    Switch {
        name: String,
        branches: Vec<CheckoutCandidate>,
        filter: TextInput,
        selected: usize,
    },
    /// Commit log of a worktree.
    Log {
        name: String,
        lines: Vec<GraphLine>,
        selected: usize,
    },
    /// Browser for the files that a commit changed.
    CommitDiff {
        name: String,
        hash: String,
        label: String,
        files: Vec<StatusEntry>,
        rows: Vec<DiffRow>,
        selected: usize,
        content: String,
        content_path: Option<String>,
        load_gen: u64,
        pending: Option<Task<(u64, String, String)>>,
        loading_new: bool,
        scroll: u16,
    },
    /// Commits of a branch, which can be marked for cherry-picking.
    BranchCommits {
        branch: String,
        lines: Vec<GraphLine>,
        marked: Vec<bool>,
        selected: usize,
    },
    /// Where to cherry-pick to, and how.
    CherryPick {
        source_branch: String,
        commits: Vec<String>,
        summaries: Vec<String>,
        targets: Vec<CherryTarget>,
        selected: usize,
        mode: Option<usize>,
    },
    /// Where to merge a branch into.
    MergePick {
        source_branch: String,
        targets: Vec<CherryTarget>,
        selected: usize,
    },
    /// The conflicts that an operation left.
    ConflictResolver {
        target: String,
        source_label: String,
        kind: ResolveKind,
        files: Vec<String>,
        resolved: Vec<bool>,
        file: usize,
        current: Option<ResolverFile>,
    },
    /// An operation that is running in the background.
    Busy {
        label: String,
        rx: Task<Result<String, OpError>>,
        then: BusyThen,
    },
}

/// What the new-worktree dialog shows.
pub struct CreateDialog {
    pub name: TextState,
    pub branches: Seq<CheckoutCandidate>,
    pub all_branches: Seq<Seq<char>>,
    pub base: Seq<char>,
    pub selected: int,
    pub base_focus: bool,
    pub base_pick: Option<int>,
}

/// What a create that is running shows.
pub struct CreateRun {
    pub branch: Seq<char>,
    pub lines: Seq<Seq<char>>,
    pub rx: TaskView<CreateMsg>,
    pub done: bool,
    pub input: Seq<char>,
    pub kill_armed: bool,
}

/// What the commit dialog shows.
pub struct CommitDialog {
    pub name: Seq<char>,
    pub files: Seq<StatusEntry>,
    pub marked: Seq<bool>,
    pub cursor: int,
    pub input: TextState,
    pub focus: CommitFocus,
}

/// What the switch picker shows.
pub struct SwitchPicker {
    pub name: Seq<char>,
    pub branches: Seq<CheckoutCandidate>,
    pub filter: TextState,
    pub selected: int,
}

/// What the browser for a commit shows.
pub struct CommitBrowser {
    pub name: Seq<char>,
    pub hash: Seq<char>,
    pub label: Seq<char>,
    pub files: Seq<StatusEntry>,
    pub rows: Seq<RowView>,
    pub selected: int,
    pub content: Seq<char>,
    pub content_path: Option<Seq<char>>,
    pub load_gen: u64,
    pub pending: Option<TaskView<(u64, String, String)>>,
    pub loading_new: bool,
    pub scroll: u16,
}

/// What the history of a branch shows.
pub struct BranchHistory {
    pub branch: Seq<char>,
    pub lines: Seq<LogRow>,
    pub marked: Seq<bool>,
    pub selected: int,
}

/// What the cherry-pick picker shows.
pub struct CherryPicker {
    pub source_branch: Seq<char>,
    pub commits: Seq<Seq<char>>,
    pub summaries: Seq<Seq<char>>,
    pub targets: Seq<CherryTarget>,
    pub selected: int,
    pub mode: Option<int>,
}

/// What the conflict resolver shows.
pub struct ResolverScreen {
    pub target: Seq<char>,
    pub source_label: Seq<char>,
    pub kind: ResolveKind,
    pub files: Seq<Seq<char>>,
    pub resolved: Seq<bool>,
    pub file: int,
    pub current: Option<ResolverView>,
}

/// What a screen shows.
#[allow(inconsistent_fields)]
pub enum Screen {
    List,
    Create(CreateDialog),
    Creating(CreateRun),
    RunCommand {
        name: Seq<char>,
        path: Seq<char>,
        input: TextState,
    },
    RenameWorktree {
        name: Seq<char>,
        input: TextState,
    },
    Setup(WizardView),
    Commit(CommitDialog),
    Switch(SwitchPicker),
    Log {
        name: Seq<char>,
        lines: Seq<LogRow>,
        selected: int,
    },
    CommitDiff(CommitBrowser),
    BranchCommits(BranchHistory),
    CherryPick(CherryPicker),
    MergePick {
        source_branch: Seq<char>,
        targets: Seq<CherryTarget>,
        selected: int,
    },
    ConflictResolver(ResolverScreen),
    Busy {
        label: Seq<char>,
        rx: TaskView<Result<String, OpError>>,
        then: ThenView,
    },
}

impl vstd::view::View for View {
    type V = Screen;

    open spec fn view(&self) -> Screen {
        match self {
            View::List => Screen::List,
            View::Create { name, branches, all_branches, base, selected, base_focus, base_pick } => Screen::Create(
                CreateDialog {
                    name: name@,
                    branches: branches@,
                    all_branches: text::views(all_branches@),
                    base: base@,
                    selected: *selected as int,
                    base_focus: *base_focus,
                    base_pick: modal::at(*base_pick),
                },
            ),
            View::Creating { branch, lines, rx, done, input, kill_armed } => Screen::Creating(
                CreateRun {
                    branch: branch@,
                    lines: text::views(lines@),
                    rx: rx@,
                    done: *done,
                    input: input@,
                    kill_armed: *kill_armed,
                },
            ),
            View::RunCommand { name, path, input } => Screen::RunCommand {
                name: name@,
                path: path@,
                input: input@,
            },
            View::RenameWorktree { name, input } => Screen::RenameWorktree {
                name: name@,
                input: input@,
            },
            View::Setup(w) => Screen::Setup(w@),
            View::Commit { name, files, marked, cursor, input, focus } => Screen::Commit(
                CommitDialog {
                    name: name@,
                    files: files@,
                    marked: marked@,
                    cursor: *cursor as int,
                    input: input@,
                    focus: *focus,
                },
            ),
            View::Switch { name, branches, filter, selected } => Screen::Switch(
                SwitchPicker {
                    name: name@,
                    branches: branches@,
                    filter: filter@,
                    selected: *selected as int,
                },
            ),
            View::Log { name, lines, selected } => Screen::Log {
                name: name@,
                lines: model::log_rows(lines@),
                selected: *selected as int,
            },
            View::CommitDiff { name, hash, label, files, rows, selected, content, content_path, load_gen, pending, loading_new, scroll } => Screen::CommitDiff(
                CommitBrowser {
                    name: name@,
                    hash: hash@,
                    label: label@,
                    files: files@,
                    rows: rows::row_views(rows@),
                    selected: *selected as int,
                    content: content@,
                    content_path: model::opt(*content_path),
                    load_gen: *load_gen,
                    pending: task_view(*pending),
                    loading_new: *loading_new,
                    scroll: *scroll,
                },
            ),
            View::BranchCommits { branch, lines, marked, selected } => Screen::BranchCommits(
                BranchHistory {
                    branch: branch@,
                    lines: model::log_rows(lines@),
                    marked: marked@,
                    selected: *selected as int,
                },
            ),
            View::CherryPick { source_branch, commits, summaries, targets, selected, mode } => Screen::CherryPick(
                CherryPicker {
                    source_branch: source_branch@,
                    commits: text::views(commits@),
                    summaries: text::views(summaries@),
                    targets: targets@,
                    selected: *selected as int,
                    mode: modal::at(*mode),
                },
            ),
            View::MergePick { source_branch, targets, selected } => Screen::MergePick {
                source_branch: source_branch@,
                targets: targets@,
                selected: *selected as int,
            },
            View::ConflictResolver { target, source_label, kind, files, resolved, file, current } => Screen::ConflictResolver(
                ResolverScreen {
                    target: target@,
                    source_label: source_label@,
                    kind: *kind,
                    files: text::views(files@),
                    resolved: resolved@,
                    file: *file as int,
                    current: resolver_view(*current),
                },
            ),
            View::Busy { label, rx, then } => Screen::Busy {
                label: label@,
                rx: rx@,
                then: then@,
            },
        }
    }
}

/// The views of a list of screens.
pub open spec fn screens(v: Seq<View>) -> Seq<Screen> {
    v.map_values(|s: View| s@)
}

impl Screen {
    /// Lists kept side by side have one length, and cursors that are followed
    /// lie in their lists.
    pub open spec fn wf(self) -> bool {
        match self {
            Screen::Log { lines, selected, .. } => 0 <= selected <= lines.len(),
            Screen::CommitDiff(c) => tree::rows_fit(c.rows, c.files.len() as int),
            Screen::BranchCommits(b) => b.marked.len() == b.lines.len() && 0 <= b.selected
                <= b.lines.len(),
            Screen::CherryPick(c) => c.mode matches Some(m) ==> m == 0 || m == 1,
            Screen::ConflictResolver(r) => {
                &&& r.resolved.len() == r.files.len()
                &&& r.files.len() > 0 ==> 0 <= r.file < r.files.len()
                &&& r.current is Some ==> r.files.len() > 0
            },
            _ => true,
        }
    }
}

/// The Changes tab: the changed files of one worktree, and the diff of one of
/// them.
#[derive(Debug)]
pub struct ChangesTab {
    /// Worktree that the changes belong to; empty before the tab was opened.
    pub name: String,
    /// Changed files.
    pub files: Vec<StatusEntry>,
    /// Whether each file is marked for commit.
    pub marked: Vec<bool>,
    /// The files as rows; `selected` is a place in them.
    pub rows: Vec<DiffRow>,
    /// Cursor into `rows`.
    pub selected: usize,
    /// Diff of the file under the cursor.
    pub content: String,
    /// Path that `content` is the diff of.
    pub content_path: Option<String>,
    /// Bumped with every load, so that late results are told apart.
    pub load_gen: u64,
    /// The load that is running.
    pub pending: Option<Task<(u64, String, String)>>,
    /// Whether that load is for another file than the one shown.
    pub loading_new: bool,
    /// First line of the diff on screen.
    pub scroll: u16,
    /// When the files were last read.
    pub last_refresh: u64,
}

/// What the Changes tab shows.
pub struct ChangesView {
    pub name: Seq<char>,
    pub files: Seq<StatusEntry>,
    pub marked: Seq<bool>,
    pub rows: Seq<RowView>,
    pub selected: int,
    pub content: Seq<char>,
    pub content_path: Option<Seq<char>>,
    pub load_gen: u64,
    pub pending: Option<TaskView<(u64, String, String)>>,
    pub loading_new: bool,
    pub scroll: u16,
    pub last_refresh: u64,
}

impl vstd::view::View for ChangesTab {
    type V = ChangesView;

    open spec fn view(&self) -> ChangesView {
        ChangesView {
            name: self.name@,
            files: self.files@,
            marked: self.marked@,
            rows: rows::row_views(self.rows@),
            selected: self.selected as int,
            content: self.content@,
            content_path: model::opt(self.content_path),
            load_gen: self.load_gen,
            pending: task_view(self.pending),
            loading_new: self.loading_new,
            scroll: self.scroll,
            last_refresh: self.last_refresh,
        }
    }
}

impl ChangesView {
    /// The tab before it was opened.
    pub open spec fn closed(now: u64) -> ChangesView {
        ChangesView {
            name: Seq::empty(),
            files: Seq::empty(),
            marked: Seq::empty(),
            rows: Seq::empty(),
            selected: 0,
            content: Seq::empty(),
            content_path: None,
            load_gen: 0,
            pending: None,
            loading_new: false,
            scroll: 0,
            last_refresh: now,
        }
    }
}

impl ChangesTab {
    /// The tab before it was opened.
    pub fn new(now: u64) -> (r: ChangesTab)
        ensures
            r@ == ChangesView::closed(now),
    {
        let r = ChangesTab {
            name: String::new(),
            files: Vec::new(),
            marked: Vec::new(),
            rows: Vec::new(),
            selected: 0,
            content: String::new(),
            content_path: None,
            load_gen: 0,
            pending: None,
            loading_new: false,
            scroll: 0,
            last_refresh: now,
        };
        assert(r@.rows =~= Seq::<RowView>::empty());
        r
    }
}

/// The state of the application.
pub struct App {
    /// The repository's root.
    pub repo_root: String,
    /// The version that is running.
    pub version: String,
    /// The command that opens a worktree, if one is configured.
    pub open_command: Option<String>,
    /// Where new worktrees are created.
    pub worktree_base: Option<String>,
    /// The worktrees.
    pub worktrees: Vec<WorktreeInfo>,
    /// Cursor into `worktrees`.
    pub selected: usize,
    /// Changed files of the selected worktree.
    pub worktree_preview: Vec<StatusEntry>,
    /// Which worktree `worktree_preview` is of.
    pub preview_for: Option<usize>,
    /// First row of the preview on screen.
    pub preview_scroll: usize,
    /// Where the preview was drawn.
    pub preview_list: Option<RowList>,
    /// The active tab.
    pub tab: Tab,
    /// The Changes tab.
    pub changes: ChangesTab,
    /// The branches.
    pub branches: Vec<BranchListItem>,
    /// Cursor into `branches`.
    pub branch_selected: usize,
    /// Worktree that the stash entries belong to.
    pub stash_name: String,
    /// The stash entries.
    pub stash_entries: Vec<StashEntry>,
    /// Cursor into `stash_entries`.
    pub stash_selected: usize,
    /// The Settings tab.
    pub settings: ConfigEditor,
    /// The screen on top.
    pub view: View,
    /// The screens below it, oldest first.
    pub stack: Vec<View>,
    /// The modal overlay, if one is open.
    pub modal: Option<Modal>,
    /// Where the active list was drawn.
    pub row_list: Option<RowList>,
    /// Where the tab labels were drawn.
    pub tab_hits: Vec<(Rect, Tab)>,
    /// Where the diff's path was drawn.
    pub diff_path_hit: Option<Rect>,
    /// Column, row and time of the last click.
    pub last_click: Option<(u16, u16, u64)>,
    /// Status line.
    pub message: Option<String>,
    /// When the status line appeared.
    pub message_at: Option<u64>,
    /// The status line that this time is of.
    pub message_shown: Option<String>,
    /// Error popup; any key dismisses it.
    pub error: Option<String>,
    /// Number of ticks.
    pub tick_count: u64,
    /// How commit history is drawn.
    pub log_mode: LogMode,
    /// Whether changed files are drawn as a tree.
    pub file_tree: bool,
    /// The folders collapsed in the tree.
    pub collapsed_folders: FolderSet,
    /// When the lists were last reloaded.
    pub last_auto_refresh: u64,
    /// Whether the help panel is open.
    pub show_help: bool,
    /// The help tab.
    pub help_tab: HelpTab,
    /// First line of the help on screen.
    pub help_scroll: u16,
    /// The update check that is running.
    pub update_check: Option<Task<Result<CheckOutcome, String>>>,
    /// Whether the user asked for it.
    pub update_check_requested: bool,
    /// The newer release that was found.
    pub update_available: Option<Release>,
    /// Whether the update prompt was shown.
    pub update_prompted: bool,
    /// The binary to hand over to.
    pub restart_exe: Option<String>,
    /// Whether to quit.
    pub quit: bool,
    /// The time, in milliseconds.
    pub now: u64,
    /// The number of the next background operation.
    pub next_task: u64,
    /// What is asked of the services around the interface, oldest first.
    pub out: Vec<Request>,
}

/// What the application holds.
#[verifier::ext_equal]
pub struct AppView {
    pub repo_root: Seq<char>,
    pub version: Seq<char>,
    pub open_command: Option<Seq<char>>,
    pub worktree_base: Option<Seq<char>>,
    pub worktrees: Seq<WorktreeInfo>,
    pub selected: int,
    pub worktree_preview: Seq<StatusEntry>,
    pub preview_for: Option<int>,
    pub preview_scroll: int,
    pub preview_list: Option<RowList>,
    pub tab: Tab,
    pub changes: ChangesView,
    pub branches: Seq<BranchListItem>,
    pub branch_selected: int,
    pub stash_name: Seq<char>,
    pub stash_entries: Seq<StashEntry>,
    pub stash_selected: int,
    pub settings: EditorView,
    pub view: Screen,
    pub stack: Seq<Screen>,
    pub modal: Option<ModalView>,
    pub row_list: Option<RowList>,
    pub tab_hits: Seq<(Rect, Tab)>,
    pub diff_path_hit: Option<Rect>,
    pub last_click: Option<(u16, u16, u64)>,
    pub message: Option<Seq<char>>,
    pub message_at: Option<u64>,
    pub message_shown: Option<Seq<char>>,
    pub error: Option<Seq<char>>,
    pub tick_count: u64,
    pub log_mode: LogMode,
    pub file_tree: bool,
    pub collapsed_folders: Set<Seq<char>>,
    pub last_auto_refresh: u64,
    pub show_help: bool,
    pub help_tab: HelpTab,
    pub help_scroll: u16,
    pub update_check: Option<TaskView<Result<CheckOutcome, String>>>,
    pub update_check_requested: bool,
    pub update_available: Option<Release>,
    pub update_prompted: bool,
    pub restart_exe: Option<Seq<char>>,
    pub quit: bool,
    pub now: u64,
    pub next_task: u64,
    pub out: Seq<RequestView>,
}

impl vstd::view::View for App {
    type V = AppView;

    open spec fn view(&self) -> AppView {
        AppView {
            repo_root: self.repo_root@,
            version: self.version@,
            open_command: model::opt(self.open_command),
            worktree_base: model::opt(self.worktree_base),
            worktrees: self.worktrees@,
            selected: self.selected as int,
            worktree_preview: self.worktree_preview@,
            preview_for: modal::at(self.preview_for),
            preview_scroll: self.preview_scroll as int,
            preview_list: self.preview_list,
            tab: self.tab,
            changes: self.changes@,
            branches: self.branches@,
            branch_selected: self.branch_selected as int,
            stash_name: self.stash_name@,
            stash_entries: self.stash_entries@,
            stash_selected: self.stash_selected as int,
            settings: self.settings@,
            view: self.view@,
            stack: screens(self.stack@),
            modal: modal_view(self.modal),
            row_list: self.row_list,
            tab_hits: self.tab_hits@,
            diff_path_hit: self.diff_path_hit,
            last_click: self.last_click,
            message: model::opt(self.message),
            message_at: self.message_at,
            message_shown: model::opt(self.message_shown),
            error: model::opt(self.error),
            tick_count: self.tick_count,
            log_mode: self.log_mode,
            file_tree: self.file_tree,
            collapsed_folders: self.collapsed_folders@,
            last_auto_refresh: self.last_auto_refresh,
            show_help: self.show_help,
            help_tab: self.help_tab,
            help_scroll: self.help_scroll,
            update_check: task_view(self.update_check),
            update_check_requested: self.update_check_requested,
            update_available: self.update_available,
            update_prompted: self.update_prompted,
            restart_exe: model::opt(self.restart_exe),
            quit: self.quit,
            now: self.now,
            next_task: self.next_task,
            out: request::request_views(self.out@),
        }
    }
}

impl AppView {
    /// Every screen, the Changes tab, the Settings tab and the modal are in
    /// order.
    pub open spec fn wf(self) -> bool {
        &&& self.view.wf()
        &&& forall|i: int| 0 <= i < self.stack.len() ==> (#[trigger] self.stack[i]).wf()
        &&& tree::rows_fit(self.changes.rows, self.changes.files.len() as int)
        &&& self.settings.wf()
        &&& self.modal matches Some(m) ==> m.wf()
    }

    /// With a status line.
    pub open spec fn say(self, m: Seq<char>) -> AppView {
        AppView { message: Some(m), ..self }
    }

    /// With an error popup.
    pub open spec fn fail(self, e: Seq<char>) -> AppView {
        AppView { error: Some(e), ..self }
    }

    /// With one more request.
    pub open spec fn ask(self, r: RequestView) -> AppView {
        AppView { out: self.out.push(r), ..self }
    }

    /// With the list of worktrees asked for, and what follows then.
    pub open spec fn list(self, then: request::ListThenView) -> AppView {
        AppView { last_auto_refresh: self.now, ..self }.ask(RequestView::ListWorktrees { then })
    }

    /// With the list of worktrees asked for.
    pub open spec fn refresh(self) -> AppView {
        self.list(request::ListThenView::Refresh)
    }

    /// With a screen opened on top.
    pub open spec fn pushed(self, s: Screen) -> AppView {
        AppView { view: s, stack: self.stack.push(self.view), ..self }
    }

    /// Back on the screen below; on the tabs when there is none.
    pub open spec fn popped(self) -> AppView {
        if self.stack.len() > 0 {
            AppView { view: self.stack.last(), stack: self.stack.drop_last(), ..self }
        } else {
            AppView { view: Screen::List, ..self }
        }
    }

    /// Back on the tabs.
    pub open spec fn rooted(self) -> AppView {
        AppView { view: Screen::List, stack: Seq::empty(), ..self }
    }

    /// With a modal open.
    pub open spec fn show(self, m: ModalView) -> AppView {
        AppView { modal: Some(m), ..self }
    }

    /// With the number of the next background operation used up.
    pub open spec fn numbered(self) -> AppView {
        AppView { next_task: self.next_task.wrapping_add(1), ..self }
    }

    /// With a background operation started while the screen waits.
    pub open spec fn busy(self, label: Seq<char>, then: ThenView, op: OpView) -> AppView {
        AppView {
            stack: Seq::empty(),
            view: Screen::Busy { label, rx: TaskView::started(self.next_task), then },
            ..self
        }.numbered().ask(RequestView::Busy { task: self.next_task, op })
    }

    /// The worktree under the cursor.
    pub open spec fn worktree(self) -> Option<WorktreeInfo> {
        if 0 <= self.selected < self.worktrees.len() {
            Some(self.worktrees[self.selected])
        } else {
            None
        }
    }

    /// The name of the branch under the cursor.
    pub open spec fn branch(self) -> Option<BranchListItem> {
        if 0 <= self.branch_selected < self.branches.len() {
            Some(self.branches[self.branch_selected])
        } else {
            None
        }
    }
}

/// A screen opened on top and closed again leaves everything as it was.
pub proof fn push_then_pop(a: AppView, s: Screen)
    ensures
        a.pushed(s).popped() == a,
{
    assert(a.stack.push(a.view).drop_last() =~= a.stack);
}

/// What is known when the application starts.
pub struct Startup {
    pub repo_root: String,
    pub version: String,
    pub open_command: Option<String>,
    pub worktree_base: Option<String>,
    /// Whether the repository has a settings file.
    pub initialized: bool,
    /// The settings for the editor, if they could be read.
    pub settings: Option<crate::config::RepoConfigFields>,
    /// The file of the global settings.
    pub global_config: Option<String>,
    /// Whether to look for a newer release.
    pub auto_update_check: bool,
    pub now: u64,
}

impl App {
    /// Every screen, the Changes tab, the Settings tab and the modal are in
    /// order.
    pub open spec fn wf(self) -> bool {
        self@.wf()
    }

    /// With a status line.
    pub fn say(&mut self, m: String)
        ensures
            final(self)@ == old(self)@.say(m@),
    {
        self.message = Some(m);
    }

    /// Shows `msg` as an error popup.
    pub fn set_error(&mut self, msg: String)
        ensures
            final(self)@ == old(self)@.fail(msg@),
    {
        self.error = Some(msg);
    }

    /// Puts a request into the outbox.
    pub fn ask(&mut self, r: Request)
        ensures
            final(self)@ == old(self)@.ask(r@),
    {
        self.out.push(r);
        assert(self@.out =~= old(self)@.out.push(r@));
    }

    /// Empties the outbox.
    pub fn take_requests(&mut self) -> (r: Vec<Request>)
        ensures
            request::request_views(r@) == old(self)@.out,
            final(self)@ == (AppView { out: Seq::empty(), ..old(self)@ }),
    {
        let r = text::replace(&mut self.out, Vec::new());
        assert(self@.out =~= Seq::<RequestView>::empty());
        r
    }

    /// Sets the clock, in milliseconds.
    pub fn set_now(&mut self, now: u64)
        ensures
            final(self)@ == (AppView { now, ..old(self)@ }),
    {
        self.now = now;
    }

    /// Opens `screen`, so that `pop_screen` comes back to the current one.
    pub fn push_screen(&mut self, screen: View)
        ensures
            final(self)@ == old(self)@.pushed(screen@),
    {
        let prev = text::replace(&mut self.view, screen);
        self.stack.push(prev);
        assert(self@.stack =~= old(self)@.stack.push(old(self)@.view));
    }

    /// Goes back to the screen that opened the current one, or to the tabs.
    pub fn pop_screen(&mut self)
        ensures
            final(self)@ == old(self)@.popped(),
    {
        match self.stack.pop() {
            Some(v) => {
                self.view = v;
                assert(self@.stack =~= old(self)@.stack.drop_last());
            },
            None => {
                self.view = View::List;
                assert(self@.stack =~= old(self)@.stack);
            },
        }
    }

    /// Goes straight back to the tabs.
    pub fn go_root(&mut self)
        ensures
            final(self)@ == old(self)@.rooted(),
    {
        self.stack = Vec::new();
        self.view = View::List;
        assert(self@.stack =~= Seq::<Screen>::empty());
    }

    /// Asks for the list of worktrees.
    pub fn refresh(&mut self)
        ensures
            final(self)@ == old(self)@.refresh(),
    {
        self.last_auto_refresh = self.now;
        self.ask(Request::ListWorktrees { then: ListThen::Refresh });
    }

    /// Takes the number of the next background operation.
    pub fn take_number(&mut self) -> (r: u64)
        ensures
            r == old(self)@.next_task,
            final(self)@ == old(self)@.numbered(),
    {
        let r: u64 = self.next_task;
        self.next_task = self.next_task.wrapping_add(1);
        r
    }

    /// Starts `op` in the background and shows the busy overlay until its result
    /// is there. Whatever `then` opens lands on the tabs, so the stack is
    /// dropped.
    pub fn start_busy(&mut self, label: String, then: BusyThen, op: BusyOp)
        ensures
            final(self)@ == old(self)@.busy(label@, then@, op@),
    {
        let task: u64 = self.take_number();
        self.stack = Vec::new();
        self.view = View::Busy { label, rx: Task::new(task), then };
        assert(self@.stack =~= Seq::<Screen>::empty());
        self.ask(Request::Busy { task, op });
    }

    /// Opens a choice, highlighting its first option that can be chosen.
    pub fn push_confirm(
        &mut self,
        title: &str,
        body: Vec<Line>,
        options: Vec<ConfirmOption>,
        action: ModalAction,
    )
        ensures
            final(self)@ == old(self)@.show(
                modal::confirm(
                    title@,
                    styled::line_views(body@),
                    modal::option_views(options@),
                    action@,
                ),
            ),
            final(self)@.modal->0.wf(),
    {
        self.modal = Some(modal::new_confirm(title, body, options, action));
    }

    /// Opens a prompt.
    pub fn push_prompt(&mut self, title: &str, input: TextInput, hint: &str, action: ModalAction)
        ensures
            final(self)@ == old(self)@.show(modal::prompt(title@, input@, hint@, action@)),
    {
        self.modal = Some(
            Modal::Prompt { title: title.to_string(), input, hint: hint.to_string(), action },
        );
    }

    /// The worktree under the cursor.
    pub fn selected_worktree(&self) -> (r: Option<&WorktreeInfo>)
        ensures
            match r {
                Some(w) => self@.worktree() == Some(*w),
                None => self@.worktree() is None,
            },
    {
        if self.selected < self.worktrees.len() {
            Some(&self.worktrees[self.selected])
        } else {
            None
        }
    }

    /// The name of the worktree under the cursor.
    pub fn selected_name(&self) -> (r: Option<String>)
        ensures
            match r {
                Some(n) => self@.worktree() matches Some(w) && w.name@ == n@,
                None => self@.worktree() is None,
            },
    {
        match self.selected_worktree() {
            Some(w) => Some(w.name.clone()),
            None => None,
        }
    }

    /// The name of the branch under the cursor.
    pub fn selected_branch(&self) -> (r: Option<String>)
        ensures
            match r {
                Some(n) => self@.branch() matches Some(b) && b.name@ == n@,
                None => self@.branch() is None,
            },
    {
        if self.branch_selected < self.branches.len() {
            Some(self.branches[self.branch_selected].name.clone())
        } else {
            None
        }
    }

    /// The application as it starts: on the worktrees, or in the setup wizard
    /// when the repository has no settings file.
    pub fn new(s: Startup) -> (r: App)
        ensures
            r@ == AppView::started(s),
            r.wf(),
    {
        let root = s.repo_root.clone();
        let view = if s.initialized {
            View::List
        } else {
            View::Setup(Box::new(SetupWizard::new(s.repo_root.clone())))
        };
        let settings = match s.settings {
            Some(fields) => ConfigEditor::load(root, s.global_config, fields),
            None => ConfigEditor::empty(root, s.global_config),
        };
        let mut app = App {
            repo_root: s.repo_root,
            version: s.version,
            open_command: s.open_command,
            worktree_base: s.worktree_base,
            worktrees: Vec::new(),
            selected: 0,
            worktree_preview: Vec::new(),
            preview_for: None,
            preview_scroll: 0,
            preview_list: None,
            tab: Tab::Worktrees,
            changes: ChangesTab::new(s.now),
            branches: Vec::new(),
            branch_selected: 0,
            stash_name: String::new(),
            stash_entries: Vec::new(),
            stash_selected: 0,
            settings,
            view,
            stack: Vec::new(),
            modal: None,
            row_list: None,
            tab_hits: Vec::new(),
            diff_path_hit: None,
            last_click: None,
            message: None,
            message_at: None,
            message_shown: None,
            error: None,
            tick_count: 0,
            log_mode: LogMode::Tree,
            file_tree: true,
            collapsed_folders: FolderSet::new(),
            last_auto_refresh: s.now,
            show_help: false,
            help_tab: HelpTab::Basics,
            help_scroll: 0,
            update_check: None,
            update_check_requested: false,
            update_available: None,
            update_prompted: false,
            restart_exe: None,
            quit: false,
            now: s.now,
            next_task: 0,
            out: Vec::new(),
        };
        assert(app@ =~= AppView::opened(s)) by {
            assert(app@.stack =~= Seq::<Screen>::empty());
            assert(app@.out =~= Seq::<RequestView>::empty());
        }
        if s.initialized {
            app.refresh();
        }
        if s.auto_update_check {
            app.start_update_check(false);
        }
        app
    }
}

impl AppView {
    /// The application before it asked for anything.
    pub open spec fn opened(s: Startup) -> AppView {
        AppView {
            repo_root: s.repo_root@,
            version: s.version@,
            open_command: model::opt(s.open_command),
            worktree_base: model::opt(s.worktree_base),
            worktrees: Seq::empty(),
            selected: 0,
            worktree_preview: Seq::empty(),
            preview_for: None,
            preview_scroll: 0,
            preview_list: None,
            tab: Tab::Worktrees,
            changes: ChangesView::closed(s.now),
            branches: Seq::empty(),
            branch_selected: 0,
            stash_name: Seq::empty(),
            stash_entries: Seq::empty(),
            stash_selected: 0,
            settings: EditorView::loaded(
                s.repo_root@,
                model::opt(s.global_config),
                match s.settings {
                    Some(f) => f@,
                    None => FieldsView::unset(),
                },
            ),
            view: if s.initialized {
                Screen::List
            } else {
                Screen::Setup(WizardView::welcome(s.repo_root@))
            },
            stack: Seq::empty(),
            modal: None,
            row_list: None,
            tab_hits: Seq::empty(),
            diff_path_hit: None,
            last_click: None,
            message: None,
            message_at: None,
            message_shown: None,
            error: None,
            tick_count: 0,
            log_mode: LogMode::Tree,
            file_tree: true,
            collapsed_folders: Set::empty(),
            last_auto_refresh: s.now,
            show_help: false,
            help_tab: HelpTab::Basics,
            help_scroll: 0,
            update_check: None,
            update_check_requested: false,
            update_available: None,
            update_prompted: false,
            restart_exe: None,
            quit: false,
            now: s.now,
            next_task: 0,
            out: Seq::empty(),
        }
    }

    /// The application as it starts: the worktrees are asked for unless the
    /// repository still has to be set up, and a newer release if that is wanted.
    pub open spec fn started(s: Startup) -> AppView {
        let a = if s.initialized {
            AppView::opened(s).refresh()
        } else {
            AppView::opened(s)
        };
        if s.auto_update_check {
            a.checking(false)
        } else {
            a
        }
    }
}

impl AppView {
    /// With an update check running: started now, or asked for once more while
    /// one runs.
    pub open spec fn checking(self, requested: bool) -> AppView {
        if self.update_check is Some {
            AppView {
                update_check_requested: self.update_check_requested || requested,
                ..self
            }
        } else {
            AppView {
                update_check_requested: requested,
                update_check: Some(TaskView::started(self.next_task)),
                ..self
            }.numbered().ask(RequestView::CheckForUpdate { task: self.next_task })
        }
    }
}

impl App {
    /// Starts an update check in the background unless one is running.
    /// `requested` marks one that the user asked for.
    pub fn start_update_check(&mut self, requested: bool)
        ensures
            final(self)@ == old(self)@.checking(requested),
    {
        if self.update_check.is_some() {
            self.update_check_requested = self.update_check_requested || requested;
            return;
        }
        self.update_check_requested = requested;
        let task: u64 = self.take_number();
        self.update_check = Some(Task::new(task));
        self.ask(Request::CheckForUpdate { task });
    }
}

} // verus!

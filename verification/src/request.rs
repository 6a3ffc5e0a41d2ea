//! What the interface asks of the services around it, and how results of
//! background operations read.
//!
//! Key and mouse handlers never touch a file or a process. They put a `Request`
//! into the app's outbox; whoever runs the app performs it and hands the result
//! to the matching method of `App`.

use vstd::prelude::*;
use vstd::string::*;

use crate::config::{ConfigDraft, DraftView};
use crate::model;
use crate::model::{ChoiceView, ConflictSegment, LogMode, Release, ResolutionAction, ResolveKind};
use crate::setup::{AskView, WizardAsk};
use crate::text;

verus! {

/// What follows once the worktrees were listed.
#[derive(Debug)]
pub enum ListThen {
    /// Show them, and any error.
    Refresh,
    /// Show them, keeping the cursor on its worktree; swallow errors.
    Auto,
    /// Show them and select the one with this name.
    Select(String),
}

/// What follows once the worktrees were listed.
pub enum ListThenView {
    Refresh,
    Auto,
    Select(Seq<char>),
}

impl View for ListThen {
    type V = ListThenView;

    open spec fn view(&self) -> ListThenView {
        match self {
            ListThen::Refresh => ListThenView::Refresh,
            ListThen::Auto => ListThenView::Auto,
            ListThen::Select(name) => ListThenView::Select(name@),
        }
    }
}

/// What follows once the branches were listed.
#[derive(Debug)]
pub enum BranchesThen {
    /// Show them with the cursor here, or go back to the worktrees on an error.
    At(usize),
    /// Show them, keeping the cursor on its branch; swallow errors.
    Auto,
}

/// What follows once the branches were listed.
pub enum BranchesThenView {
    At(int),
    Auto,
}

impl View for BranchesThen {
    type V = BranchesThenView;

    open spec fn view(&self) -> BranchesThenView {
        match self {
            BranchesThen::At(i) => BranchesThenView::At(*i as int),
            BranchesThen::Auto => BranchesThenView::Auto,
        }
    }
}

/// What follows once the changed files of a worktree are known.
#[derive(Debug)]
pub enum StatusThen {
    /// Open the Changes tab on them.
    OpenChanges,
    /// Open the Changes tab on them with the cursor on this path.
    OpenChangesAt(String),
    /// Take them over into the open Changes tab.
    RefreshDiff,
    /// Open the commit dialog on them.
    OpenCommit,
}

/// What follows once the changed files of a worktree are known.
pub enum StatusThenView {
    OpenChanges,
    OpenChangesAt(Seq<char>),
    RefreshDiff,
    OpenCommit,
}

impl View for StatusThen {
    type V = StatusThenView;

    open spec fn view(&self) -> StatusThenView {
        match self {
            StatusThen::OpenChanges => StatusThenView::OpenChanges,
            StatusThen::OpenChangesAt(path) => StatusThenView::OpenChangesAt(path@),
            StatusThen::RefreshDiff => StatusThenView::RefreshDiff,
            StatusThen::OpenCommit => StatusThenView::OpenCommit,
        }
    }
}

/// What follows once a log was read.
#[derive(Clone, Copy, Debug, PartialEq, Eq, Structural)]
pub enum LogThen {
    /// Open a screen on it.
    Open,
    /// Take it over into the open screen.
    Replace,
}

/// The views of a list of resolutions.
pub open spec fn choice_views(v: Seq<ResolutionAction>) -> Seq<ChoiceView> {
    v.map_values(|a: ResolutionAction| a@)
}

/// An operation that runs in the background while the screen waits.
#[allow(inconsistent_fields)]
#[derive(Debug)]
pub enum BusyOp {
    /// Commit files.
    Commit { name: String, message: String, paths: Vec<String> },
    /// Apply a stash entry.
    StashApply { name: String, index: Option<u32> },
    /// Drop a stash entry.
    StashDrop { name: String, index: Option<u32> },
    /// Pop a stash entry.
    StashPop { name: String, index: Option<u32> },
    /// Stash a worktree's changes.
    StashPush { name: String, message: Option<String> },
    /// Switch a worktree to a branch, creating the branch if asked to.
    Switch { name: String, branch: String, create: bool },
    /// Cherry-pick commits into a worktree, oldest first.
    CherryPick { target: String, commits: Vec<String>, no_commit: bool },
    /// Merge a branch into a worktree.
    Merge { target: String, source: String },
    /// Merge the default branch into a worktree.
    Update { name: String, autostash: bool },
    /// Create a branch.
    BranchCreate { name: String },
    /// Pull a worktree.
    Pull { name: String, rebase: bool },
    /// Push a worktree.
    Push { name: String },
    /// Fast-forward a branch.
    BranchPull { branch: String },
    /// Fetch all remotes.
    Fetch,
    /// Remove a worktree's folder; `with_branch` when its branch goes next.
    RemoveWorktree { name: String, force: bool, with_branch: bool },
    /// Install a release.
    InstallUpdate { release: Release },
}

/// What a background operation does.
#[allow(inconsistent_fields)]
pub enum OpView {
    Commit { name: Seq<char>, message: Seq<char>, paths: Seq<Seq<char>> },
    StashApply { name: Seq<char>, index: Option<u32> },
    StashDrop { name: Seq<char>, index: Option<u32> },
    StashPop { name: Seq<char>, index: Option<u32> },
    StashPush { name: Seq<char>, message: Option<Seq<char>> },
    Switch { name: Seq<char>, branch: Seq<char>, create: bool },
    CherryPick { target: Seq<char>, commits: Seq<Seq<char>>, no_commit: bool },
    Merge { target: Seq<char>, source: Seq<char> },
    Update { name: Seq<char>, autostash: bool },
    BranchCreate { name: Seq<char> },
    Pull { name: Seq<char>, rebase: bool },
    Push { name: Seq<char> },
    BranchPull { branch: Seq<char> },
    Fetch,
    RemoveWorktree { name: Seq<char>, force: bool, with_branch: bool },
    InstallUpdate { release: Release },
}

impl View for BusyOp {
    type V = OpView;

    open spec fn view(&self) -> OpView {
        match self {
            BusyOp::Commit { name, message, paths } => OpView::Commit {
                name: name@,
                message: message@,
                paths: text::views(paths@),
            },
            BusyOp::StashApply { name, index } => OpView::StashApply {
                name: name@,
                index: *index,
            },
            BusyOp::StashDrop { name, index } => OpView::StashDrop {
                name: name@,
                index: *index,
            },
            BusyOp::StashPop { name, index } => OpView::StashPop {
                name: name@,
                index: *index,
            },
            BusyOp::StashPush { name, message } => OpView::StashPush {
                name: name@,
                message: model::opt(*message),
            },
            BusyOp::Switch { name, branch, create } => OpView::Switch {
                name: name@,
                branch: branch@,
                create: *create,
            },
            BusyOp::CherryPick { target, commits, no_commit } => OpView::CherryPick {
                target: target@,
                commits: text::views(commits@),
                no_commit: *no_commit,
            },
            BusyOp::Merge { target, source } => OpView::Merge {
                target: target@,
                source: source@,
            },
            BusyOp::Update { name, autostash } => OpView::Update {
                name: name@,
                autostash: *autostash,
            },
            BusyOp::BranchCreate { name } => OpView::BranchCreate {
                name: name@,
            },
            BusyOp::Pull { name, rebase } => OpView::Pull {
                name: name@,
                rebase: *rebase,
            },
            BusyOp::Push { name } => OpView::Push {
                name: name@,
            },
            BusyOp::BranchPull { branch } => OpView::BranchPull {
                branch: branch@,
            },
            BusyOp::Fetch => OpView::Fetch,
            BusyOp::RemoveWorktree { name, force, with_branch } => OpView::RemoveWorktree {
                name: name@,
                force: *force,
                with_branch: *with_branch,
            },
            BusyOp::InstallUpdate { release } => OpView::InstallUpdate {
                release: *release,
            },
        }
    }
}

/// Something that is asked of the services around the interface.
#[allow(inconsistent_fields)]
#[derive(Debug)]
pub enum Request {
    /// The list of worktrees.
    ListWorktrees { then: ListThen },
    /// The list of local branches.
    ListBranches { then: BranchesThen },
    /// The changed files of a worktree; `activate` when the row under the cursor
    /// is to be activated once they are shown.
    Status { name: String, then: StatusThen, activate: bool },
    /// The diff of a changed file, in the background.
    FileDiff { task: u64, token: u64, name: String, path: String, untracked: bool },
    /// The diff of a file in a commit, in the background.
    CommitFileDiff { task: u64, token: u64, name: String, hash: String, path: String },
    /// The pattern that ignores files like this one.
    IgnorePattern { file: String },
    /// Whether a directory holds work that replacing it would lose.
    TargetHasChanges { branch: String, base: Option<String>, path: String },
    /// Remove a directory, then create a worktree in its place.
    RemoveTarget { branch: String, base: Option<String>, path: String },
    /// Whether the directory of a new worktree exists already.
    ExistingTarget { branch: String, base: Option<String> },
    /// Create a worktree, in the background.
    Create { task: u64, branch: String, base: Option<String> },
    /// Kill the running setup command.
    KillSetup { task: u64 },
    /// Send a line to the running setup command.
    SendLine { task: u64, text: String },
    /// Stash a worktree's changes before it is removed.
    StashWorktree { name: String, branch: Option<String>, delete_branch: bool },
    /// Delete a branch by force.
    ForceDeleteBranch { branch: String },
    /// Read the settings again.
    ReloadConfig,
    /// Write the wizard's draft and read the settings.
    WriteSetup { draft: ConfigDraft },
    /// Something that the wizard needs read.
    Wizard { ask: WizardAsk },
    /// Rename a worktree.
    RenameWorktree { name: String, new_name: String },
    /// Add a pattern to a worktree's `.gitignore`.
    AddIgnore { name: String, pattern: String },
    /// Stash one file.
    StashFile { name: String, path: String },
    /// Stash several files.
    StashMarked { name: String, paths: Vec<String> },
    /// Revert a file.
    RevertFile { name: String, path: String, untracked: bool },
    /// Delete a file.
    DeleteFile { name: String, path: String, untracked: bool },
    /// The branches for the new-worktree dialog.
    CreateChoices { prefill: Option<String> },
    /// The branches for the switch picker.
    SwitchChoices { name: String },
    /// Run a command, detached, in a directory.
    Spawn { cmd: String, dir: String, name: String },
    /// The stash entries of a worktree.
    StashList { name: String },
    /// The commits of a branch.
    BranchLog { branch: String, mode: LogMode, limit: usize, then: LogThen },
    /// The commits of a worktree.
    WorktreeLog { name: String, mode: LogMode, limit: usize, then: LogThen },
    /// The files that a commit changed.
    CommitFiles { name: String, hash: String, label: String },
    /// The files left in conflict by an operation.
    ListConflicts { target: String, source_label: String, kind: ResolveKind, msg: String },
    /// A file with conflicts, parsed.
    ReadConflict { target: String, path: String },
    /// Write and stage a resolved file.
    WriteResolution { target: String, path: String, segments: Vec<ConflictSegment>, actions: Vec<ResolutionAction> },
    /// Take a whole file from one side and stage it.
    CheckoutSide { target: String, path: String, ours: bool },
    /// Finish the operation that left conflicts.
    CompleteResolution { target: String, kind: ResolveKind },
    /// Abort the operation that left conflicts.
    AbortResolution { target: String, kind: ResolveKind },
    /// Rename a branch.
    BranchRename { old_name: String, new_name: String },
    /// Delete a branch.
    BranchDelete { name: String, force: bool },
    /// Delete the branch of a worktree that was removed, if that is safe.
    TryDeleteBranch { name: String, branch: String },
    /// Whether a worktree has changes, before it is removed.
    WorktreeDirty { name: String, cached_dirty: usize, branch: Option<String>, delete_branch: bool },
    /// Open a file of a worktree with the system's application.
    OpenFile { name: String, path: String },
    /// Copy a text to the clipboard.
    CopyText { text: String },
    /// The path of the running binary, before a release is installed.
    CurrentBinary { release: Release },
    /// The settings as the editor shows them.
    ReloadSettings,
    /// Write the settings that the editor holds.
    SaveSettings,
    /// Draw diffs in a theme from now on.
    SetTheme { theme: String },
    /// Look for a newer release, in the background.
    CheckForUpdate { task: u64 },
    /// Run an operation in the background while the screen waits.
    Busy { task: u64, op: BusyOp },
}

/// What is asked of the services around the interface.
#[allow(inconsistent_fields)]
pub enum RequestView {
    ListWorktrees { then: ListThenView },
    ListBranches { then: BranchesThenView },
    Status { name: Seq<char>, then: StatusThenView, activate: bool },
    FileDiff { task: u64, token: u64, name: Seq<char>, path: Seq<char>, untracked: bool },
    CommitFileDiff { task: u64, token: u64, name: Seq<char>, hash: Seq<char>, path: Seq<char> },
    IgnorePattern { file: Seq<char> },
    TargetHasChanges { branch: Seq<char>, base: Option<Seq<char>>, path: Seq<char> },
    RemoveTarget { branch: Seq<char>, base: Option<Seq<char>>, path: Seq<char> },
    ExistingTarget { branch: Seq<char>, base: Option<Seq<char>> },
    Create { task: u64, branch: Seq<char>, base: Option<Seq<char>> },
    KillSetup { task: u64 },
    SendLine { task: u64, text: Seq<char> },
    StashWorktree { name: Seq<char>, branch: Option<Seq<char>>, delete_branch: bool },
    ForceDeleteBranch { branch: Seq<char> },
    ReloadConfig,
    WriteSetup { draft: DraftView },
    Wizard { ask: AskView },
    RenameWorktree { name: Seq<char>, new_name: Seq<char> },
    AddIgnore { name: Seq<char>, pattern: Seq<char> },
    StashFile { name: Seq<char>, path: Seq<char> },
    StashMarked { name: Seq<char>, paths: Seq<Seq<char>> },
    RevertFile { name: Seq<char>, path: Seq<char>, untracked: bool },
    DeleteFile { name: Seq<char>, path: Seq<char>, untracked: bool },
    CreateChoices { prefill: Option<Seq<char>> },
    SwitchChoices { name: Seq<char> },
    Spawn { cmd: Seq<char>, dir: Seq<char>, name: Seq<char> },
    StashList { name: Seq<char> },
    BranchLog { branch: Seq<char>, mode: LogMode, limit: int, then: LogThen },
    WorktreeLog { name: Seq<char>, mode: LogMode, limit: int, then: LogThen },
    CommitFiles { name: Seq<char>, hash: Seq<char>, label: Seq<char> },
    ListConflicts { target: Seq<char>, source_label: Seq<char>, kind: ResolveKind, msg: Seq<char> },
    ReadConflict { target: Seq<char>, path: Seq<char> },
    WriteResolution { target: Seq<char>, path: Seq<char>, segments: Seq<ConflictSegment>, actions: Seq<ChoiceView> },
    CheckoutSide { target: Seq<char>, path: Seq<char>, ours: bool },
    CompleteResolution { target: Seq<char>, kind: ResolveKind },
    AbortResolution { target: Seq<char>, kind: ResolveKind },
    BranchRename { old_name: Seq<char>, new_name: Seq<char> },
    BranchDelete { name: Seq<char>, force: bool },
    TryDeleteBranch { name: Seq<char>, branch: Seq<char> },
    WorktreeDirty { name: Seq<char>, cached_dirty: int, branch: Option<Seq<char>>, delete_branch: bool },
    OpenFile { name: Seq<char>, path: Seq<char> },
    CopyText { text: Seq<char> },
    CurrentBinary { release: Release },
    ReloadSettings,
    SaveSettings,
    SetTheme { theme: Seq<char> },
    CheckForUpdate { task: u64 },
    Busy { task: u64, op: OpView },
}

impl View for Request {
    type V = RequestView;

    open spec fn view(&self) -> RequestView {
        match self {
            Request::ListWorktrees { then } => RequestView::ListWorktrees {
                then: then@,
            },
            Request::ListBranches { then } => RequestView::ListBranches {
                then: then@,
            },
            Request::Status { name, then, activate } => RequestView::Status {
                name: name@,
                then: then@,
                activate: *activate,
            },
            Request::FileDiff { task, token, name, path, untracked } => RequestView::FileDiff {
                task: *task,
                token: *token,
                name: name@,
                path: path@,
                untracked: *untracked,
            },
            Request::CommitFileDiff { task, token, name, hash, path } => RequestView::CommitFileDiff {
                task: *task,
                token: *token,
                name: name@,
                hash: hash@,
                path: path@,
            },
            Request::IgnorePattern { file } => RequestView::IgnorePattern {
                file: file@,
            },
            Request::TargetHasChanges { branch, base, path } => RequestView::TargetHasChanges {
                branch: branch@,
                base: model::opt(*base),
                path: path@,
            },
            Request::RemoveTarget { branch, base, path } => RequestView::RemoveTarget {
                branch: branch@,
                base: model::opt(*base),
                path: path@,
            },
            Request::ExistingTarget { branch, base } => RequestView::ExistingTarget {
                branch: branch@,
                base: model::opt(*base),
            },
            Request::Create { task, branch, base } => RequestView::Create {
                task: *task,
                branch: branch@,
                base: model::opt(*base),
            },
            Request::KillSetup { task } => RequestView::KillSetup {
                task: *task,
            },
            Request::SendLine { task, text } => RequestView::SendLine {
                task: *task,
                text: text@,
            },
            Request::StashWorktree { name, branch, delete_branch } => RequestView::StashWorktree {
                name: name@,
                branch: model::opt(*branch),
                delete_branch: *delete_branch,
            },
            Request::ForceDeleteBranch { branch } => RequestView::ForceDeleteBranch {
                branch: branch@,
            },
            Request::ReloadConfig => RequestView::ReloadConfig,
            Request::WriteSetup { draft } => RequestView::WriteSetup {
                draft: draft@,
            },
            Request::Wizard { ask } => RequestView::Wizard {
                ask: ask@,
            },
            Request::RenameWorktree { name, new_name } => RequestView::RenameWorktree {
                name: name@,
                new_name: new_name@,
            },
            Request::AddIgnore { name, pattern } => RequestView::AddIgnore {
                name: name@,
                pattern: pattern@,
            },
            Request::StashFile { name, path } => RequestView::StashFile {
                name: name@,
                path: path@,
            },
            Request::StashMarked { name, paths } => RequestView::StashMarked {
                name: name@,
                paths: text::views(paths@),
            },
            Request::RevertFile { name, path, untracked } => RequestView::RevertFile {
                name: name@,
                path: path@,
                untracked: *untracked,
            },
            Request::DeleteFile { name, path, untracked } => RequestView::DeleteFile {
                name: name@,
                path: path@,
                untracked: *untracked,
            },
            Request::CreateChoices { prefill } => RequestView::CreateChoices {
                prefill: model::opt(*prefill),
            },
            Request::SwitchChoices { name } => RequestView::SwitchChoices {
                name: name@,
            },
            Request::Spawn { cmd, dir, name } => RequestView::Spawn {
                cmd: cmd@,
                dir: dir@,
                name: name@,
            },
            Request::StashList { name } => RequestView::StashList {
                name: name@,
            },
            Request::BranchLog { branch, mode, limit, then } => RequestView::BranchLog {
                branch: branch@,
                mode: *mode,
                limit: *limit as int,
                then: *then,
            },
            Request::WorktreeLog { name, mode, limit, then } => RequestView::WorktreeLog {
                name: name@,
                mode: *mode,
                limit: *limit as int,
                then: *then,
            },
            Request::CommitFiles { name, hash, label } => RequestView::CommitFiles {
                name: name@,
                hash: hash@,
                label: label@,
            },
            Request::ListConflicts { target, source_label, kind, msg } => RequestView::ListConflicts {
                target: target@,
                source_label: source_label@,
                kind: *kind,
                msg: msg@,
            },
            Request::ReadConflict { target, path } => RequestView::ReadConflict {
                target: target@,
                path: path@,
            },
            Request::WriteResolution { target, path, segments, actions } => RequestView::WriteResolution {
                target: target@,
                path: path@,
                segments: segments@,
                actions: choice_views(actions@),
            },
            Request::CheckoutSide { target, path, ours } => RequestView::CheckoutSide {
                target: target@,
                path: path@,
                ours: *ours,
            },
            Request::CompleteResolution { target, kind } => RequestView::CompleteResolution {
                target: target@,
                kind: *kind,
            },
            Request::AbortResolution { target, kind } => RequestView::AbortResolution {
                target: target@,
                kind: *kind,
            },
            Request::BranchRename { old_name, new_name } => RequestView::BranchRename {
                old_name: old_name@,
                new_name: new_name@,
            },
            Request::BranchDelete { name, force } => RequestView::BranchDelete {
                name: name@,
                force: *force,
            },
            Request::TryDeleteBranch { name, branch } => RequestView::TryDeleteBranch {
                name: name@,
                branch: branch@,
            },
            Request::WorktreeDirty { name, cached_dirty, branch, delete_branch } => RequestView::WorktreeDirty {
                name: name@,
                cached_dirty: *cached_dirty as int,
                branch: model::opt(*branch),
                delete_branch: *delete_branch,
            },
            Request::OpenFile { name, path } => RequestView::OpenFile {
                name: name@,
                path: path@,
            },
            Request::CopyText { text } => RequestView::CopyText {
                text: text@,
            },
            Request::CurrentBinary { release } => RequestView::CurrentBinary {
                release: *release,
            },
            Request::ReloadSettings => RequestView::ReloadSettings,
            Request::SaveSettings => RequestView::SaveSettings,
            Request::SetTheme { theme } => RequestView::SetTheme {
                theme: theme@,
            },
            Request::CheckForUpdate { task } => RequestView::CheckForUpdate {
                task: *task,
            },
            Request::Busy { task, op } => RequestView::Busy {
                task: *task,
                op: op@,
            },
        }
    }
}

/// The views of a list of requests.
pub open spec fn request_views(v: Seq<Request>) -> Seq<RequestView> {
    v.map_values(|r: Request| r@)
}

/// Why a background operation failed.
#[derive(Debug)]
pub struct OpError {
    pub text: String,
    /// Whether a pull was refused because the branch has diverged.
    pub non_fast_forward: bool,
}

/// How a background operation went.
#[allow(inconsistent_fields)]
#[derive(Debug)]
pub enum OpOutcome {
    Committed { hash: String, summary: String, files_changed: usize },
    StashDone { action: String, name: String },
    StashPopped { name: String },
    StashPushed { name: String },
    Switched { name: String, branch: String },
    CherryPicked { target: String, count: usize, committed: bool },
    MergeUpToDate { target: String },
    Merged { source: String, target: String, commit: String },
    Updated { name: String, commit: String },
    /// Conflicts are left; the resolver opens and the text is not shown.
    Conflicted,
    BranchCreated { name: String },
    Pulled { name: String, already_up_to_date: bool, rebase: bool },
    Pushed { name: String, set_upstream: bool, remote: Option<String>, branch: String },
    BranchPulled { branch: String, already_up_to_date: bool, worktree: Option<String> },
    Fetched { remotes: Vec<String> },
    /// The folder is gone; `with_branch` when its branch goes next.
    Removed { name: String, branch: Option<String>, with_branch: bool },
    Installed { version: String },
}

/// `a` between single quotes.
pub open spec fn quoted(a: Seq<char>) -> Seq<char> {
    "'"@ + a + "'"@
}

/// `a` between single quotes.
pub fn quote(a: &str) -> (r: String)
    ensures
        r@ == quoted(a@),
{
    text::cat3("'", a, "'")
}

impl OpOutcome {
    /// The status line for the outcome.
    pub open spec fn says(self) -> Seq<char> {
        match self {
            OpOutcome::Committed { hash, summary, files_changed } => "committed "@ + hash@ + " · "@
                + summary@ + (" ("@ + text::decimal(files_changed as nat) + " file"@ + (
            if files_changed == 1 {
                ""@
            } else {
                "s"@
            }) + ")"@),
            OpOutcome::StashDone { action, name } => "stash "@ + action@ + " on "@ + quoted(name@),
            OpOutcome::StashPopped { name } => "popped stash on "@ + quoted(name@),
            OpOutcome::StashPushed { name } => "stashed changes in "@ + quoted(name@),
            OpOutcome::Switched { name, branch } => "switched "@ + quoted(name@) + " to "@ + quoted(
                branch@,
            ),
            OpOutcome::CherryPicked { target, count, committed } => if committed {
                "cherry-picked "@ + text::decimal(count as nat) + " commit(s) into "@ + quoted(
                    target@,
                )
            } else {
                "loaded "@ + text::decimal(count as nat) + " commit(s) into "@ + quoted(target@)
                    + " (review, then commit)"@
            },
            OpOutcome::MergeUpToDate { target } => quoted(target@) + " already up to date"@,
            OpOutcome::Merged { source, target, commit } => "merged "@ + quoted(source@)
                + " into "@ + quoted(target@) + (" ("@ + commit@ + ")"@),
            OpOutcome::Updated { name, commit } => "updated "@ + quoted(name@) + " ("@ + commit@
                + ")"@,
            OpOutcome::Conflicted => "conflicts to resolve"@,
            OpOutcome::BranchCreated { name } => "created branch "@ + quoted(name@),
            OpOutcome::Pulled { name, already_up_to_date, rebase } => if rebase {
                "pulled "@ + quoted(name@) + " with rebase"@
            } else if already_up_to_date {
                quoted(name@) + " already up to date"@
            } else {
                "pulled "@ + quoted(name@)
            },
            OpOutcome::Pushed { name, set_upstream, remote, branch } => if set_upstream {
                "pushed "@ + quoted(name@) + " and set upstream "@ + (match remote {
                    Some(r) => r@,
                    None => "origin"@,
                }) + ("/"@ + branch@)
            } else {
                "pushed "@ + quoted(name@)
            },
            OpOutcome::BranchPulled { branch, already_up_to_date, worktree } => {
                if already_up_to_date {
                    quoted(branch@) + " already up to date"@
                } else {
                    match worktree {
                        Some(wt) => "fast-forwarded "@ + quoted(branch@) + " in "@ + wt@,
                        None => "fast-forwarded "@ + quoted(branch@),
                    }
                }
            },
            OpOutcome::Fetched { remotes } => if remotes@.len() == 0 {
                "no remotes to fetch"@
            } else {
                "fetched: "@ + text::join(text::views(remotes@), ", "@)
            },
            OpOutcome::Removed { name, branch, with_branch } => if with_branch {
                Seq::empty()
            } else if branch is Some {
                "removed "@ + quoted(name@) + " (branch kept)"@
            } else {
                "removed "@ + quoted(name@)
            },
            OpOutcome::Installed { version } => "updated to wtm "@ + version@,
        }
    }

    /// The status line for the outcome.
    pub fn message(&self) -> (r: String)
        ensures
            r@ == self.says(),
    {
        match self {
            OpOutcome::Committed { hash, summary, files_changed } => {
                let head = text::cat4("committed ", hash.as_str(), " · ", summary.as_str());
                let n = text::dec(*files_changed);
                let s = if *files_changed == 1 {
                    ""
                } else {
                    "s"
                };
                let tail = text::cat5(" (", n.as_str(), " file", s, ")");
                text::cat2(head.as_str(), tail.as_str())
            },
            OpOutcome::StashDone { action, name } => text::cat4(
                "stash ",
                action.as_str(),
                " on ",
                quote(name.as_str()).as_str(),
            ),
            OpOutcome::StashPopped { name } => text::cat2(
                "popped stash on ",
                quote(name.as_str()).as_str(),
            ),
            OpOutcome::StashPushed { name } => text::cat2(
                "stashed changes in ",
                quote(name.as_str()).as_str(),
            ),
            OpOutcome::Switched { name, branch } => text::cat4(
                "switched ",
                quote(name.as_str()).as_str(),
                " to ",
                quote(branch.as_str()).as_str(),
            ),
            OpOutcome::CherryPicked { target, count, committed } => {
                let n = text::dec(*count);
                let t = quote(target.as_str());
                if *committed {
                    text::cat4("cherry-picked ", n.as_str(), " commit(s) into ", t.as_str())
                } else {
                    text::cat5(
                        "loaded ",
                        n.as_str(),
                        " commit(s) into ",
                        t.as_str(),
                        " (review, then commit)",
                    )
                }
            },
            OpOutcome::MergeUpToDate { target } => text::cat2(
                quote(target.as_str()).as_str(),
                " already up to date",
            ),
            OpOutcome::Merged { source, target, commit } => {
                let tail = text::cat3(" (", commit.as_str(), ")");
                text::cat5(
                    "merged ",
                    quote(source.as_str()).as_str(),
                    " into ",
                    quote(target.as_str()).as_str(),
                    tail.as_str(),
                )
            },
            OpOutcome::Updated { name, commit } => text::cat5(
                "updated ",
                quote(name.as_str()).as_str(),
                " (",
                commit.as_str(),
                ")",
            ),
            OpOutcome::Conflicted => "conflicts to resolve".to_string(),
            OpOutcome::BranchCreated { name } => text::cat2(
                "created branch ",
                quote(name.as_str()).as_str(),
            ),
            OpOutcome::Pulled { name, already_up_to_date, rebase } => {
                let n = quote(name.as_str());
                if *rebase {
                    text::cat3("pulled ", n.as_str(), " with rebase")
                } else if *already_up_to_date {
                    text::cat2(n.as_str(), " already up to date")
                } else {
                    text::cat2("pulled ", n.as_str())
                }
            },
            OpOutcome::Pushed { name, set_upstream, remote, branch } => {
                let n = quote(name.as_str());
                if *set_upstream {
                    let r = match remote {
                        Some(r) => r.as_str(),
                        None => "origin",
                    };
                    let b = text::cat2("/", branch.as_str());
                    text::cat5("pushed ", n.as_str(), " and set upstream ", r, b.as_str())
                } else {
                    text::cat2("pushed ", n.as_str())
                }
            },
            OpOutcome::BranchPulled { branch, already_up_to_date, worktree } => {
                let b = quote(branch.as_str());
                if *already_up_to_date {
                    text::cat2(b.as_str(), " already up to date")
                } else {
                    match worktree {
                        Some(wt) => text::cat4("fast-forwarded ", b.as_str(), " in ", wt.as_str()),
                        None => text::cat2("fast-forwarded ", b.as_str()),
                    }
                }
            },
            OpOutcome::Fetched { remotes } => if remotes.len() == 0 {
                "no remotes to fetch".to_string()
            } else {
                let joined = text::join_with(remotes, ", ");
                text::cat2("fetched: ", joined.as_str())
            },
            OpOutcome::Removed { name, branch, with_branch } => {
                let n = quote(name.as_str());
                if *with_branch {
                    String::new()
                } else if branch.is_some() {
                    text::cat3("removed ", n.as_str(), " (branch kept)")
                } else {
                    text::cat2("removed ", n.as_str())
                }
            },
            OpOutcome::Installed { version } => text::cat2("updated to wtm ", version.as_str()),
        }
    }
}

} // verus!

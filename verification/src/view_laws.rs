//! What a request, an operation and a choice carry is what contracts see of them.

use vstd::prelude::*;
use vstd::string::*;
use vstd::view::View as _;

use crate::app::{BusyThen, ThenView};
use crate::modal::{ActionView, ModalAction, ModalResult, ResultView};
use crate::model::{ChoiceView, LogMode, ResolutionAction, ResolveKind};
use crate::request::{
    BranchesThen, BranchesThenView, BusyOp, ListThen, ListThenView, LogThen, OpView, Request,
    RequestView, StatusThen, StatusThenView,
};
use crate::text;

verus! {

/// A choice for a conflict is seen as the choice that it is.
pub proof fn choices_are_seen(t: String)
    ensures
        ResolutionAction::KeepOurs@ == ChoiceView::KeepOurs,
        ResolutionAction::KeepTheirs@ == ChoiceView::KeepTheirs,
        ResolutionAction::KeepBoth@ == ChoiceView::KeepBoth,
        ResolutionAction::KeepBothReversed@ == ChoiceView::KeepBothReversed,
        ResolutionAction::Manual(t)@ == ChoiceView::Manual(t@),
{
}

/// An operation is seen with everything that it carries.
pub proof fn operations_are_seen(
    x: String,
    y: String,
    index: Option<u32>,
    flag: bool,
    other: bool,
    v: Vec<String>,
)
    ensures
        (BusyOp::Commit { name: x, message: y, paths: v })@ == (OpView::Commit {
            name: x@,
            message: y@,
            paths: text::views(v@),
        }),
        (BusyOp::StashApply { name: x, index })@ == (OpView::StashApply { name: x@, index }),
        (BusyOp::StashDrop { name: x, index })@ == (OpView::StashDrop { name: x@, index }),
        (BusyOp::StashPop { name: x, index })@ == (OpView::StashPop { name: x@, index }),
        (BusyOp::StashPush { name: x, message: Some(y) })@ == (OpView::StashPush {
            name: x@,
            message: Some(y@),
        }),
        (BusyOp::StashPush { name: x, message: None })@ == (OpView::StashPush {
            name: x@,
            message: None,
        }),
        (BusyOp::Switch { name: x, branch: y, create: flag })@ == (OpView::Switch {
            name: x@,
            branch: y@,
            create: flag,
        }),
        (BusyOp::CherryPick { target: x, commits: v, no_commit: flag })@ == (OpView::CherryPick {
            target: x@,
            commits: text::views(v@),
            no_commit: flag,
        }),
        (BusyOp::Merge { target: x, source: y })@ == (OpView::Merge { target: x@, source: y@ }),
        (BusyOp::Update { name: x, autostash: flag })@ == (OpView::Update {
            name: x@,
            autostash: flag,
        }),
        (BusyOp::BranchCreate { name: x })@ == (OpView::BranchCreate { name: x@ }),
        (BusyOp::Pull { name: x, rebase: flag })@ == (OpView::Pull { name: x@, rebase: flag }),
        (BusyOp::Push { name: x })@ == (OpView::Push { name: x@ }),
        (BusyOp::BranchPull { branch: x })@ == (OpView::BranchPull { branch: x@ }),
        BusyOp::Fetch@ == OpView::Fetch,
        (BusyOp::RemoveWorktree { name: x, force: flag, with_branch: other })@ == (
        OpView::RemoveWorktree { name: x@, force: flag, with_branch: other }),
{
}

/// A request about worktrees, branches and files is seen with everything that it
/// carries.
pub proof fn requests_are_seen(
    x: String,
    y: String,
    z: String,
    task: u64,
    token: u64,
    n: usize,
    flag: bool,
    op: BusyOp,
)
    ensures
        (Request::Busy { task, op })@ == (RequestView::Busy { task, op: op@ }),
        (Request::ExistingTarget { branch: x, base: Some(y) })@ == (RequestView::ExistingTarget {
            branch: x@,
            base: Some(y@),
        }),
        (Request::ExistingTarget { branch: x, base: None })@ == (RequestView::ExistingTarget {
            branch: x@,
            base: None,
        }),
        (Request::Create { task, branch: x, base: Some(y) })@ == (RequestView::Create {
            task,
            branch: x@,
            base: Some(y@),
        }),
        (Request::Create { task, branch: x, base: None })@ == (RequestView::Create {
            task,
            branch: x@,
            base: None,
        }),
        (Request::RemoveTarget { branch: x, base: Some(y), path: z })@ == (
        RequestView::RemoveTarget { branch: x@, base: Some(y@), path: z@ }),
        (Request::StashWorktree { name: x, branch: Some(y), delete_branch: flag })@ == (
        RequestView::StashWorktree { name: x@, branch: Some(y@), delete_branch: flag }),
        (Request::WorktreeDirty {
            name: x,
            cached_dirty: n,
            branch: Some(y),
            delete_branch: flag,
        })@ == (RequestView::WorktreeDirty {
            name: x@,
            cached_dirty: n as int,
            branch: Some(y@),
            delete_branch: flag,
        }),
        (Request::RenameWorktree { name: x, new_name: y })@ == (RequestView::RenameWorktree {
            name: x@,
            new_name: y@,
        }),
        (Request::BranchRename { old_name: x, new_name: y })@ == (RequestView::BranchRename {
            old_name: x@,
            new_name: y@,
        }),
        (Request::BranchDelete { name: x, force: flag })@ == (RequestView::BranchDelete {
            name: x@,
            force: flag,
        }),
        (Request::TryDeleteBranch { name: x, branch: y })@ == (RequestView::TryDeleteBranch {
            name: x@,
            branch: y@,
        }),
        (Request::ForceDeleteBranch { branch: x })@ == (RequestView::ForceDeleteBranch {
            branch: x@,
        }),
        (Request::RevertFile { name: x, path: y, untracked: flag })@ == (RequestView::RevertFile {
            name: x@,
            path: y@,
            untracked: flag,
        }),
        (Request::DeleteFile { name: x, path: y, untracked: flag })@ == (RequestView::DeleteFile {
            name: x@,
            path: y@,
            untracked: flag,
        }),
        (Request::StashFile { name: x, path: y })@ == (RequestView::StashFile {
            name: x@,
            path: y@,
        }),
        (Request::AddIgnore { name: x, pattern: y })@ == (RequestView::AddIgnore {
            name: x@,
            pattern: y@,
        }),
        (Request::OpenFile { name: x, path: y })@ == (RequestView::OpenFile {
            name: x@,
            path: y@,
        }),
        (Request::Spawn { cmd: x, dir: y, name: z })@ == (RequestView::Spawn {
            cmd: x@,
            dir: y@,
            name: z@,
        }),
        (Request::FileDiff { task, token, name: x, path: y, untracked: flag })@ == (
        RequestView::FileDiff { task, token, name: x@, path: y@, untracked: flag }),
        (Request::SendLine { task, text: x })@ == (RequestView::SendLine { task, text: x@ }),
        (Request::KillSetup { task })@ == (RequestView::KillSetup { task }),
{
}

/// A request about commits and conflicts is seen with everything that it carries.
pub proof fn history_requests_are_seen(
    x: String,
    y: String,
    z: String,
    n: usize,
    flag: bool,
    mode: LogMode,
    then: LogThen,
    kind: ResolveKind,
    v: Vec<String>,
)
    ensures
        (Request::CheckoutSide { target: x, path: y, ours: flag })@ == (RequestView::CheckoutSide {
            target: x@,
            path: y@,
            ours: flag,
        }),
        (Request::CompleteResolution { target: x, kind })@ == (RequestView::CompleteResolution {
            target: x@,
            kind,
        }),
        (Request::AbortResolution { target: x, kind })@ == (RequestView::AbortResolution {
            target: x@,
            kind,
        }),
        (Request::ReadConflict { target: x, path: y })@ == (RequestView::ReadConflict {
            target: x@,
            path: y@,
        }),
        (Request::ListConflicts { target: x, source_label: y, kind, msg: z })@ == (
        RequestView::ListConflicts { target: x@, source_label: y@, kind, msg: z@ }),
        (Request::WorktreeLog { name: x, mode, limit: n, then })@ == (RequestView::WorktreeLog {
            name: x@,
            mode,
            limit: n as int,
            then,
        }),
        (Request::BranchLog { branch: x, mode, limit: n, then })@ == (RequestView::BranchLog {
            branch: x@,
            mode,
            limit: n as int,
            then,
        }),
        (Request::CommitFiles { name: x, hash: y, label: z })@ == (RequestView::CommitFiles {
            name: x@,
            hash: y@,
            label: z@,
        }),
        (Request::StashMarked { name: x, paths: v })@ == (RequestView::StashMarked {
            name: x@,
            paths: text::views(v@),
        }),
        (Request::StashList { name: x })@ == (RequestView::StashList { name: x@ }),
        (Request::Status { name: x, then: StatusThen::OpenChangesAt(y), activate: flag })@ == (
        RequestView::Status {
            name: x@,
            then: StatusThenView::OpenChangesAt(y@),
            activate: flag,
        }),
        (Request::Status { name: x, then: StatusThen::OpenCommit, activate: flag })@ == (
        RequestView::Status { name: x@, then: StatusThenView::OpenCommit, activate: flag }),
        (Request::ListWorktrees { then: ListThen::Select(x) })@ == (RequestView::ListWorktrees {
            then: ListThenView::Select(x@),
        }),
        (Request::ListBranches { then: BranchesThen::At(n) })@ == (RequestView::ListBranches {
            then: BranchesThenView::At(n as int),
        }),
{
}

/// What follows an operation, and what a question is about, are seen with
/// everything that they carry.
pub proof fn follow_ups_are_seen(
    x: String,
    y: String,
    kind: ResolveKind,
    n: usize,
    index: Option<u32>,
    flag: bool,
)
    ensures
        BusyThen::Stash(x)@ == ThenView::Stash(x@),
        (BusyThen::Pull { name: x })@ == (ThenView::Pull { name: x@ }),
        (BusyThen::DeleteBranch { name: x, branch: y })@ == (ThenView::DeleteBranch {
            name: x@,
            branch: y@,
        }),
        (BusyThen::Resolve { target: x, source_label: y, kind })@ == (ThenView::Resolve {
            target: x@,
            source_label: y@,
            kind,
        }),
        (BusyThen::Restart { exe: x })@ == (ThenView::Restart { exe: x@ }),
        (ModalAction::IgnorePath { file: x, pattern: y })@ == (ActionView::IgnorePath {
            file: x@,
            pattern: y@,
        }),
        (ModalAction::StashDrop { name: x, index })@ == (ActionView::StashDrop { name: x@, index }),
        (ModalAction::DeleteWorktreeDirty { name: x, branch: Some(y), delete_branch: flag })@ == (
        ActionView::DeleteWorktreeDirty { name: x@, branch: Some(y@), delete_branch: flag }),
        (ModalAction::BranchRename { old: x })@ == (ActionView::BranchRename { old: x@ }),
        ModalResult::Confirmed(n)@ == ResultView::Confirmed(n as int),
        ModalResult::Submitted(x)@ == ResultView::Submitted(x@),
        ModalResult::Cancelled@ == ResultView::Cancelled,
{
}

} // verus!

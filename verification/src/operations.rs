//! The operations on worktrees, branches and stashes: how they start, and what
//! follows from their results.

use vstd::prelude::*;
use vstd::string::*;
use vstd::view::View as _;

use crate::app::{App, AppView, BusyThen, ForceBranchReason, Tab, ThenView};
use crate::dialogs;
use crate::model;
use crate::model::{DeleteBranchOutcome, Release, ResolveKind};
use crate::request;
use crate::request::{BranchesThen, BranchesThenView, BusyOp, OpView, Request, RequestView};
use crate::text;

verus! {

impl AppView {
    /// With the selected worktree being pulled.
    pub open spec fn pull(self) -> AppView {
        match self.worktree() {
            Some(w) => self.busy(
                "pulling "@ + w.name@ + "…"@,
                ThenView::Pull { name: w.name@ },
                OpView::Pull { name: w.name@, rebase: false },
            ),
            None => self,
        }
    }

    /// With a worktree being pulled by a rebase.
    pub open spec fn pull_rebase(self, name: Seq<char>) -> AppView {
        self.busy(
            "rebasing "@ + name + " onto its upstream…"@,
            ThenView::List,
            OpView::Pull { name, rebase: true },
        )
    }

    /// With the selected worktree being pushed.
    pub open spec fn push_worktree(self) -> AppView {
        match self.worktree() {
            Some(w) => self.busy(
                "pushing "@ + w.name@ + "…"@,
                ThenView::List,
                OpView::Push { name: w.name@ },
            ),
            None => self,
        }
    }

    /// With the selected branch being fast-forwarded.
    pub open spec fn pull_branch(self) -> AppView {
        match self.branch() {
            Some(b) => self.busy(
                "pulling "@ + b.name@ + "…"@,
                ThenView::Branch,
                OpView::BranchPull { branch: b.name@ },
            ),
            None => self,
        }
    }

    /// With all remotes being fetched.
    pub open spec fn fetch(self) -> AppView {
        self.busy(
            "fetching all remotes…"@,
            if self.tab == Tab::Branches {
                ThenView::Branch
            } else {
                ThenView::List
            },
            OpView::Fetch,
        )
    }

    /// With a worktree being updated from the default branch.
    pub open spec fn run_update(self, name: Seq<char>, autostash: bool) -> AppView {
        self.busy(
            "updating "@ + request::quoted(name) + " from the default branch…"@,
            ThenView::Resolve {
                target: name,
                source_label: "the default branch"@,
                kind: ResolveKind::Merge,
            },
            OpView::Update { name, autostash },
        )
    }

    /// With the selected worktree being updated, or the question what to do with
    /// its changes first. The main worktree has nothing to be updated from.
    pub open spec fn update(self) -> AppView {
        match self.worktree() {
            Some(w) => if w.is_main {
                self.say("the main worktree is already on the default branch"@)
            } else if w.dirty > 0 {
                self.show(dialogs::update_question(w.name@, w.dirty as int))
            } else {
                self.run_update(w.name@, false)
            },
            None => self,
        }
    }

    /// With a worktree's folder being removed, and its branch next if that is
    /// asked for and it has one.
    pub open spec fn remove(
        self,
        name: Seq<char>,
        branch: Option<Seq<char>>,
        delete_branch: bool,
        force: bool,
    ) -> AppView {
        match branch {
            Some(b) => if delete_branch {
                self.busy(
                    "removing "@ + request::quoted(name) + " and branch "@ + request::quoted(b)
                        + "…"@,
                    ThenView::DeleteBranch { name, branch: b },
                    OpView::RemoveWorktree { name, force, with_branch: true },
                )
            } else {
                self.remove_folder(name, force)
            },
            None => self.remove_folder(name, force),
        }
    }

    /// With a worktree's folder being removed.
    pub open spec fn remove_folder(self, name: Seq<char>, force: bool) -> AppView {
        self.busy(
            "removing "@ + request::quoted(name) + "…"@,
            ThenView::List,
            OpView::RemoveWorktree { name, force, with_branch: false },
        )
    }

    /// After it is known whether a worktree that is to be removed has changes;
    /// where that could not be read, `cached_dirty` tells.
    pub open spec fn dirtiness_read(
        self,
        name: Seq<char>,
        cached_dirty: int,
        branch: Option<Seq<char>>,
        delete_branch: bool,
        dirty: Option<bool>,
    ) -> AppView {
        if match dirty {
            Some(d) => d,
            None => cached_dirty > 0,
        } {
            self.show(dialogs::dirty_question(name, branch, delete_branch))
        } else {
            self.remove(name, branch, delete_branch, false)
        }
    }

    /// After a worktree's changes were stashed, or could not be.
    pub open spec fn worktree_stashed(
        self,
        name: Seq<char>,
        branch: Option<Seq<char>>,
        delete_branch: bool,
        result: Result<(), String>,
    ) -> AppView {
        match result {
            Ok(_) => self.remove(name, branch, delete_branch, false),
            Err(e) => self.fail(e@).refresh(),
        }
    }

    /// After the branch of a removed worktree was tried to be deleted.
    pub open spec fn branch_tried(
        self,
        name: Seq<char>,
        branch: Seq<char>,
        result: Result<DeleteBranchOutcome, String>,
    ) -> AppView {
        match result {
            Ok(DeleteBranchOutcome::Deleted) => self.say(
                "removed "@ + request::quoted(name) + " and branch "@ + request::quoted(branch),
            ).rooted().refresh(),
            Ok(DeleteBranchOutcome::NotMerged) => self.refresh().rooted().show(
                dialogs::force_question(branch, None),
            ),
            Ok(DeleteBranchOutcome::CheckedOutElsewhere(w)) => self.refresh().rooted().show(
                dialogs::force_question(branch, Some(w@)),
            ),
            Err(e) => self.fail(e@).rooted().refresh(),
        }
    }

    /// After a branch was deleted by force, or could not be.
    pub open spec fn branch_forced(self, branch: Seq<char>, result: Result<(), String>) -> AppView {
        (match result {
            Ok(_) => self.say("deleted branch "@ + request::quoted(branch) + " (forced)"@),
            Err(e) => self.fail(e@),
        }).refresh()
    }

    /// With a stash entry being applied or dropped.
    pub open spec fn stash_action(self, apply: bool, name: Seq<char>, index: Option<u32>) -> AppView {
        if apply {
            self.busy("stash apply…"@, ThenView::Stash(name), OpView::StashApply { name, index })
        } else {
            self.busy("stash drop…"@, ThenView::Stash(name), OpView::StashDrop { name, index })
        }
    }

    /// With a stash entry being popped.
    pub open spec fn stash_pop(self, name: Seq<char>, index: Option<u32>) -> AppView {
        self.busy(
            "stash pop…"@,
            ThenView::Resolve {
                target: name,
                source_label: "the stashed changes"@,
                kind: ResolveKind::StashPop { index },
            },
            OpView::StashPop { name, index },
        )
    }

    /// With a worktree's changes being stashed.
    pub open spec fn stash_push(self, name: Seq<char>, message: Option<Seq<char>>) -> AppView {
        self.busy("stashing…"@, ThenView::Stash(name), OpView::StashPush { name, message })
    }

    /// After the stash entries of a worktree were read. The cursor stays in the
    /// list.
    pub open spec fn stashes_read(
        self,
        name: Seq<char>,
        result: Result<Vec<model::StashEntry>, String>,
    ) -> AppView {
        match result {
            Ok(entries) => AppView {
                stash_name: name,
                stash_entries: entries@,
                stash_selected: clamped(self.stash_selected, entries@.len()),
                ..self
            },
            Err(e) => self.fail(e@),
        }
    }

    /// With a branch being created.
    pub open spec fn branch_create(self, name: Seq<char>) -> AppView {
        self.busy(
            "creating branch "@ + request::quoted(name) + "…"@,
            ThenView::Branch,
            OpView::BranchCreate { name },
        )
    }

    /// With the branches asked for, to show them with the cursor here.
    pub open spec fn load_branches(self, selected: int) -> AppView {
        self.ask(RequestView::ListBranches { then: BranchesThenView::At(selected) })
    }

    /// After a branch was renamed, or could not be.
    pub open spec fn branch_renamed(self, result: Result<(String, String), String>) -> AppView {
        match result {
            Ok((old_name, new_name)) => self.say(
                "renamed branch "@ + request::quoted(old_name@) + " to "@ + request::quoted(
                    new_name@,
                ),
            ).load_branches(self.branch_selected),
            Err(e) => self.fail(e@),
        }
    }

    /// After a branch was deleted, or could not be; a refusal is offered again,
    /// so that it can be forced.
    pub open spec fn branch_deleted(
        self,
        name: Seq<char>,
        result: Result<(String, bool), String>,
    ) -> AppView {
        match result {
            Ok((deleted, forced)) => self.say(
                "deleted branch "@ + request::quoted(deleted@) + (if forced {
                    " (forced)"@
                } else {
                    ""@
                }),
            ).load_branches(self.branch_selected),
            Err(e) => self.fail(e@ + " — press f to force"@).show(
                dialogs::branch_delete_question(name),
            ),
        }
    }

    /// After the path of the running binary was read: a release is installed
    /// over it.
    pub open spec fn binary_found(self, release: Release, result: Result<String, String>) -> AppView {
        match result {
            Ok(exe) => self.busy(
                "installing wtm "@ + release.version@,
                ThenView::Restart { exe: exe@ },
                OpView::InstallUpdate { release },
            ),
            Err(e) => self.fail(e@),
        }
    }
}

/// A cursor that is put on the last of `n` rows where it is past them.
pub open spec fn clamped(cursor: int, n: nat) -> int {
    if cursor < n {
        cursor
    } else if n > 0 {
        n - 1
    } else {
        0
    }
}

/// A cursor that is put on the last of `n` rows where it is past them.
pub fn clamp_cursor(cursor: usize, n: usize) -> (r: usize)
    ensures
        r == clamped(cursor as int, n as nat),
{
    if cursor < n {
        cursor
    } else {
        n.saturating_sub(1)
    }
}

impl App {
    /// Pulls the selected worktree.
    pub fn start_pull(&mut self)
        requires
            old(self).wf(),
        ensures
            final(self)@ == old(self)@.pull(),
            final(self).wf(),
    {
        if let Some(name) = self.selected_name() {
            let label = text::cat3("pulling ", name.as_str(), "…");
            let then = BusyThen::Pull { name: name.clone() };
            self.start_busy(label, then, BusyOp::Pull { name, rebase: false });
        }
    }

    /// Retries a refused pull with a rebase.
    pub fn start_pull_rebase(&mut self, name: String)
        requires
            old(self).wf(),
        ensures
            final(self)@ == old(self)@.pull_rebase(name@),
            final(self).wf(),
    {
        let label = text::cat3("rebasing ", name.as_str(), " onto its upstream…");
        self.start_busy(label, BusyThen::List, BusyOp::Pull { name, rebase: true });
    }

    /// Pushes the selected worktree.
    pub fn start_push(&mut self)
        requires
            old(self).wf(),
        ensures
            final(self)@ == old(self)@.push_worktree(),
            final(self).wf(),
    {
        if let Some(name) = self.selected_name() {
            let label = text::cat3("pushing ", name.as_str(), "…");
            self.start_busy(label, BusyThen::List, BusyOp::Push { name });
        }
    }

    /// Fast-forwards the selected branch to its upstream.
    pub fn start_branch_pull(&mut self)
        requires
            old(self).wf(),
        ensures
            final(self)@ == old(self)@.pull_branch(),
            final(self).wf(),
    {
        if let Some(branch) = self.selected_branch() {
            let label = text::cat3("pulling ", branch.as_str(), "…");
            self.start_busy(label, BusyThen::Branch, BusyOp::BranchPull { branch });
        }
    }

    /// Fetches all remotes; the tab that asked is read anew afterwards.
    pub fn start_fetch(&mut self)
        requires
            old(self).wf(),
        ensures
            final(self)@ == old(self)@.fetch(),
            final(self).wf(),
    {
        let then = if self.tab == Tab::Branches {
            BusyThen::Branch
        } else {
            BusyThen::List
        };
        self.start_busy("fetching all remotes…".to_string(), then, BusyOp::Fetch);
    }

    /// Updates a worktree from the default branch. With `autostash` its changes
    /// are stashed first and reapplied afterwards.
    pub fn run_update(&mut self, name: String, autostash: bool)
        requires
            old(self).wf(),
        ensures
            final(self)@ == old(self)@.run_update(name@, autostash),
            final(self).wf(),
    {
        let q = request::quote(name.as_str());
        let label = text::cat3("updating ", q.as_str(), " from the default branch…");
        let then = BusyThen::Resolve {
            target: name.clone(),
            source_label: "the default branch".to_string(),
            kind: ResolveKind::Merge,
        };
        self.start_busy(label, then, BusyOp::Update { name, autostash });
    }

    /// Updates the selected worktree from the default branch, asking first what
    /// to do with its changes.
    pub fn start_update(&mut self)
        requires
            old(self).wf(),
        ensures
            final(self)@ == old(self)@.update(),
            final(self).wf(),
    {
        if let Some(w) = self.selected_worktree() {
            let name = w.name.clone();
            let dirty: usize = w.dirty;
            if w.is_main {
                self.say("the main worktree is already on the default branch".to_string());
            } else if dirty > 0 {
                self.open_update_stash_modal(name, dirty);
            } else {
                self.run_update(name, false);
            }
        }
    }

    /// Asks whether a worktree that is to be removed has changes.
    pub fn begin_delete(
        &mut self,
        name: String,
        cached_dirty: usize,
        branch: Option<String>,
        delete_branch: bool,
    )
        ensures
            final(self)@ == old(self)@.ask(
                RequestView::WorktreeDirty {
                    name: name@,
                    cached_dirty: cached_dirty as int,
                    branch: model::opt(branch),
                    delete_branch,
                },
            ),
    {
        self.ask(Request::WorktreeDirty { name, cached_dirty, branch, delete_branch });
    }

    /// Takes the answer to a `Request::WorktreeDirty`; none when it could not be
    /// read.
    pub fn on_worktree_dirty(
        &mut self,
        name: String,
        cached_dirty: usize,
        branch: Option<String>,
        delete_branch: bool,
        dirty: Option<bool>,
    )
        requires
            old(self).wf(),
        ensures
            final(self)@ == old(self)@.dirtiness_read(
                name@,
                cached_dirty as int,
                model::opt(branch),
                delete_branch,
                dirty,
            ),
            final(self).wf(),
    {
        let has_changes = match dirty {
            Some(d) => d,
            None => cached_dirty > 0,
        };
        if has_changes {
            self.open_delete_dirty_modal(name, branch, delete_branch);
        } else {
            self.do_delete(name, branch, delete_branch, false);
        }
    }

    /// Removes a worktree's folder, and its branch next if that is asked for.
    pub fn do_delete(
        &mut self,
        name: String,
        branch: Option<String>,
        delete_branch: bool,
        force: bool,
    )
        requires
            old(self).wf(),
        ensures
            final(self)@ == old(self)@.remove(name@, model::opt(branch), delete_branch, force),
            final(self).wf(),
    {
        let q = request::quote(name.as_str());
        if delete_branch {
            if let Some(branch) = branch {
                let qb = request::quote(branch.as_str());
                let label = text::cat5("removing ", q.as_str(), " and branch ", qb.as_str(), "…");
                let then = BusyThen::DeleteBranch { name: name.clone(), branch };
                self.start_busy(
                    label,
                    then,
                    BusyOp::RemoveWorktree { name, force, with_branch: true },
                );
                return;
            }
        }
        let label = text::cat3("removing ", q.as_str(), "…");
        self.start_busy(
            label,
            BusyThen::List,
            BusyOp::RemoveWorktree { name, force, with_branch: false },
        );
    }

    /// Takes the result of a `Request::StashWorktree`.
    pub fn on_worktree_stashed(
        &mut self,
        name: String,
        branch: Option<String>,
        delete_branch: bool,
        result: Result<(), String>,
    )
        requires
            old(self).wf(),
        ensures
            final(self)@ == old(self)@.worktree_stashed(
                name@,
                model::opt(branch),
                delete_branch,
                result,
            ),
            final(self).wf(),
    {
        match result {
            Ok(_) => self.do_delete(name, branch, delete_branch, false),
            Err(e) => {
                self.set_error(e);
                self.refresh();
            },
        }
    }

    /// Asks for the branch of a removed worktree to be deleted, if that is safe.
    pub fn delete_branch_step(&mut self, name: String, branch: String)
        ensures
            final(self)@ == old(self)@.ask(
                RequestView::TryDeleteBranch { name: name@, branch: branch@ },
            ),
    {
        self.ask(Request::TryDeleteBranch { name, branch });
    }

    /// Takes the result of a `Request::TryDeleteBranch`.
    pub fn on_branch_delete_tried(
        &mut self,
        name: String,
        branch: String,
        result: Result<DeleteBranchOutcome, String>,
    )
        requires
            old(self).wf(),
        ensures
            final(self)@ == old(self)@.branch_tried(name@, branch@, result),
            final(self).wf(),
    {
        match result {
            Ok(outcome) => match outcome {
                DeleteBranchOutcome::Deleted => {
                    let qn = request::quote(name.as_str());
                    let qb = request::quote(branch.as_str());
                    self.say(text::cat4("removed ", qn.as_str(), " and branch ", qb.as_str()));
                    self.go_root();
                    self.refresh();
                },
                DeleteBranchOutcome::NotMerged => {
                    self.refresh();
                    self.open_force_branch_modal(branch, ForceBranchReason::NotMerged);
                },
                DeleteBranchOutcome::CheckedOutElsewhere(w) => {
                    self.refresh();
                    self.open_force_branch_modal(
                        branch,
                        ForceBranchReason::CheckedOutElsewhere(w),
                    );
                },
            },
            Err(e) => {
                self.set_error(e);
                self.go_root();
                self.refresh();
            },
        }
    }

    /// Takes the result of a `Request::ForceDeleteBranch`.
    pub fn on_branch_force_deleted(&mut self, branch: String, result: Result<(), String>)
        requires
            old(self).wf(),
        ensures
            final(self)@ == old(self)@.branch_forced(branch@, result),
            final(self).wf(),
    {
        match result {
            Ok(_) => {
                let q = request::quote(branch.as_str());
                self.say(text::cat3("deleted branch ", q.as_str(), " (forced)"));
            },
            Err(e) => self.set_error(e),
        }
        self.refresh();
    }

    /// Applies a stash entry, or drops it.
    pub fn stash_action(&mut self, apply: bool, name: String, index: Option<u32>)
        requires
            old(self).wf(),
        ensures
            final(self)@ == old(self)@.stash_action(apply, name@, index),
            final(self).wf(),
    {
        let then = BusyThen::Stash(name.clone());
        if apply {
            self.start_busy("stash apply…".to_string(), then, BusyOp::StashApply { name, index });
        } else {
            self.start_busy("stash drop…".to_string(), then, BusyOp::StashDrop { name, index });
        }
    }

    /// Pops a stash entry. One that leaves conflicts leads to the resolver.
    pub fn stash_pop(&mut self, name: String, index: Option<u32>)
        requires
            old(self).wf(),
        ensures
            final(self)@ == old(self)@.stash_pop(name@, index),
            final(self).wf(),
    {
        let then = BusyThen::Resolve {
            target: name.clone(),
            source_label: "the stashed changes".to_string(),
            kind: ResolveKind::StashPop { index },
        };
        self.start_busy("stash pop…".to_string(), then, BusyOp::StashPop { name, index });
    }

    /// Stashes a worktree's changes.
    pub fn stash_push(&mut self, name: String, message: Option<String>)
        requires
            old(self).wf(),
        ensures
            final(self)@ == old(self)@.stash_push(name@, model::opt(message)),
            final(self).wf(),
    {
        let then = BusyThen::Stash(name.clone());
        self.start_busy("stashing…".to_string(), then, BusyOp::StashPush { name, message });
    }

    /// Takes the stash entries that a `Request::StashList` asked for.
    pub fn on_stash_list(&mut self, name: String, result: Result<Vec<model::StashEntry>, String>)
        requires
            old(self).wf(),
        ensures
            final(self)@ == old(self)@.stashes_read(name@, result),
            final(self).wf(),
    {
        match result {
            Ok(entries) => {
                self.stash_selected = clamp_cursor(self.stash_selected, entries.len());
                self.stash_name = name;
                self.stash_entries = entries;
            },
            Err(e) => self.set_error(e),
        }
    }

    /// Creates a branch.
    pub fn branch_create(&mut self, name: String)
        requires
            old(self).wf(),
        ensures
            final(self)@ == old(self)@.branch_create(name@),
            final(self).wf(),
    {
        let q = request::quote(name.as_str());
        let label = text::cat3("creating branch ", q.as_str(), "…");
        self.start_busy(label, BusyThen::Branch, BusyOp::BranchCreate { name });
    }

    /// Asks for the branches, to show them with the cursor at `selected`.
    pub fn load_branches(&mut self, selected: usize)
        ensures
            final(self)@ == old(self)@.load_branches(selected as int),
    {
        self.ask(Request::ListBranches { then: BranchesThen::At(selected) });
    }

    /// Asks for a branch to be renamed.
    pub fn branch_rename(&mut self, old_name: String, new_name: String)
        ensures
            final(self)@ == old(self)@.ask(
                RequestView::BranchRename { old_name: old_name@, new_name: new_name@ },
            ),
    {
        self.ask(Request::BranchRename { old_name, new_name });
    }

    /// Takes the result of a `Request::BranchRename`: the old and the new name.
    pub fn on_branch_renamed(&mut self, result: Result<(String, String), String>)
        requires
            old(self).wf(),
        ensures
            final(self)@ == old(self)@.branch_renamed(result),
            final(self).wf(),
    {
        match result {
            Ok((old_name, new_name)) => {
                let qo = request::quote(old_name.as_str());
                let qn = request::quote(new_name.as_str());
                self.say(text::cat4("renamed branch ", qo.as_str(), " to ", qn.as_str()));
                let at: usize = self.branch_selected;
                self.load_branches(at);
            },
            Err(e) => self.set_error(e),
        }
    }

    /// Asks for a branch to be deleted.
    pub fn branch_delete(&mut self, name: String, force: bool)
        ensures
            final(self)@ == old(self)@.ask(RequestView::BranchDelete { name: name@, force }),
    {
        self.ask(Request::BranchDelete { name, force });
    }

    /// Takes the result of a `Request::BranchDelete`: the branch, and whether it
    /// went by force.
    pub fn on_branch_deleted(&mut self, name: String, result: Result<(String, bool), String>)
        requires
            old(self).wf(),
        ensures
            final(self)@ == old(self)@.branch_deleted(name@, result),
            final(self).wf(),
    {
        match result {
            Ok((deleted, forced)) => {
                let q = request::quote(deleted.as_str());
                let tail = if forced {
                    " (forced)"
                } else {
                    ""
                };
                self.say(text::cat3("deleted branch ", q.as_str(), tail));
                let at: usize = self.branch_selected;
                self.load_branches(at);
            },
            Err(e) => {
                self.set_error(text::cat2(e.as_str(), " — press f to force"));
                self.open_branch_delete_modal(name);
            },
        }
    }

    /// Asks for the path of the running binary, before a release is installed.
    pub fn start_update_install(&mut self, release: Release)
        ensures
            final(self)@ == old(self)@.ask(RequestView::CurrentBinary { release }),
    {
        self.ask(Request::CurrentBinary { release });
    }

    /// Takes the path that a `Request::CurrentBinary` asked for, and installs
    /// the release over it.
    pub fn on_current_binary(&mut self, release: Release, result: Result<String, String>)
        requires
            old(self).wf(),
        ensures
            final(self)@ == old(self)@.binary_found(release, result),
            final(self).wf(),
    {
        match result {
            Ok(exe) => {
                let label = text::cat2("installing wtm ", release.version.as_str());
                self.start_busy(
                    label,
                    BusyThen::Restart { exe },
                    BusyOp::InstallUpdate { release },
                );
            },
            Err(e) => self.set_error(e),
        }
    }
}

} // verus!

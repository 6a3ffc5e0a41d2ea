//! What follows when a modal is answered.

use vstd::prelude::*;
use vstd::string::*;
use vstd::view::View as _;

use crate::app::{App, AppView};
use crate::changes;
use crate::input::{KeyCode, KeyEvent};
use crate::modal;
use crate::modal::{ActionView, Modal, ModalAction, ModalResult, ModalView, ResultView};
use crate::model;
use crate::request;
use crate::request::{Request, RequestView};
use crate::rows::StatusEntry;
use crate::text;

verus! {

impl ResultView {
    /// The option that was chosen.
    pub open spec fn choice(self) -> Option<int> {
        match self {
            ResultView::Confirmed(i) => Some(i),
            _ => None,
        }
    }

    /// The text that was submitted.
    pub open spec fn typed(self) -> Option<Seq<char>> {
        match self {
            ResultView::Submitted(t) => Some(t),
            _ => None,
        }
    }
}

impl AppView {
    /// With a file sent to be reverted.
    pub open spec fn revert(self, e: StatusEntry) -> AppView {
        self.ask(
            RequestView::RevertFile {
                name: self.changes.name,
                path: e.path@,
                untracked: changes::untracked(e.code@),
            },
        )
    }

    /// With a file sent to be deleted.
    pub open spec fn delete(self, e: StatusEntry) -> AppView {
        self.ask(
            RequestView::DeleteFile {
                name: self.changes.name,
                path: e.path@,
                untracked: changes::untracked(e.code@),
            },
        )
    }

    /// After the question about a directory that stands in the way: open it,
    /// replace it, or leave it.
    #[verifier::opaque]
    pub open spec fn existing_answered(
        self,
        branch: Seq<char>,
        base: Option<Seq<char>>,
        path: Seq<char>,
        existing_name: Option<Seq<char>>,
        choice: Option<int>,
    ) -> AppView {
        if choice == Some(0int) {
            match existing_name {
                Some(n) => self.open_changes(n),
                None => self.say("that directory is not a worktree"@),
            }
        } else if choice == Some(1int) {
            self.ask(RequestView::TargetHasChanges { branch, base, path })
        } else {
            self
        }
    }

    /// After the question about the changes of a worktree that is removed: stash
    /// them, discard them, or leave it.
    #[verifier::opaque]
    pub open spec fn dirty_answered(
        self,
        name: Seq<char>,
        branch: Option<Seq<char>>,
        delete_branch: bool,
        choice: Option<int>,
    ) -> AppView {
        if choice == Some(0int) {
            self.ask(RequestView::StashWorktree { name, branch, delete_branch })
        } else if choice == Some(1int) {
            self.remove(name, branch, delete_branch, true)
        } else {
            self
        }
    }

    /// After the question how to update a worktree with changes: with them
    /// stashed, as it is, or not at all.
    #[verifier::opaque]
    pub open spec fn update_answered(self, name: Seq<char>, choice: Option<int>) -> AppView {
        if choice == Some(0int) {
            self.run_update(name, true)
        } else if choice == Some(1int) {
            self.run_update(name, false)
        } else {
            self
        }
    }

    /// After the question whether a branch goes by force.
    #[verifier::opaque]
    pub open spec fn force_answered(self, branch: Seq<char>, result: ResultView) -> AppView {
        match result {
            ResultView::Confirmed(_) => self.ask(RequestView::ForceDeleteBranch { branch }),
            ResultView::Cancelled => self.say("kept branch "@ + request::quoted(branch)).refresh(),
            ResultView::Submitted(_) => self,
        }
    }

    /// After the prompt for a new branch.
    #[verifier::opaque]
    pub open spec fn branch_typed(self, typed: Option<Seq<char>>) -> AppView {
        match typed {
            Some(name) => if name.len() == 0 {
                self.say("branch name must not be empty"@)
            } else {
                self.branch_create(name)
            },
            None => self,
        }
    }

    /// After the prompt for a branch's new name.
    #[verifier::opaque]
    pub open spec fn rename_typed(self, old_name: Seq<char>, typed: Option<Seq<char>>) -> AppView {
        match typed {
            Some(new_name) => if new_name.len() == 0 {
                self.say("branch name must not be empty"@)
            } else {
                self.ask(RequestView::BranchRename { old_name, new_name })
            },
            None => self,
        }
    }

    /// After the prompt for a stash message; a blank one is none.
    #[verifier::opaque]
    pub open spec fn stash_typed(self, name: Seq<char>, typed: Option<Seq<char>>) -> AppView {
        match typed {
            Some(m) => self.stash_push(
                name,
                if m.len() == 0 {
                    None
                } else {
                    Some(m)
                },
            ),
            None => self,
        }
    }

    /// After a modal was answered.
    #[verifier::opaque]
    pub open spec fn answered(self, action: ActionView, result: ResultView) -> AppView {
        let choice = result.choice();
        match action {
            ActionView::RevertFile => match self.changes.entry() {
                Some(e) => if choice is Some {
                    self.revert(e)
                } else {
                    self
                },
                None => self,
            },
            ActionView::DeleteFile => match self.changes.entry() {
                Some(e) => if choice is Some {
                    self.delete(e)
                } else {
                    self
                },
                None => self,
            },
            ActionView::IgnorePath { file, pattern } => match choice {
                Some(i) => self.ask(
                    RequestView::AddIgnore {
                        name: self.changes.name,
                        pattern: if i == 0 {
                            file
                        } else {
                            pattern
                        },
                    },
                ),
                None => self,
            },
            ActionView::ConfirmExisting { branch, base, path, existing_name } => {
                self.existing_answered(branch, base, path, existing_name, choice)
            },
            ActionView::ConfirmReplaceChanges { branch, base, path } => if choice == Some(0int) {
                self.replace_target(branch, base, path)
            } else {
                self
            },
            ActionView::DeleteWorktree { name, dirty, branch } => match choice {
                Some(i) => self.ask(
                    RequestView::WorktreeDirty {
                        name,
                        cached_dirty: dirty,
                        branch,
                        delete_branch: i == 1,
                    },
                ),
                None => self,
            },
            ActionView::DeleteWorktreeDirty { name, branch, delete_branch } => {
                self.dirty_answered(name, branch, delete_branch, choice)
            },
            ActionView::UpdateStash { name } => self.update_answered(name, choice),
            ActionView::ForceBranch { branch } => self.force_answered(branch, result),
            ActionView::PullRebase { name } => if choice is Some {
                self.pull_rebase(name)
            } else {
                self
            },
            ActionView::BranchCreate => self.branch_typed(result.typed()),
            ActionView::BranchRename { old } => self.rename_typed(old, result.typed()),
            ActionView::BranchDelete { name } => match choice {
                Some(i) => self.ask(RequestView::BranchDelete { name, force: i != 0 }),
                None => self,
            },
            ActionView::StashPush { name } => self.stash_typed(name, result.typed()),
            ActionView::StashDrop { name, index } => if choice is Some {
                self.stash_action(false, name, index)
            } else {
                self
            },
            ActionView::ResolverAbort => if choice is Some {
                self.abort()
            } else {
                self
            },
            ActionView::UpdateApp(release) => if choice == Some(0int) {
                self.ask(RequestView::CurrentBinary { release })
            } else {
                self
            },
        }
    }

    /// With the modal closed and its answer carried out.
    pub open spec fn close_modal(self, action: ActionView, result: ResultView) -> AppView {
        AppView { modal: None, ..self }.answered(action, result)
    }

    /// After a key in a modal.
    #[verifier::opaque]
    pub open spec fn modal_key(self, key: KeyEvent) -> AppView {
        match self.modal {
            Some(ModalView::HunkEditor(_)) => self.editor_key(key),
            Some(ModalView::Prompt { title, input, hint, action }) => match key.code {
                KeyCode::Esc => self.close_modal(action, ResultView::Cancelled),
                KeyCode::Enter => self.close_modal(
                    action,
                    ResultView::Submitted(text::trimmed(input.value)),
                ),
                _ => self.show(modal::prompt(title, input.after(key.code), hint, action)),
            },
            Some(ModalView::Confirm { title, body, options, selected, action }) => {
                let (at, outcome) = modal::confirm_key(options, selected, key.code);
                match outcome {
                    Some(result) => self.close_modal(action, result),
                    None => self.show(
                        ModalView::Confirm { title, body, options, selected: at, action },
                    ),
                }
            },
            None => self,
        }
    }
}

impl App {
    /// Handles the answer about a directory that stands in the way.
    fn answer_existing(
        &mut self,
        branch: String,
        base: Option<String>,
        path: String,
        existing_name: Option<String>,
        choice: Option<usize>,
    )
        requires
            old(self).wf(),
        ensures
            final(self)@ == old(self)@.existing_answered(
                branch@,
                model::opt(base),
                path@,
                model::opt(existing_name),
                modal::at(choice),
            ),
            final(self).wf(),
    {
        proof {
            reveal(AppView::existing_answered);
        }
        if choice == Some(0usize) {
            match existing_name {
                Some(n) => self.open_changes_tab(n),
                None => self.say("that directory is not a worktree".to_string()),
            }
        } else if choice == Some(1usize) {
            self.ask(Request::TargetHasChanges { branch, base, path });
        }
    }

    /// Handles the answer about the changes of a worktree that is removed.
    fn answer_dirty(
        &mut self,
        name: String,
        branch: Option<String>,
        delete_branch: bool,
        choice: Option<usize>,
    )
        requires
            old(self).wf(),
        ensures
            final(self)@ == old(self)@.dirty_answered(
                name@,
                model::opt(branch),
                delete_branch,
                modal::at(choice),
            ),
            final(self).wf(),
    {
        proof {
            reveal(AppView::dirty_answered);
        }
        if choice == Some(0usize) {
            self.ask(Request::StashWorktree { name, branch, delete_branch });
        } else if choice == Some(1usize) {
            self.do_delete(name, branch, delete_branch, true);
        }
    }

    /// Handles the answer how to update a worktree with changes.
    fn answer_update(&mut self, name: String, choice: Option<usize>)
        requires
            old(self).wf(),
        ensures
            final(self)@ == old(self)@.update_answered(name@, modal::at(choice)),
            final(self).wf(),
    {
        proof {
            reveal(AppView::update_answered);
        }
        if choice == Some(0usize) {
            self.run_update(name, true);
        } else if choice == Some(1usize) {
            self.run_update(name, false);
        }
    }

    /// Handles the answer whether a branch goes by force.
    fn answer_force(&mut self, branch: String, result: &ModalResult)
        requires
            old(self).wf(),
        ensures
            final(self)@ == old(self)@.force_answered(branch@, result@),
            final(self).wf(),
    {
        proof {
            reveal(AppView::force_answered);
        }
        match result {
            ModalResult::Confirmed(_) => self.ask(Request::ForceDeleteBranch { branch }),
            ModalResult::Cancelled => {
                let q = request::quote(branch.as_str());
                self.say(text::cat2("kept branch ", q.as_str()));
                self.refresh();
            },
            ModalResult::Submitted(_) => {},
        }
    }

    /// Handles the name typed for a new branch.
    fn answer_branch(&mut self, typed: Option<String>)
        requires
            old(self).wf(),
        ensures
            final(self)@ == old(self)@.branch_typed(model::opt(typed)),
            final(self).wf(),
    {
        proof {
            reveal(AppView::branch_typed);
        }
        if let Some(name) = typed {
            if name.as_str().unicode_len() == 0 {
                self.say("branch name must not be empty".to_string());
            } else {
                self.branch_create(name);
            }
        }
    }

    /// Handles the new name typed for a branch.
    fn answer_rename(&mut self, old_name: String, typed: Option<String>)
        requires
            old(self).wf(),
        ensures
            final(self)@ == old(self)@.rename_typed(old_name@, model::opt(typed)),
            final(self).wf(),
    {
        proof {
            reveal(AppView::rename_typed);
        }
        if let Some(new_name) = typed {
            if new_name.as_str().unicode_len() == 0 {
                self.say("branch name must not be empty".to_string());
            } else {
                self.branch_rename(old_name, new_name);
            }
        }
    }

    /// Handles the message typed for a stash.
    fn answer_stash(&mut self, name: String, typed: Option<String>)
        requires
            old(self).wf(),
        ensures
            final(self)@ == old(self)@.stash_typed(name@, model::opt(typed)),
            final(self).wf(),
    {
        proof {
            reveal(AppView::stash_typed);
        }
        if let Some(m) = typed {
            if m.as_str().unicode_len() == 0 {
                self.stash_push(name, None);
            } else {
                self.stash_push(name, Some(m));
            }
        }
    }

    /// Carries out the answer to a modal that was closed.
    #[verifier::rlimit(40)]
    pub fn dispatch_modal(&mut self, action: ModalAction, result: ModalResult)
        requires
            old(self).wf(),
        ensures
            final(self)@ == old(self)@.answered(action@, result@),
            final(self).wf(),
    {
        proof {
            reveal(AppView::answered);
        }
        let choice: Option<usize> = match &result {
            ModalResult::Confirmed(i) => Some(*i),
            _ => None,
        };
        let typed: Option<String> = match &result {
            ModalResult::Submitted(t) => Some(t.clone()),
            _ => None,
        };
        match action {
            ModalAction::RevertFile => {
                if let Some(e) = self.diff_cursor_file() {
                    if choice.is_some() {
                        self.revert_file(e);
                    }
                }
            },
            ModalAction::DeleteFile => {
                if let Some(e) = self.diff_cursor_file() {
                    if choice.is_some() {
                        self.delete_file(e);
                    }
                }
            },
            ModalAction::IgnorePath { file, pattern } => {
                if let Some(i) = choice {
                    self.add_ignore(
                        if i == 0 {
                            file
                        } else {
                            pattern
                        },
                    );
                }
            },
            ModalAction::ConfirmExisting { branch, base, path, existing_name } => {
                self.answer_existing(branch, base, path, existing_name, choice)
            },
            ModalAction::ConfirmReplaceChanges { branch, base, path } => {
                if choice == Some(0usize) {
                    self.replace_target(branch, base, path);
                }
            },
            ModalAction::DeleteWorktree { name, dirty, branch } => {
                if let Some(i) = choice {
                    self.begin_delete(name, dirty, branch, i == 1);
                }
            },
            ModalAction::DeleteWorktreeDirty { name, branch, delete_branch } => {
                self.answer_dirty(name, branch, delete_branch, choice)
            },
            ModalAction::UpdateStash { name } => self.answer_update(name, choice),
            ModalAction::ForceBranch { branch } => self.answer_force(branch, &result),
            ModalAction::PullRebase { name } => {
                if choice.is_some() {
                    self.start_pull_rebase(name);
                }
            },
            ModalAction::BranchCreate => self.answer_branch(typed),
            ModalAction::BranchRename { old } => self.answer_rename(old, typed),
            ModalAction::BranchDelete { name } => {
                if let Some(i) = choice {
                    self.branch_delete(name, i != 0);
                }
            },
            ModalAction::StashPush { name } => self.answer_stash(name, typed),
            ModalAction::StashDrop { name, index } => {
                if choice.is_some() {
                    self.stash_action(false, name, index);
                }
            },
            ModalAction::ResolverAbort => {
                if choice.is_some() {
                    self.abort_resolver();
                }
            },
            ModalAction::UpdateApp(release) => {
                if choice == Some(0usize) {
                    self.start_update_install(*release);
                }
            },
        }
    }

    /// Closes the modal and carries its answer out.
    fn close_modal(&mut self, result: ModalResult)
        requires
            old(self).wf(),
        ensures
            final(self)@ == match old(self)@.modal {
                Some(ModalView::Confirm { action, .. }) => old(self)@.close_modal(action, result@),
                Some(ModalView::Prompt { action, .. }) => old(self)@.close_modal(action, result@),
                Some(ModalView::HunkEditor(_)) => AppView { modal: None, ..old(self)@ },
                None => old(self)@,
            },
            final(self).wf(),
    {
        match self.modal.take() {
            Some(Modal::Confirm { action, .. }) => self.dispatch_modal(action, result),
            Some(Modal::Prompt { action, .. }) => self.dispatch_modal(action, result),
            _ => {},
        }
    }

    /// Handles a key in a modal: moves in it, edits it, or answers it.
    pub fn on_modal_key(&mut self, key: KeyEvent)
        requires
            old(self).wf(),
        ensures
            final(self)@ == old(self)@.modal_key(key),
            final(self).wf(),
    {
        proof {
            reveal(AppView::modal_key);
        }
        if matches!(self.modal, Some(Modal::HunkEditor(_))) {
            self.on_hunk_editor_key(key);
            return;
        }
        let mut result: Option<ModalResult> = None;
        match &mut self.modal {
            Some(Modal::Prompt { input, .. }) => match key.code {
                KeyCode::Esc => result = Some(ModalResult::Cancelled),
                KeyCode::Enter => result = Some(ModalResult::Submitted(input.trimmed())),
                _ => {
                    input.on_key(key);
                },
            },
            Some(Modal::Confirm { options, selected, .. }) => {
                result = modal::on_confirm_key(options, selected, key.code);
                if result.is_some() {
                    assert(*selected as int == modal::confirm_key(
                        modal::option_views(options@),
                        *selected as int,
                        key.code,
                    ).0);
                }
            },
            _ => {},
        }
        if let Some(r) = result {
            self.close_modal(r);
        }
    }
}

} // verus!

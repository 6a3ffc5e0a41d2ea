//! The questions that the interface asks.

use vstd::prelude::*;
use vstd::string::*;
use vstd::view::View as _;

use crate::app::{App, ForceBranchReason};
use crate::modal;
use crate::modal::{ActionView, ConfirmOption, Modal, ModalAction, ModalView, OptionView};
use crate::model;
use crate::model::Release;
use crate::request;
use crate::styled;
use crate::styled::{Line, Span};
use crate::text;
use crate::theme::{DANGER, WARNING};

verus! {

/// The question before a file is reverted.
pub open spec fn revert_question(path: Seq<char>) -> ModalView {
    modal::confirm(
        "revert file"@,
        seq![styled::raw_line("discard all changes to "@ + request::quoted(path) + "?"@)],
        seq![modal::danger("discard changes"@)],
        ActionView::RevertFile,
    )
}

/// The question before a file is deleted.
pub open spec fn delete_file_question(path: Seq<char>) -> ModalView {
    modal::confirm(
        "delete file"@,
        seq![styled::raw_line("delete "@ + request::quoted(path) + " from the worktree?"@)],
        seq![modal::danger("delete file"@)],
        ActionView::DeleteFile,
    )
}

/// The question what to ignore.
pub open spec fn ignore_question(file: Seq<char>, pattern: Seq<char>, is_folder: bool) -> ModalView {
    modal::confirm(
        "ignore"@,
        seq![styled::raw_line("add to .gitignore:"@), styled::raw_line(""@)],
        seq![
            modal::choice(
                (if is_folder {
                    "just this folder"@
                } else {
                    "just this file"@
                }) + ": "@ + file,
            ),
            modal::choice(
                (if is_folder {
                    "all folders like it"@
                } else {
                    "all files like it"@
                }) + ": "@ + pattern,
            ),
        ],
        ActionView::IgnorePath { file, pattern },
    )
}

/// The question what to do with a directory that stands in the way.
pub open spec fn existing_question(
    branch: Seq<char>,
    base: Option<Seq<char>>,
    path: Seq<char>,
    existing_name: Option<Seq<char>>,
) -> ModalView {
    modal::confirm(
        "directory exists"@,
        seq![
            styled::line_of(
                seq![
                    styled::raw_span("a directory already exists at "@),
                    styled::bold_span(path),
                ],
            ),
            styled::raw_line(""@),
        ],
        seq![
            OptionView {
                enabled: existing_name is Some,
                ..modal::choice(
                    match existing_name {
                        Some(n) => "open the existing worktree "@ + request::quoted(n),
                        None => "open (only if it is a worktree)"@,
                    },
                )
            },
            modal::choice("replace it (delete, then create)"@),
            modal::choice("cancel"@),
        ],
        ActionView::ConfirmExisting { branch, base, path, existing_name },
    )
}

/// The question before work is lost by replacing a directory.
pub open spec fn replace_question(
    branch: Seq<char>,
    base: Option<Seq<char>>,
    path: Seq<char>,
) -> ModalView {
    modal::confirm(
        "changes would be lost"@,
        seq![
            styled::line_of(
                seq![styled::raw_span("the worktree at "@), styled::bold_span(path)],
            ),
            styled::styled_line(
                "has changes that replacing it would permanently lose"@,
                styled::colored(DANGER),
            ),
        ],
        seq![
            modal::danger("force delete (lose all changes), then create"@),
            modal::choice("cancel"@),
        ],
        ActionView::ConfirmReplaceChanges { branch, base, path },
    )
}

/// The question before a worktree is removed.
pub open spec fn delete_question(
    name: Seq<char>,
    dirty: int,
    branch: Option<Seq<char>>,
) -> ModalView {
    let first = styled::line_of(
        seq![
            styled::raw_span("remove worktree "@),
            styled::bold_span(request::quoted(name)),
            styled::raw_span("?"@),
        ],
    );
    modal::confirm(
        "delete"@,
        if dirty > 0 {
            seq![
                first,
                styled::styled_line(
                    "⚠ "@ + text::decimal(dirty as nat)
                        + " uncommitted change(s) will be lost — press f to force"@,
                    styled::colored(DANGER),
                ),
            ]
        } else {
            seq![first]
        },
        match branch {
            Some(b) => seq![
                modal::choice("remove folder only (keep branch "@ + request::quoted(b) + ")"@),
                modal::danger("remove folder and delete branch "@ + request::quoted(b)),
            ],
            None => seq![modal::choice("remove the worktree folder"@)],
        },
        ActionView::DeleteWorktree { name, dirty, branch },
    )
}

/// The question what becomes of the changes of a worktree that is removed.
pub open spec fn dirty_question(
    name: Seq<char>,
    branch: Option<Seq<char>>,
    delete_branch: bool,
) -> ModalView {
    modal::confirm(
        "uncommitted changes"@,
        seq![
            styled::line_of(
                seq![
                    styled::raw_span("worktree "@),
                    styled::bold_span(request::quoted(name)),
                    styled::raw_span(" has uncommitted changes"@),
                ],
            ),
            styled::styled_line(
                "choose what to do with them, then "@ + (if delete_branch {
                    "the folder and branch will be removed"@
                } else {
                    "the folder will be removed"@
                }),
                styled::colored(DANGER),
            ),
        ],
        seq![
            modal::choice("stash the changes (keep them), then remove"@),
            modal::danger("discard the changes and remove"@),
            modal::choice("cancel"@),
        ],
        ActionView::DeleteWorktreeDirty { name, branch, delete_branch },
    )
}

/// The question how to update a worktree with changes.
pub open spec fn update_question(name: Seq<char>, dirty: int) -> ModalView {
    modal::confirm(
        "update from default branch"@,
        seq![
            styled::line_of(
                seq![
                    styled::raw_span("worktree "@),
                    styled::bold_span(request::quoted(name)),
                    styled::raw_span(
                        " has "@ + text::decimal(dirty as nat) + " uncommitted change"@ + (
                        if dirty == 1 {
                            ""@
                        } else {
                            "s"@
                        }),
                    ),
                ],
            ),
            styled::styled_line(
                "updating may conflict with them; how should they be handled?"@,
                styled::colored(WARNING),
            ),
        ],
        seq![
            modal::choice("stash them, update, then reapply (recommended)"@),
            modal::choice("update without stashing"@),
            modal::choice("cancel"@),
        ],
        ActionView::UpdateStash { name },
    )
}

/// The question whether a branch goes by force. `elsewhere` is the worktree that
/// has it checked out; without one it is not merged.
pub open spec fn force_question(branch: Seq<char>, elsewhere: Option<Seq<char>>) -> ModalView {
    modal::confirm(
        "delete branch?"@,
        seq![
            styled::dim_line("the worktree folder was removed, but the branch was kept"@),
            styled::styled_line(
                match elsewhere {
                    None => "⚠ branch "@ + request::quoted(branch) + " is not fully merged"@,
                    Some(w) => "⚠ branch "@ + request::quoted(branch)
                        + " is checked out in worktree "@ + request::quoted(w),
                },
                styled::colored(DANGER),
            ),
        ],
        seq![
            OptionView {
                key: Some('f'),
                ..modal::danger(
                    match elsewhere {
                        None => "force-delete it anyway (-D)"@,
                        Some(w) => "switch "@ + request::quoted(w)
                            + " to the default branch, then delete "@ + request::quoted(branch),
                    },
                )
            },
        ],
        ActionView::ForceBranch { branch },
    )
}

/// The question whether to retry a pull with a rebase.
pub open spec fn rebase_question(name: Seq<char>) -> ModalView {
    modal::confirm(
        "pull needs a rebase"@,
        seq![
            styled::styled_line(
                "⚠ "@ + request::quoted(name) + " has diverged from its upstream"@,
                styled::colored(DANGER),
            ),
            styled::dim_line("a plain fast-forward pull isn't possible"@),
        ],
        seq![
            OptionView {
                key: Some('r'),
                ..modal::choice("pull with rebase (replay local commits on top)"@)
            },
        ],
        ActionView::PullRebase { name },
    )
}

/// The question before a branch is deleted.
pub open spec fn branch_delete_question(name: Seq<char>) -> ModalView {
    modal::confirm(
        "delete branch"@,
        seq![styled::raw_line("delete branch "@ + request::quoted(name) + "?"@)],
        seq![
            modal::choice("delete branch"@),
            OptionView { key: Some('f'), ..modal::danger("force delete"@) },
        ],
        ActionView::BranchDelete { name },
    )
}

/// The question before a stash entry is dropped.
pub open spec fn stash_drop_question(name: Seq<char>, index: Option<u32>) -> ModalView {
    modal::confirm(
        "drop stash"@,
        seq![
            styled::raw_line(
                match index {
                    Some(i) => "drop stash@{"@ + text::decimal(i as nat) + "}?"@,
                    None => "drop stash?"@,
                },
            ),
        ],
        seq![modal::danger("drop stash"@)],
        ActionView::StashDrop { name, index },
    )
}

/// The question before a resolution is aborted.
pub open spec fn abort_question(target: Seq<char>) -> ModalView {
    modal::confirm(
        "abort"@,
        seq![
            styled::raw_line(
                "abort the operation in "@ + request::quoted(target)
                    + " and discard resolutions?"@,
            ),
        ],
        seq![modal::danger("abort"@)],
        ActionView::ResolverAbort,
    )
}

/// The offer to install a newer release.
pub open spec fn update_offer(release: Release, version: Seq<char>) -> ModalView {
    ModalView::Confirm {
        title: "update to wtm "@ + release.version@,
        body: seq![
            styled::raw_line(
                "wtm "@ + release.version@ + " is available (you have "@ + version + ")."@,
            ),
            styled::raw_line(""@),
            styled::raw_line("Release notes: "@ + release.url@),
            styled::raw_line(""@),
            styled::raw_line("Updating replaces this binary and relaunches wtm."@),
        ],
        options: seq![
            OptionView { key: Some('u'), ..modal::choice("update and restart"@) },
            OptionView { key: Some('n'), ..modal::choice("not now"@) },
        ],
        selected: 0,
        action: ActionView::UpdateApp(release),
    }
}

impl App {
    /// Asks before the file under the cursor is reverted.
    pub fn open_revert_modal(&mut self, path: String)
        ensures
            final(self)@ == old(self)@.show(revert_question(path@)),
            final(self)@.modal->0.wf(),
    {
        let q = request::quote(path.as_str());
        let t = text::cat3("discard all changes to ", q.as_str(), "?");
        let body = styled::lines1(Line::raw(t.as_str()));
        let options = modal::options1(ConfirmOption::new("discard changes").destructive());
        self.push_confirm("revert file", body, options, ModalAction::RevertFile);
    }

    /// Asks before the file under the cursor is deleted.
    pub fn open_delete_file_modal(&mut self, path: String)
        ensures
            final(self)@ == old(self)@.show(delete_file_question(path@)),
            final(self)@.modal->0.wf(),
    {
        let q = request::quote(path.as_str());
        let t = text::cat3("delete ", q.as_str(), " from the worktree?");
        let body = styled::lines1(Line::raw(t.as_str()));
        let options = modal::options1(ConfirmOption::new("delete file").destructive());
        self.push_confirm("delete file", body, options, ModalAction::DeleteFile);
    }

    /// Asks what to add to `.gitignore`.
    pub fn open_ignore_modal(&mut self, file: String, pattern: String, is_folder: bool)
        ensures
            final(self)@ == old(self)@.show(ignore_question(file@, pattern@, is_folder)),
            final(self)@.modal->0.wf(),
    {
        let exact = if is_folder {
            "just this folder"
        } else {
            "just this file"
        };
        let glob = if is_folder {
            "all folders like it"
        } else {
            "all files like it"
        };
        let body = styled::lines2(Line::raw("add to .gitignore:"), Line::raw(""));
        let a = text::cat3(exact, ": ", file.as_str());
        let b = text::cat3(glob, ": ", pattern.as_str());
        let options = modal::options2(
            ConfirmOption::new(a.as_str()),
            ConfirmOption::new(b.as_str()),
        );
        self.push_confirm("ignore", body, options, ModalAction::IgnorePath { file, pattern });
    }

    /// Asks what to do with a directory that stands where a worktree should go.
    pub fn open_confirm_existing_modal(
        &mut self,
        branch: String,
        base: Option<String>,
        path: String,
        existing_name: Option<String>,
    )
        ensures
            final(self)@ == old(self)@.rooted().show(
                existing_question(
                    branch@,
                    model::opt(base),
                    path@,
                    model::opt(existing_name),
                ),
            ),
            final(self)@.modal->0.wf(),
    {
        self.go_root();
        let is_wt = existing_name.is_some();
        let body = styled::lines2(
            styled::line2(
                Span::raw("a directory already exists at "),
                Span::bold(path.as_str()),
            ),
            Line::raw(""),
        );
        let open = match &existing_name {
            Some(n) => text::cat2(
                "open the existing worktree ",
                request::quote(n.as_str()).as_str(),
            ),
            None => "open (only if it is a worktree)".to_string(),
        };
        let options = modal::options3(
            ConfirmOption::new(open.as_str()).enabled(is_wt),
            ConfirmOption::new("replace it (delete, then create)"),
            ConfirmOption::new("cancel"),
        );
        assert(modal::option_views(options@) =~= existing_question(
            branch@,
            model::opt(base),
            path@,
            model::opt(existing_name),
        )->Confirm_options);
        self.push_confirm(
            "directory exists",
            body,
            options,
            ModalAction::ConfirmExisting { branch, base, path, existing_name },
        );
    }

    /// Asks before replacing a directory would discard work.
    pub fn open_confirm_replace_changes(
        &mut self,
        branch: String,
        base: Option<String>,
        path: String,
    )
        ensures
            final(self)@ == old(self)@.show(
                replace_question(branch@, model::opt(base), path@),
            ),
            final(self)@.modal->0.wf(),
    {
        let body = styled::lines2(
            styled::line2(Span::raw("the worktree at "), Span::bold(path.as_str())),
            Line::styled(
                "has changes that replacing it would permanently lose",
                styled::color(DANGER),
            ),
        );
        let options = modal::options2(
            ConfirmOption::new("force delete (lose all changes), then create").destructive(),
            ConfirmOption::new("cancel"),
        );
        self.push_confirm(
            "changes would be lost",
            body,
            options,
            ModalAction::ConfirmReplaceChanges { branch, base, path },
        );
    }

    /// Asks before a worktree is removed.
    pub fn open_delete_modal(&mut self, name: String, dirty: usize, branch: Option<String>)
        ensures
            final(self)@ == old(self)@.show(
                delete_question(name@, dirty as int, model::opt(branch)),
            ),
            final(self)@.modal->0.wf(),
    {
        let q = request::quote(name.as_str());
        let first = styled::line3(
            Span::raw("remove worktree "),
            Span::bold(q.as_str()),
            Span::raw("?"),
        );
        let body = if dirty > 0 {
            let n = text::dec(dirty);
            let t = text::cat3(
                "⚠ ",
                n.as_str(),
                " uncommitted change(s) will be lost — press f to force",
            );
            styled::lines2(first, Line::styled(t.as_str(), styled::color(DANGER)))
        } else {
            styled::lines1(first)
        };
        let options = match &branch {
            Some(b) => {
                let qb = request::quote(b.as_str());
                let keep = text::cat3("remove folder only (keep branch ", qb.as_str(), ")");
                let drop_it = text::cat2("remove folder and delete branch ", qb.as_str());
                modal::options2(
                    ConfirmOption::new(keep.as_str()),
                    ConfirmOption::new(drop_it.as_str()).destructive(),
                )
            },
            None => modal::options1(ConfirmOption::new("remove the worktree folder")),
        };
        self.push_confirm(
            "delete",
            body,
            options,
            ModalAction::DeleteWorktree { name, dirty, branch },
        );
    }

    /// Asks what becomes of the changes of a worktree that is removed.
    pub fn open_delete_dirty_modal(
        &mut self,
        name: String,
        branch: Option<String>,
        delete_branch: bool,
    )
        ensures
            final(self)@ == old(self)@.show(
                dirty_question(name@, model::opt(branch), delete_branch),
            ),
            final(self)@.modal->0.wf(),
    {
        let after = if delete_branch {
            "the folder and branch will be removed"
        } else {
            "the folder will be removed"
        };
        let q = request::quote(name.as_str());
        let t = text::cat2("choose what to do with them, then ", after);
        let body = styled::lines2(
            styled::line3(
                Span::raw("worktree "),
                Span::bold(q.as_str()),
                Span::raw(" has uncommitted changes"),
            ),
            Line::styled(t.as_str(), styled::color(DANGER)),
        );
        let options = modal::options3(
            ConfirmOption::new("stash the changes (keep them), then remove"),
            ConfirmOption::new("discard the changes and remove").destructive(),
            ConfirmOption::new("cancel"),
        );
        self.push_confirm(
            "uncommitted changes",
            body,
            options,
            ModalAction::DeleteWorktreeDirty { name, branch, delete_branch },
        );
    }

    /// Asks how to update a worktree that has changes.
    pub fn open_update_stash_modal(&mut self, name: String, dirty: usize)
        ensures
            final(self)@ == old(self)@.show(update_question(name@, dirty as int)),
            final(self)@.modal->0.wf(),
    {
        let q = request::quote(name.as_str());
        let n = text::dec(dirty);
        let s = if dirty == 1 {
            ""
        } else {
            "s"
        };
        let t = text::cat4(" has ", n.as_str(), " uncommitted change", s);
        let body = styled::lines2(
            styled::line3(Span::raw("worktree "), Span::bold(q.as_str()), Span::raw(t.as_str())),
            Line::styled(
                "updating may conflict with them; how should they be handled?",
                styled::color(WARNING),
            ),
        );
        let options = modal::options3(
            ConfirmOption::new("stash them, update, then reapply (recommended)"),
            ConfirmOption::new("update without stashing"),
            ConfirmOption::new("cancel"),
        );
        self.push_confirm(
            "update from default branch",
            body,
            options,
            ModalAction::UpdateStash { name },
        );
    }

    /// Asks whether a branch that could not be deleted safely goes by force.
    pub fn open_force_branch_modal(&mut self, branch: String, reason: ForceBranchReason)
        ensures
            final(self)@ == old(self)@.rooted().show(
                force_question(branch@, reason.elsewhere()),
            ),
            final(self)@.modal->0.wf(),
    {
        self.go_root();
        let q = request::quote(branch.as_str());
        let (warn, action) = match &reason {
            ForceBranchReason::NotMerged => (
                text::cat3("⚠ branch ", q.as_str(), " is not fully merged"),
                "force-delete it anyway (-D)".to_string(),
            ),
            ForceBranchReason::CheckedOutElsewhere(other) => {
                let qo = request::quote(other.as_str());
                (
                    text::cat4(
                        "⚠ branch ",
                        q.as_str(),
                        " is checked out in worktree ",
                        qo.as_str(),
                    ),
                    text::cat4(
                        "switch ",
                        qo.as_str(),
                        " to the default branch, then delete ",
                        q.as_str(),
                    ),
                )
            },
        };
        let body = styled::lines2(
            styled::new_dim_line("the worktree folder was removed, but the branch was kept"),
            Line::styled(warn.as_str(), styled::color(DANGER)),
        );
        let options = modal::options1(ConfirmOption::new(action.as_str()).key('f').destructive());
        proof {
            let question = force_question(branch@, reason.elsewhere());
            assert(modal::option_views(options@) =~= question->Confirm_options);
            assert(styled::line_views(body@) =~= question->Confirm_body);
        }
        self.push_confirm("delete branch?", body, options, ModalAction::ForceBranch { branch });
    }

    /// Asks whether to retry a refused pull with a rebase.
    pub fn open_pull_rebase_modal(&mut self, name: String)
        ensures
            final(self)@ == old(self)@.rooted().show(rebase_question(name@)),
            final(self)@.modal->0.wf(),
    {
        self.go_root();
        let q = request::quote(name.as_str());
        let t = text::cat3("⚠ ", q.as_str(), " has diverged from its upstream");
        let body = styled::lines2(
            Line::styled(t.as_str(), styled::color(DANGER)),
            styled::new_dim_line("a plain fast-forward pull isn't possible"),
        );
        let options = modal::options1(
            ConfirmOption::new("pull with rebase (replay local commits on top)").key('r'),
        );
        self.push_confirm("pull needs a rebase", body, options, ModalAction::PullRebase { name });
    }

    /// Asks before a branch is deleted.
    pub fn open_branch_delete_modal(&mut self, name: String)
        ensures
            final(self)@ == old(self)@.show(branch_delete_question(name@)),
            final(self)@.modal->0.wf(),
    {
        let q = request::quote(name.as_str());
        let t = text::cat3("delete branch ", q.as_str(), "?");
        let body = styled::lines1(Line::raw(t.as_str()));
        let options = modal::options2(
            ConfirmOption::new("delete branch"),
            ConfirmOption::new("force delete").key('f').destructive(),
        );
        assert(modal::option_views(options@) =~= branch_delete_question(name@)->Confirm_options);
        self.push_confirm("delete branch", body, options, ModalAction::BranchDelete { name });
    }

    /// Asks before a stash entry is dropped.
    pub fn open_stash_drop_modal(&mut self, name: String, index: Option<u32>)
        ensures
            final(self)@ == old(self)@.show(stash_drop_question(name@, index)),
            final(self)@.modal->0.wf(),
    {
        let label = match index {
            Some(i) => {
                let n = text::dec(i as usize);
                text::cat3("drop stash@{", n.as_str(), "}?")
            },
            None => "drop stash?".to_string(),
        };
        let body = styled::lines1(Line::raw(label.as_str()));
        let options = modal::options1(ConfirmOption::new("drop stash").destructive());
        self.push_confirm("drop stash", body, options, ModalAction::StashDrop { name, index });
    }

    /// Asks before the conflict resolver aborts.
    pub fn open_resolver_abort_modal(&mut self, target: String)
        ensures
            final(self)@ == old(self)@.show(abort_question(target@)),
            final(self)@.modal->0.wf(),
    {
        let q = request::quote(target.as_str());
        let t = text::cat3(
            "abort the operation in ",
            q.as_str(),
            " and discard resolutions?",
        );
        let body = styled::lines1(Line::raw(t.as_str()));
        let options = modal::options1(ConfirmOption::new("abort").destructive());
        self.push_confirm("abort", body, options, ModalAction::ResolverAbort);
    }

    /// Offers to install a newer release.
    pub fn open_update_modal(&mut self, release: Release)
        ensures
            final(self)@ == old(self)@.show(update_offer(release, old(self)@.version)),
            final(self)@.modal->0.wf(),
    {
        let have = text::cat5(
            "wtm ",
            release.version.as_str(),
            " is available (you have ",
            self.version.as_str(),
            ").",
        );
        let notes = text::cat2("Release notes: ", release.url.as_str());
        let body = vec![
            Line::raw(have.as_str()),
            Line::raw(""),
            Line::raw(notes.as_str()),
            Line::raw(""),
            Line::raw("Updating replaces this binary and relaunches wtm."),
        ];
        let options = modal::options2(
            ConfirmOption::new("update and restart").key('u'),
            ConfirmOption::new("not now").key('n'),
        );
        let title = text::cat2("update to wtm ", release.version.as_str());
        proof {
            let offer = update_offer(release, self@.version);
            assert(styled::line_views(body@) =~= offer->Confirm_body);
            assert(modal::option_views(options@) =~= offer->Confirm_options);
        }
        self.modal = Some(
            Modal::Confirm {
                title,
                body,
                options,
                selected: 0,
                action: ModalAction::UpdateApp(Box::new(release)),
            },
        );
    }
}

} // verus!

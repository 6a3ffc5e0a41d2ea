//! The new-worktree dialog, and the create that it starts.

use vstd::prelude::*;
use vstd::string::*;
use vstd::view::View as _;

use crate::app::{App, AppView, CreateDialog, CreateRun, Screen, View};
use crate::candidates;
use crate::candidates::CheckoutCandidate;
use crate::dialogs;
use crate::input;
use crate::input::{KeyCode, KeyEvent, TextInput, TextState};
use crate::model;
use crate::model::{CreateMsg, CreateResult, ExistingTarget, SetupStep, Task, TaskView};
use crate::request::{Request, RequestView};
use crate::text;

verus! {

/// The branches of the repository.
#[derive(Debug)]
pub struct BranchLists {
    /// The local branches.
    pub local: Vec<String>,
    /// The short names and refs of the remote branches; none when they could not
    /// be read.
    pub remotes: Option<Vec<(String, String)>>,
}

impl BranchLists {
    /// The branches that can be checked out.
    pub open spec fn choices(self, worktrees: Seq<model::WorktreeInfo>) -> Seq<CheckoutCandidate> {
        candidates::choices(
            worktrees,
            self.local@,
            match self.remotes {
                Some(v) => Some(v@),
                None => None,
            },
        )
    }
}

/// The first place from `i` on where `names` holds `name`; 0 where it does not.
pub open spec fn place_of(names: Seq<Seq<char>>, name: Seq<char>, i: int) -> int
    decreases names.len() - i,
{
    if i < 0 || i >= names.len() {
        0
    } else if names[i] == name {
        i
    } else {
        place_of(names, name, i + 1)
    }
}

/// The first place where `names` holds `name`; 0 where it does not.
fn find_place(names: &Vec<String>, name: &str) -> (r: usize)
    ensures
        r == place_of(text::views(names@), name@, 0),
{
    let ghost all = text::views(names@);
    let mut i: usize = 0;
    while i < names.len()
        invariant
            all == text::views(names@),
            place_of(all, name@, 0) == place_of(all, name@, i as int),
        decreases names@.len() - i,
    {
        assert(all[i as int] == names@[i as int]@);
        if text::same(names[i].as_str(), name) {
            return i;
        }
        i += 1;
    }
    0
}

/// The first candidate from `i` on that is this branch.
pub open spec fn candidate_of(
    branches: Seq<CheckoutCandidate>,
    branch: Seq<char>,
    i: int,
) -> Option<int>
    decreases branches.len() - i,
{
    if i < 0 || i >= branches.len() {
        None
    } else if branches[i].branch@ == branch {
        Some(i)
    } else {
        candidate_of(branches, branch, i + 1)
    }
}

/// The first candidate that is this branch.
fn find_candidate(branches: &Vec<CheckoutCandidate>, branch: &str) -> (r: Option<usize>)
    ensures
        match r {
            Some(i) => i < branches@.len() && candidate_of(branches@, branch@, 0) == Some(
                i as int,
            ),
            None => candidate_of(branches@, branch@, 0) is None,
        },
{
    let mut i: usize = 0;
    while i < branches.len()
        invariant
            candidate_of(branches@, branch@, 0) == candidate_of(branches@, branch@, i as int),
        decreases branches@.len() - i,
    {
        if text::same(branches[i].branch.as_str(), branch) {
            return Some(i);
        }
        i += 1;
    }
    None
}

impl CreateDialog {
    /// The dialog as it opens, with the cursor on a branch if one is asked for.
    pub open spec fn opened(
        worktrees: Seq<model::WorktreeInfo>,
        lists: BranchLists,
        prefill: Option<Seq<char>>,
    ) -> CreateDialog {
        let branches = lists.choices(worktrees);
        CreateDialog {
            name: TextState::filled(Seq::empty()),
            branches,
            all_branches: text::views(lists.local@),
            base: candidates::base_for(worktrees, lists.local@),
            selected: match prefill {
                Some(b) => match candidate_of(branches, b, 0) {
                    Some(i) => i + 1,
                    None => 0,
                },
                None => 0,
            },
            base_focus: false,
            base_pick: None,
        }
    }

    /// With the picker for the base open on the base chosen so far.
    pub open spec fn picking_base(self) -> CreateDialog {
        CreateDialog { base_pick: Some(place_of(self.all_branches, self.base, 0)), ..self }
    }

    /// After a key in the picker for the base, whose cursor is at `i`.
    pub open spec fn base_key(self, i: int, code: KeyCode) -> CreateDialog {
        if code is Up || code == KeyCode::Char('k') {
            CreateDialog {
                base_pick: Some(
                    if i > 0 {
                        i - 1
                    } else {
                        i
                    },
                ),
                ..self
            }
        } else if code is Down || code == KeyCode::Char('j') {
            CreateDialog {
                base_pick: Some(
                    if i + 1 < self.all_branches.len() {
                        i + 1
                    } else {
                        i
                    },
                ),
                ..self
            }
        } else if code is Enter || code is Tab {
            CreateDialog {
                base: if 0 <= i < self.all_branches.len() {
                    self.all_branches[i]
                } else {
                    self.base
                },
                base_pick: None,
                ..self
            }
        } else if code is Esc {
            CreateDialog { base_pick: None, ..self }
        } else {
            self
        }
    }

    /// After a key that only changes the dialog; `listed` is how many branches
    /// the typed name keeps.
    pub open spec fn typed(self, listed: int, code: KeyCode) -> CreateDialog {
        match code {
            KeyCode::Down => CreateDialog {
                base_focus: false,
                selected: if self.selected < listed {
                    self.selected + 1
                } else {
                    self.selected
                },
                ..self
            },
            KeyCode::Up => CreateDialog {
                base_focus: false,
                selected: if self.selected > 0 {
                    self.selected - 1
                } else {
                    self.selected
                },
                ..self
            },
            _ => CreateDialog {
                base_focus: false,
                name: self.name.after(code),
                selected: if input::edits(code) {
                    0
                } else {
                    self.selected
                },
                ..self
            },
        }
    }

    /// What Enter asks to be created: the typed name off the base, or the branch
    /// under the cursor, off its remote where it has one. None where there is
    /// nothing to create.
    pub open spec fn wanted(self, filtered: Seq<int>) -> Option<(Seq<char>, Option<Seq<char>>)> {
        if self.selected == 0 {
            let branch = text::trimmed(self.name.value);
            if branch.len() == 0 {
                None
            } else {
                Some((branch, Some(self.base)))
            }
        } else if 0 < self.selected <= filtered.len() {
            let i = filtered[self.selected - 1];
            if 0 <= i < self.branches.len() {
                Some((self.branches[i].branch@, model::opt(self.branches[i].remote)))
            } else {
                None
            }
        } else {
            None
        }
    }
}

/// The line for the setup command after a key; Enter sends it off.
pub open spec fn typed_line(line: Seq<char>, code: KeyCode) -> Seq<char> {
    match code {
        KeyCode::Enter => Seq::empty(),
        KeyCode::Backspace => if line.len() > 0 {
            line.drop_last()
        } else {
            line
        },
        KeyCode::Char(c) => line.push(c),
        _ => line,
    }
}

/// Applies a key to the line for the setup command.
fn type_line(line: &mut String, code: KeyCode)
    ensures
        final(line)@ == typed_line(old(line)@, code),
{
    match code {
        KeyCode::Enter => *line = String::new(),
        KeyCode::Backspace => {
            let chars = text::chars_of(line.as_str());
            if chars.len() > 0 {
                let n: usize = chars.len() - 1;
                *line = text::string_of(&chars, 0, n);
                assert(line@ =~= old(line)@.drop_last());
            }
        },
        KeyCode::Char(c) => line.push(c),
        _ => {},
    }
}

impl CreateRun {
    /// The lines that report the first `n` setup steps.
    pub open spec fn step_lines(steps: Seq<SetupStep>, n: int) -> Seq<Seq<char>>
        decreases n,
    {
        if n <= 0 {
            Seq::empty()
        } else {
            let s = steps[n - 1];
            let head = CreateRun::step_lines(steps, n - 1).push(
                (if s.ok {
                    "[ok] "@
                } else {
                    "[FAILED] "@
                }) + s.step@,
            );
            match s.detail {
                Some(d) => head.push("       "@ + d@),
                None => head,
            }
        }
    }

    /// The lines that report how a create ended.
    pub open spec fn ending(result: Result<CreateResult, String>) -> Seq<Seq<char>> {
        (match result {
            Ok(r) => CreateRun::step_lines(r.setup@, r.setup@.len() as int).push(
                if r.setup_ok {
                    "worktree ready: "@ + r.path@
                } else {
                    "worktree kept at "@ + r.path@ + " but some setup steps failed"@
                },
            ),
            Err(e) => seq!["error: "@ + e@],
        }).push("press Enter to continue"@)
    }

    /// The lines shown after the first `n` messages of a create.
    pub open spec fn told(lines: Seq<Seq<char>>, msgs: Seq<CreateMsg>, n: int) -> Seq<Seq<char>>
        decreases n,
    {
        if n <= 0 {
            lines
        } else {
            let before = CreateRun::told(lines, msgs, n - 1);
            match msgs[n - 1] {
                CreateMsg::Progress(line) => before.push(line@),
                CreateMsg::Done(result) => before + CreateRun::ending(result),
            }
        }
    }

    /// Whether a create has ended with the first `n` of its messages.
    pub open spec fn ended(msgs: Seq<CreateMsg>, n: int) -> bool
        decreases n,
    {
        n > 0 && (msgs[n - 1] is Done || CreateRun::ended(msgs, n - 1))
    }

    /// After every message that is queued; once the create has ended they are
    /// left alone.
    pub open spec fn polled(self) -> CreateRun {
        if self.done {
            self
        } else {
            let n = self.rx.queue.len() as int;
            CreateRun {
                lines: CreateRun::told(self.lines, self.rx.queue, n),
                rx: self.rx.drained(),
                done: CreateRun::ended(self.rx.queue, n),
                ..self
            }
        }
    }

    /// After a key while the create runs. Any key takes a first Ctrl+C back.
    pub open spec fn typed(self, code: KeyCode) -> CreateRun {
        CreateRun { kill_armed: false, input: typed_line(self.input, code), ..self }
    }
}

impl AppView {
    /// With the branches for the dialog asked for.
    pub open spec fn open_create(self, prefill: Option<Seq<char>>) -> AppView {
        self.ask(RequestView::CreateChoices { prefill })
    }

    /// After the branches for the dialog were read.
    pub open spec fn create_choices_read(
        self,
        prefill: Option<Seq<char>>,
        result: Result<BranchLists, String>,
    ) -> AppView {
        match result {
            Ok(lists) => self.pushed(
                Screen::Create(CreateDialog::opened(self.worktrees, lists, prefill)),
            ),
            Err(e) => self.fail(e@),
        }
    }

    /// With the dialog in another state.
    pub open spec fn in_create(self, d: CreateDialog) -> AppView {
        AppView { view: Screen::Create(d), ..self }
    }

    /// With a create asked for, once it is known whether its directory exists.
    pub open spec fn request_create(self, branch: Seq<char>, base: Option<Seq<char>>) -> AppView {
        self.ask(RequestView::ExistingTarget { branch, base })
    }

    /// With a create running.
    pub open spec fn start_create(self, branch: Seq<char>, base: Option<Seq<char>>) -> AppView {
        AppView {
            view: Screen::Creating(
                CreateRun {
                    branch,
                    lines: Seq::empty(),
                    rx: TaskView::started(self.next_task),
                    done: false,
                    input: Seq::empty(),
                    kill_armed: false,
                },
            ),
            ..self
        }.numbered().ask(RequestView::Create { task: self.next_task, branch, base })
    }

    /// After it is known whether the directory of a new worktree exists.
    pub open spec fn target_checked(
        self,
        branch: Seq<char>,
        base: Option<Seq<char>>,
        result: Result<Option<ExistingTarget>, String>,
    ) -> AppView {
        match result {
            Ok(Some(t)) => self.rooted().show(
                dialogs::existing_question(branch, base, t.path@, model::opt(t.worktree_name)),
            ),
            Ok(None) => self.start_create(branch, base),
            Err(e) => self.fail(e@),
        }
    }

    /// With a directory sent to be removed, so that a worktree can take its
    /// place.
    pub open spec fn replace_target(
        self,
        branch: Seq<char>,
        base: Option<Seq<char>>,
        path: Seq<char>,
    ) -> AppView {
        self.ask(RequestView::RemoveTarget { branch, base, path })
    }

    /// After it is known whether a directory holds work.
    pub open spec fn target_inspected(
        self,
        branch: Seq<char>,
        base: Option<Seq<char>>,
        path: Seq<char>,
        result: Result<bool, String>,
    ) -> AppView {
        match result {
            Ok(work) => if work {
                self.show(dialogs::replace_question(branch, base, path))
            } else {
                self.replace_target(branch, base, path)
            },
            Err(e) => self.fail(e@),
        }
    }

    /// After a directory was removed, or could not be.
    pub open spec fn target_removed(
        self,
        branch: Seq<char>,
        base: Option<Seq<char>>,
        result: Result<(), String>,
    ) -> AppView {
        match result {
            Ok(_) => self.start_create(branch, base),
            Err(e) => self.fail(e@),
        }
    }

    /// After Enter in the dialog.
    pub open spec fn submit_create(self, filtered: Seq<int>) -> AppView {
        match self.view {
            Screen::Create(d) => match d.wanted(filtered) {
                Some((branch, base)) => self.request_create(branch, base),
                None => if d.selected == 0 {
                    self.say("type a name for the new branch"@)
                } else {
                    self
                },
            },
            _ => self,
        }
    }

    /// After a key in the dialog; `filtered` are the branches that the typed
    /// name keeps.
    #[verifier::opaque]
    pub open spec fn create_step(self, filtered: Seq<int>, key: KeyEvent) -> AppView {
        let code = key.code;
        match self.view {
            Screen::Create(d) => match d.base_pick {
                Some(i) => self.in_create(d.base_key(i, code)),
                None => if code is Esc {
                    if d.base_focus {
                        self.in_create(CreateDialog { base_focus: false, ..d })
                    } else {
                        self.popped()
                    }
                } else if code is Tab && d.selected == 0 && d.all_branches.len() > 0 {
                    if d.base_focus {
                        self.in_create(d.picking_base())
                    } else {
                        self.in_create(CreateDialog { base_focus: true, ..d })
                    }
                } else if (code is Enter || code == KeyCode::Char(' ')) && d.base_focus {
                    self.in_create(d.picking_base())
                } else if code is Enter {
                    self.submit_create(filtered)
                } else {
                    self.in_create(d.typed(filtered.len() as int, code))
                },
            },
            _ => self,
        }
    }

    /// After a key in the dialog.
    #[verifier::opaque]
    pub open spec fn create_key(self, key: KeyEvent) -> AppView {
        match self.view {
            Screen::Create(d) => self.create_step(
                candidates::filtered(d.branches, d.name.value),
                key,
            ),
            _ => self,
        }
    }

    /// With the create in another state.
    pub open spec fn in_run(self, r: CreateRun) -> AppView {
        AppView { view: Screen::Creating(r), ..self }
    }

    /// With every message of the running create taken over.
    pub open spec fn poll_create(self) -> AppView {
        match self.view {
            Screen::Creating(r) => self.in_run(r.polled()),
            _ => self,
        }
    }

    /// After a key while a create runs, or has ended.
    #[verifier::opaque]
    pub open spec fn run_key(self, key: KeyEvent) -> AppView {
        let code = key.code;
        match self.view {
            Screen::Creating(r) => if r.done {
                if code is Enter || code is Esc || code == KeyCode::Char('q') {
                    self.popped().refresh()
                } else {
                    self
                }
            } else if code is Enter {
                self.in_run(r.typed(code)).ask(
                    RequestView::SendLine { task: r.rx.id, text: r.input },
                )
            } else {
                self.in_run(r.typed(code))
            },
            _ => self,
        }
    }

    /// After Ctrl+C: a running create takes two to be killed; anything else
    /// quits.
    pub open spec fn interrupt(self) -> AppView {
        match self.view {
            Screen::Creating(r) => if r.done {
                AppView { quit: true, ..self }
            } else if r.kill_armed {
                self.in_run(
                    CreateRun { lines: r.lines.push("killing setup command…"@), ..r },
                ).ask(RequestView::KillSetup { task: r.rx.id })
            } else {
                self.in_run(CreateRun { kill_armed: true, ..r }).say(
                    "setup is running; press Ctrl+C again to kill it"@,
                )
            },
            _ => AppView { quit: true, ..self },
        }
    }

    /// After a line was sent to the setup command, or none was running.
    pub open spec fn line_sent(self, task: u64, t: Seq<char>, sent: bool) -> AppView {
        match self.view {
            Screen::Creating(r) => if r.rx.id == task {
                self.in_run(
                    CreateRun {
                        lines: r.lines.push(
                            if sent {
                                "❯ "@ + t
                            } else {
                                "(no setup command is running to receive input)"@
                            },
                        ),
                        ..r
                    },
                )
            } else {
                self
            },
            _ => self,
        }
    }
}

impl App {
    /// Asks for the branches of the new-worktree dialog.
    pub fn open_create(&mut self)
        ensures
            final(self)@ == old(self)@.open_create(None),
    {
        self.ask(Request::CreateChoices { prefill: None });
    }

    /// Asks for the branches of the new-worktree dialog, to open it on one of
    /// them.
    pub fn open_create_prefilled(&mut self, branch: String)
        ensures
            final(self)@ == old(self)@.open_create(Some(branch@)),
    {
        self.ask(Request::CreateChoices { prefill: Some(branch) });
    }

    /// Takes the branches that a `Request::CreateChoices` asked for.
    pub fn on_create_choices(
        &mut self,
        prefill: Option<String>,
        result: Result<BranchLists, String>,
    )
        requires
            old(self).wf(),
        ensures
            final(self)@ == old(self)@.create_choices_read(model::opt(prefill), result),
            final(self).wf(),
    {
        match result {
            Ok(lists) => {
                let branches = candidates::checkout_choices(
                    &self.worktrees,
                    &lists.local,
                    &lists.remotes,
                );
                let base = candidates::default_base(&self.worktrees, &lists.local);
                let count: usize = branches.len();
                let selected: usize = match &prefill {
                    Some(b) => match find_candidate(&branches, b.as_str()) {
                        Some(i) => {
                            assert(i < count);
                            i + 1
                        },
                        None => 0,
                    },
                    None => 0,
                };
                self.push_screen(
                    View::Create {
                        name: TextInput::new(),
                        branches,
                        all_branches: lists.local,
                        base,
                        selected,
                        base_focus: false,
                        base_pick: None,
                    },
                );
            },
            Err(e) => self.set_error(e),
        }
    }

    /// Asks whether the directory of a new worktree exists, before creating it.
    pub fn request_create(&mut self, branch: String, base: Option<String>)
        ensures
            final(self)@ == old(self)@.request_create(branch@, model::opt(base)),
    {
        self.ask(Request::ExistingTarget { branch, base });
    }

    /// Takes the answer to a `Request::ExistingTarget`.
    pub fn on_existing_target(
        &mut self,
        branch: String,
        base: Option<String>,
        result: Result<Option<ExistingTarget>, String>,
    )
        requires
            old(self).wf(),
        ensures
            final(self)@ == old(self)@.target_checked(branch@, model::opt(base), result),
            final(self).wf(),
    {
        match result {
            Ok(Some(t)) => self.open_confirm_existing_modal(branch, base, t.path, t.worktree_name),
            Ok(None) => self.start_create(branch, base),
            Err(e) => self.set_error(e),
        }
    }

    /// Asks for a directory to be removed, so that a worktree can take its
    /// place.
    pub fn replace_target(&mut self, branch: String, base: Option<String>, path: String)
        ensures
            final(self)@ == old(self)@.replace_target(branch@, model::opt(base), path@),
    {
        self.ask(Request::RemoveTarget { branch, base, path });
    }

    /// Takes the answer to a `Request::TargetHasChanges`.
    pub fn on_target_has_changes(
        &mut self,
        branch: String,
        base: Option<String>,
        path: String,
        result: Result<bool, String>,
    )
        requires
            old(self).wf(),
        ensures
            final(self)@ == old(self)@.target_inspected(
                branch@,
                model::opt(base),
                path@,
                result,
            ),
            final(self).wf(),
    {
        match result {
            Ok(work) => if work {
                self.open_confirm_replace_changes(branch, base, path);
            } else {
                self.replace_target(branch, base, path);
            },
            Err(e) => self.set_error(e),
        }
    }

    /// Takes the result of a `Request::RemoveTarget`.
    pub fn on_target_removed(
        &mut self,
        branch: String,
        base: Option<String>,
        result: Result<(), String>,
    )
        requires
            old(self).wf(),
        ensures
            final(self)@ == old(self)@.target_removed(branch@, model::opt(base), result),
            final(self).wf(),
    {
        match result {
            Ok(_) => self.start_create(branch, base),
            Err(e) => self.set_error(e),
        }
    }

    /// Starts a create and shows its progress. `base` is what a new branch
    /// starts from; without one an existing branch is checked out.
    pub fn start_create(&mut self, branch: String, base: Option<String>)
        requires
            old(self).wf(),
        ensures
            final(self)@ == old(self)@.start_create(branch@, model::opt(base)),
            final(self).wf(),
    {
        let task: u64 = self.take_number();
        self.view = View::Creating {
            branch: branch.clone(),
            lines: Vec::new(),
            rx: Task::new(task),
            done: false,
            input: String::new(),
            kill_armed: false,
        };
        assert(self@.view->Creating_0.lines =~= Seq::<Seq<char>>::empty());
        self.ask(Request::Create { task, branch, base });
    }

    /// Handles Enter in the dialog.
    fn submit_create(&mut self, filtered: &Vec<usize>)
        requires
            old(self).wf(),
        ensures
            final(self)@ == old(self)@.submit_create(candidates::ints(filtered@)),
            final(self).wf(),
    {
        if let View::Create { name, branches, base, selected, .. } = &self.view {
            if *selected == 0 {
                let branch = name.trimmed();
                if branch.as_str().unicode_len() == 0 {
                    self.say("type a name for the new branch".to_string());
                } else {
                    let base = base.clone();
                    self.request_create(branch, Some(base));
                }
            } else if *selected - 1 < filtered.len() {
                let i: usize = filtered[*selected - 1];
                assert(candidates::ints(filtered@)[*selected - 1] == i);
                if i < branches.len() {
                    let c = branches[i].clone();
                    self.request_create(c.branch, c.remote);
                }
            }
        }
    }

    /// Handles a key in the picker for the base.
    fn on_base_key(&mut self, key: KeyEvent)
        requires
            old(self).wf(),
        ensures
            final(self)@ == match old(self)@.view {
                Screen::Create(d) => match d.base_pick {
                    Some(i) => old(self)@.in_create(d.base_key(i, key.code)),
                    None => old(self)@,
                },
                _ => old(self)@,
            },
            final(self).wf(),
    {
        if let View::Create { all_branches, base, base_pick, .. } = &mut self.view {
            if let Some(i) = *base_pick {
                assert(text::views(all_branches@).len() == all_branches@.len());
                match key.code {
                    KeyCode::Up | KeyCode::Char('k') => *base_pick = Some(i.saturating_sub(1)),
                    KeyCode::Down | KeyCode::Char('j') => {
                        if i < all_branches.len() && i + 1 < all_branches.len() {
                            *base_pick = Some(i + 1);
                        }
                    },
                    KeyCode::Enter | KeyCode::Tab => {
                        if i < all_branches.len() {
                            *base = all_branches[i].clone();
                        }
                        *base_pick = None;
                    },
                    KeyCode::Esc => *base_pick = None,
                    _ => {},
                }
            }
        }
    }

    /// Opens the picker for the base.
    fn pick_base(&mut self)
        requires
            old(self).wf(),
        ensures
            final(self)@ == match old(self)@.view {
                Screen::Create(d) => old(self)@.in_create(d.picking_base()),
                _ => old(self)@,
            },
            final(self).wf(),
    {
        if let View::Create { all_branches, base, base_pick, .. } = &mut self.view {
            *base_pick = Some(find_place(all_branches, base.as_str()));
        }
    }

    /// Moves the focus to the button for the base, or away from it.
    fn focus_base(&mut self, on: bool)
        requires
            old(self).wf(),
        ensures
            final(self)@ == match old(self)@.view {
                Screen::Create(d) => old(self)@.in_create(CreateDialog { base_focus: on, ..d }),
                _ => old(self)@,
            },
            final(self).wf(),
    {
        if let View::Create { base_focus, .. } = &mut self.view {
            *base_focus = on;
        }
    }

    /// Handles a key that only changes the dialog.
    fn type_create(&mut self, listed: usize, key: KeyEvent)
        requires
            old(self).wf(),
        ensures
            final(self)@ == match old(self)@.view {
                Screen::Create(d) => old(self)@.in_create(d.typed(listed as int, key.code)),
                _ => old(self)@,
            },
            final(self).wf(),
    {
        if let View::Create { name, selected, base_focus, .. } = &mut self.view {
            *base_focus = false;
            match key.code {
                KeyCode::Down => {
                    if *selected < listed {
                        *selected = *selected + 1;
                    }
                },
                KeyCode::Up => *selected = selected.saturating_sub(1),
                _ => {
                    if name.on_key(key) {
                        *selected = 0;
                    }
                },
            }
        }
    }

    /// Handles a key in the new-worktree dialog; `filtered` are the places of
    /// the branches that the typed name keeps.
    pub fn step_create(&mut self, filtered: &Vec<usize>, key: KeyEvent)
        requires
            old(self).wf(),
        ensures
            final(self)@ == old(self)@.create_step(candidates::ints(filtered@), key),
            final(self).wf(),
    {
        proof {
            reveal(AppView::create_step);
        }
        let (picking, focused, on_name) = match &self.view {
            View::Create { all_branches, selected, base_focus, base_pick, .. } => {
                assert(text::views(all_branches@).len() == all_branches@.len());
                (base_pick.is_some(), *base_focus, *selected == 0 && all_branches.len() > 0)
            },
            _ => {
                return;
            },
        };
        if picking {
            self.on_base_key(key);
            return;
        }
        if key.code == KeyCode::Esc {
            if focused {
                self.focus_base(false);
            } else {
                self.pop_screen();
            }
        } else if key.code == KeyCode::Tab && on_name {
            if focused {
                self.pick_base();
            } else {
                self.focus_base(true);
            }
        } else if (key.code == KeyCode::Enter || key.code == KeyCode::Char(' ')) && focused {
            self.pick_base();
        } else if key.code == KeyCode::Enter {
            self.submit_create(filtered);
        } else {
            self.type_create(filtered.len(), key);
        }
    }

    /// Handles a key in the new-worktree dialog: the name of a new branch, the
    /// list of branches to check out, or the base.
    pub fn on_create_key(&mut self, key: KeyEvent)
        requires
            old(self).wf(),
        ensures
            final(self)@ == old(self)@.create_key(key),
            final(self).wf(),
    {
        proof {
            reveal(AppView::create_key);
        }
        let filtered = match &self.view {
            View::Create { name, branches, .. } => candidates::filtered_candidates(
                branches,
                name.as_str(),
            ),
            _ => {
                return;
            },
        };
        self.step_create(&filtered, key);
    }

    /// Takes a message of a create that is running.
    pub fn deliver_create(&mut self, task: u64, msg: CreateMsg)
        ensures
            final(self)@ == match old(self)@.view {
                Screen::Creating(r) => if r.rx.id == task {
                    old(self)@.in_run(
                        CreateRun {
                            rx: TaskView { queue: r.rx.queue.push(msg), ..r.rx },
                            ..r
                        },
                    )
                } else {
                    old(self)@
                },
                _ => old(self)@,
            },
    {
        if let View::Creating { rx, .. } = &mut self.view {
            if rx.id == task {
                rx.push(msg);
            }
        }
    }

    /// Handles a key while a create runs, or has ended.
    pub fn on_creating_key(&mut self, key: KeyEvent)
        requires
            old(self).wf(),
        ensures
            final(self)@ == old(self)@.run_key(key),
            final(self).wf(),
    {
        proof {
            reveal(AppView::run_key);
        }
        let mut leave = false;
        let mut asked: Option<Request> = None;
        if let View::Creating { rx, done, input, kill_armed, .. } = &mut self.view {
            if *done {
                leave = key.code == KeyCode::Enter || key.code == KeyCode::Esc || key.code
                    == KeyCode::Char('q');
            } else {
                *kill_armed = false;
                if key.code == KeyCode::Enter {
                    asked = Some(Request::SendLine { task: rx.id, text: input.clone() });
                }
                type_line(input, key.code);
            }
        }
        if leave {
            self.pop_screen();
            self.refresh();
        } else if let Some(r) = asked {
            self.ask(r);
        }
    }

    /// Handles Ctrl+C.
    pub fn on_interrupt(&mut self)
        requires
            old(self).wf(),
        ensures
            final(self)@ == old(self)@.interrupt(),
            final(self).wf(),
    {
        let mut asked: Option<Request> = None;
        let mut armed = false;
        if let View::Creating { lines, rx, done, kill_armed, .. } = &mut self.view {
            if !*done {
                if *kill_armed {
                    let ghost before = lines@;
                    let line = "killing setup command…".to_string();
                    lines.push(line);
                    assert(text::views(lines@) =~= text::views(before).push(line@));
                    asked = Some(Request::KillSetup { task: rx.id });
                } else {
                    *kill_armed = true;
                    armed = true;
                }
            }
        }
        if let Some(r) = asked {
            self.ask(r);
        } else if armed {
            self.say("setup is running; press Ctrl+C again to kill it".to_string());
        } else {
            self.quit = true;
        }
    }

    /// Takes the result of a `Request::SendLine`: whether a command was running
    /// to receive the line.
    pub fn on_line_sent(&mut self, task: u64, line: String, sent: bool)
        requires
            old(self).wf(),
        ensures
            final(self)@ == old(self)@.line_sent(task, line@, sent),
            final(self).wf(),
    {
        if let View::Creating { lines, rx, .. } = &mut self.view {
            if rx.id == task {
                let ghost before = lines@;
                let shown = if sent {
                    text::cat2("❯ ", line.as_str())
                } else {
                    "(no setup command is running to receive input)".to_string()
                };
                lines.push(shown);
                assert(text::views(lines@) =~= text::views(before).push(shown@));
            }
        }
    }

    /// Takes over every message of the running create.
    pub fn poll_create(&mut self)
        requires
            old(self).wf(),
        ensures
            final(self)@ == old(self)@.poll_create(),
            final(self).wf(),
    {
        if let View::Creating { lines, rx, done, .. } = &mut self.view {
            if !*done {
                drain_create(lines, rx, done);
            }
        }
    }
}

/// Puts a line at the end of a list.
fn add_line(lines: &mut Vec<String>, line: String)
    ensures
        text::views(final(lines)@) == text::views(old(lines)@).push(line@),
{
    lines.push(line);
    assert(text::views(lines@) =~= text::views(old(lines)@).push(line@));
}

/// Puts the report on a create that has ended at the end of a list.
fn add_ending(lines: &mut Vec<String>, result: Result<CreateResult, String>)
    ensures
        text::views(final(lines)@) == text::views(old(lines)@) + CreateRun::ending(result),
{
    let ghost before = text::views(lines@);
    match &result {
        Ok(r) => {
            let ghost steps = r.setup@;
            assert(before =~= before + CreateRun::step_lines(steps, 0));
            for i in 0..r.setup.len()
                invariant
                    steps == r.setup@,
                    text::views(lines@) == before + CreateRun::step_lines(steps, i as int),
            {
                let s = &r.setup[i];
                let head = if s.ok {
                    "[ok] "
                } else {
                    "[FAILED] "
                };
                add_line(lines, text::cat2(head, s.step.as_str()));
                if let Some(d) = &s.detail {
                    add_line(lines, text::cat2("       ", d.as_str()));
                }
                assert(text::views(lines@) =~= before + CreateRun::step_lines(steps, i + 1));
            }
            let last = if r.setup_ok {
                text::cat2("worktree ready: ", r.path.as_str())
            } else {
                text::cat3("worktree kept at ", r.path.as_str(), " but some setup steps failed")
            };
            add_line(lines, last);
        },
        Err(e) => {
            add_line(lines, text::cat2("error: ", e.as_str()));
        },
    }
    add_line(lines, "press Enter to continue".to_string());
    assert(text::views(lines@) =~= before + CreateRun::ending(result));
}

/// Takes over every message of a create.
fn drain_create(lines: &mut Vec<String>, rx: &mut Task<CreateMsg>, done: &mut bool)
    requires
        !*old(done),
    ensures
        text::views(final(lines)@) == CreateRun::told(
            text::views(old(lines)@),
            old(rx)@.queue,
            old(rx)@.queue.len() as int,
        ),
        final(rx)@ == old(rx)@.drained(),
        *final(done) == CreateRun::ended(old(rx)@.queue, old(rx)@.queue.len() as int),
{
    let ghost before = text::views(lines@);
    let ghost all = rx@.queue;
    let ghost mut n: int = 0;
    assert(all.skip(0) =~= all);
    loop
        invariant
            0 <= n <= all.len(),
            rx@.id == old(rx)@.id,
            rx@.queue == all.skip(n),
            text::views(lines@) == CreateRun::told(before, all, n),
            *done == CreateRun::ended(all, n),
        ensures
            n == all.len(),
            rx@.queue == all.skip(n),
        decreases all.len() - n,
    {
        let ghost rest = rx@.queue;
        match rx.try_recv() {
            Some(msg) => {
                proof {
                    assert(rest[0] == all[n]);
                    assert(rest.drop_first() =~= all.skip(n + 1));
                }
                match msg {
                    CreateMsg::Progress(line) => add_line(lines, line),
                    CreateMsg::Done(result) => {
                        add_ending(lines, result);
                        *done = true;
                    },
                }
                proof {
                    n = n + 1;
                }
            },
            None => {
                break;
            },
        }
    }
    assert(all.skip(n) =~= Seq::<CreateMsg>::empty());
}

} // verus!

//! Modal overlays: a choice between options, a single-line prompt, or the hunk
//! editor.

use vstd::prelude::*;
use vstd::string::*;

use crate::input;
use crate::input::{HunkEditor, HunkState, KeyCode, TextInput, TextState};
use crate::model;
use crate::model::Release;
use crate::styled;
use crate::styled::{Line, LineView};
use crate::text;

verus! {

/// One selectable row of a choice.
#[derive(Debug)]
pub struct ConfirmOption {
    /// Key that chooses the option directly.
    pub key: Option<char>,
    pub label: String,
    /// Whether the option discards work; its shortcut is then a capital.
    pub destructive: bool,
    /// Whether the option can be chosen.
    pub enabled: bool,
}

/// What an option shows.
pub struct OptionView {
    pub key: Option<char>,
    pub label: Seq<char>,
    pub destructive: bool,
    pub enabled: bool,
}

impl View for ConfirmOption {
    type V = OptionView;

    open spec fn view(&self) -> OptionView {
        OptionView {
            key: self.key,
            label: self.label@,
            destructive: self.destructive,
            enabled: self.enabled,
        }
    }
}

/// A plain option.
pub open spec fn choice(label: Seq<char>) -> OptionView {
    OptionView { key: None, label, destructive: false, enabled: true }
}

/// An option that discards work.
pub open spec fn danger(label: Seq<char>) -> OptionView {
    OptionView { destructive: true, ..choice(label) }
}

impl OptionView {
    /// The key that chooses the option directly.
    pub open spec fn hot(self) -> Option<char> {
        match self.key {
            Some(c) => Some(
                if self.destructive {
                    text::ascii_upper(c)
                } else {
                    c
                },
            ),
            None => None,
        }
    }
}

/// The views of a list of options.
pub open spec fn option_views(v: Seq<ConfirmOption>) -> Seq<OptionView> {
    v.map_values(|o: ConfirmOption| o@)
}

impl ConfirmOption {
    /// A plain option that can be chosen and has no shortcut.
    pub fn new(label: &str) -> (r: ConfirmOption)
        ensures
            r@ == choice(label@),
    {
        ConfirmOption { key: None, label: label.to_string(), destructive: false, enabled: true }
    }

    /// The option with a shortcut.
    pub fn key(self, key: char) -> (r: ConfirmOption)
        ensures
            r@ == (OptionView { key: Some(key), ..self@ }),
    {
        ConfirmOption {
            key: Some(key),
            label: self.label,
            destructive: self.destructive,
            enabled: self.enabled,
        }
    }

    /// The option marked as one that discards work.
    pub fn destructive(self) -> (r: ConfirmOption)
        ensures
            r@ == (OptionView { destructive: true, ..self@ }),
    {
        ConfirmOption {
            key: self.key,
            label: self.label,
            destructive: true,
            enabled: self.enabled,
        }
    }

    /// The option, choosable or not.
    pub fn enabled(self, enabled: bool) -> (r: ConfirmOption)
        ensures
            r@ == (OptionView { enabled, ..self@ }),
    {
        ConfirmOption { key: self.key, label: self.label, destructive: self.destructive, enabled }
    }

    /// The effective shortcut. That of an option that discards work is a
    /// capital, so that a small letter bound elsewhere on the screen never
    /// triggers it.
    pub fn shortcut(&self) -> (r: Option<char>)
        ensures
            r == self@.hot(),
    {
        match self.key {
            Some(c) => if self.destructive {
                Some(text::to_ascii_upper(c))
            } else {
                Some(c)
            },
            None => None,
        }
    }
}

/// The shortcut of an option that discards work is never a small ASCII letter.
pub proof fn danger_is_never_lowercase(o: OptionView)
    requires
        o.destructive,
    ensures
        o.hot() matches Some(c) ==> !(97 <= c as int <= 122),
{
}

/// The outcome of a modal.
#[derive(Debug)]
pub enum ModalResult {
    /// The option at this index was chosen.
    Confirmed(usize),
    /// The text of a prompt was submitted, without white space around it.
    Submitted(String),
    /// The modal was dismissed.
    Cancelled,
}

/// The outcome of a modal.
pub enum ResultView {
    Confirmed(int),
    Submitted(Seq<char>),
    Cancelled,
}

impl View for ModalResult {
    type V = ResultView;

    open spec fn view(&self) -> ResultView {
        match self {
            ModalResult::Confirmed(i) => ResultView::Confirmed(*i as int),
            ModalResult::Submitted(s) => ResultView::Submitted(s@),
            ModalResult::Cancelled => ResultView::Cancelled,
        }
    }
}

/// What is to be done once a modal resolves.
#[allow(inconsistent_fields)]
#[derive(Debug)]
pub enum ModalAction {
    /// Revert the file under the cursor.
    RevertFile,
    /// Delete the file under the cursor.
    DeleteFile,
    /// Ignore the exact `file` (first option) or the `pattern`.
    IgnorePath { file: String, pattern: String },
    /// The target directory exists: open it, replace it, or cancel.
    ConfirmExisting {
        branch: String,
        base: Option<String>,
        path: String,
        existing_name: Option<String>,
    },
    /// Replacing the directory would discard work: do it, or cancel.
    ConfirmReplaceChanges { branch: String, base: Option<String>, path: String },
    /// Remove a worktree, alone or with its branch.
    DeleteWorktree { name: String, dirty: usize, branch: Option<String> },
    /// The worktree to remove has changes: stash them, discard them, or cancel.
    DeleteWorktreeDirty { name: String, branch: Option<String>, delete_branch: bool },
    /// Update a worktree with changes: stash them, leave them, or cancel.
    UpdateStash { name: String },
    /// Force the deletion of a branch.
    ForceBranch { branch: String },
    /// Retry a refused pull with a rebase.
    PullRebase { name: String },
    /// Create a branch named by the text.
    BranchCreate,
    /// Rename a branch to the text.
    BranchRename { old: String },
    /// Delete a branch, normally or by force.
    BranchDelete { name: String },
    /// Stash changes with the text as message.
    StashPush { name: String },
    /// Drop a stash entry.
    StashDrop { name: String, index: Option<u32> },
    /// Abort what the conflict resolver is finishing.
    ResolverAbort,
    /// Install a newer release, or postpone it.
    UpdateApp(Box<Release>),
}

/// What is to be done once a modal resolves.
#[allow(inconsistent_fields)]
pub enum ActionView {
    RevertFile,
    DeleteFile,
    IgnorePath { file: Seq<char>, pattern: Seq<char> },
    ConfirmExisting {
        branch: Seq<char>,
        base: Option<Seq<char>>,
        path: Seq<char>,
        existing_name: Option<Seq<char>>,
    },
    ConfirmReplaceChanges { branch: Seq<char>, base: Option<Seq<char>>, path: Seq<char> },
    DeleteWorktree { name: Seq<char>, dirty: int, branch: Option<Seq<char>> },
    DeleteWorktreeDirty { name: Seq<char>, branch: Option<Seq<char>>, delete_branch: bool },
    UpdateStash { name: Seq<char> },
    ForceBranch { branch: Seq<char> },
    PullRebase { name: Seq<char> },
    BranchCreate,
    BranchRename { old: Seq<char> },
    BranchDelete { name: Seq<char> },
    StashPush { name: Seq<char> },
    StashDrop { name: Seq<char>, index: Option<u32> },
    ResolverAbort,
    UpdateApp(Release),
}

impl View for ModalAction {
    type V = ActionView;

    open spec fn view(&self) -> ActionView {
        match self {
            ModalAction::RevertFile => ActionView::RevertFile,
            ModalAction::DeleteFile => ActionView::DeleteFile,
            ModalAction::IgnorePath { file, pattern } => ActionView::IgnorePath {
                file: file@,
                pattern: pattern@,
            },
            ModalAction::ConfirmExisting { branch, base, path, existing_name } => {
                ActionView::ConfirmExisting {
                    branch: branch@,
                    base: model::opt(*base),
                    path: path@,
                    existing_name: model::opt(*existing_name),
                }
            },
            ModalAction::ConfirmReplaceChanges { branch, base, path } => {
                ActionView::ConfirmReplaceChanges {
                    branch: branch@,
                    base: model::opt(*base),
                    path: path@,
                }
            },
            ModalAction::DeleteWorktree { name, dirty, branch } => ActionView::DeleteWorktree {
                name: name@,
                dirty: *dirty as int,
                branch: model::opt(*branch),
            },
            ModalAction::DeleteWorktreeDirty { name, branch, delete_branch } => {
                ActionView::DeleteWorktreeDirty {
                    name: name@,
                    branch: model::opt(*branch),
                    delete_branch: *delete_branch,
                }
            },
            ModalAction::UpdateStash { name } => ActionView::UpdateStash { name: name@ },
            ModalAction::ForceBranch { branch } => ActionView::ForceBranch { branch: branch@ },
            ModalAction::PullRebase { name } => ActionView::PullRebase { name: name@ },
            ModalAction::BranchCreate => ActionView::BranchCreate,
            ModalAction::BranchRename { old } => ActionView::BranchRename { old: old@ },
            ModalAction::BranchDelete { name } => ActionView::BranchDelete { name: name@ },
            ModalAction::StashPush { name } => ActionView::StashPush { name: name@ },
            ModalAction::StashDrop { name, index } => ActionView::StashDrop {
                name: name@,
                index: *index,
            },
            ModalAction::ResolverAbort => ActionView::ResolverAbort,
            ModalAction::UpdateApp(release) => ActionView::UpdateApp(**release),
        }
    }
}

/// A modal overlay, drawn on top of the active screen.
#[derive(Debug)]
pub enum Modal {
    /// A choice between options.
    Confirm {
        title: String,
        body: Vec<Line>,
        options: Vec<ConfirmOption>,
        selected: usize,
        action: ModalAction,
    },
    /// A single-line prompt.
    Prompt { title: String, input: TextInput, hint: String, action: ModalAction },
    /// The editor for one conflict.
    HunkEditor(HunkEditor),
}

/// What a modal overlay shows.
pub enum ModalView {
    Confirm {
        title: Seq<char>,
        body: Seq<LineView>,
        options: Seq<OptionView>,
        selected: int,
        action: ActionView,
    },
    Prompt { title: Seq<char>, input: TextState, hint: Seq<char>, action: ActionView },
    HunkEditor(HunkState),
}

impl View for Modal {
    type V = ModalView;

    open spec fn view(&self) -> ModalView {
        match self {
            Modal::Confirm { title, body, options, selected, action } => ModalView::Confirm {
                title: title@,
                body: styled::line_views(body@),
                options: option_views(options@),
                selected: *selected as int,
                action: action@,
            },
            Modal::Prompt { title, input, hint, action } => ModalView::Prompt {
                title: title@,
                input: input@,
                hint: hint@,
                action: action@,
            },
            Modal::HunkEditor(e) => ModalView::HunkEditor(e@),
        }
    }
}

impl ModalView {
    /// The highlighted option is in the list, and the editor's cursor in its
    /// text.
    pub open spec fn wf(self) -> bool {
        match self {
            ModalView::Confirm { options, selected, .. } => 0 <= selected <= options.len(),
            ModalView::Prompt { .. } => true,
            ModalView::HunkEditor(e) => e.wf(),
        }
    }
}

/// The first option from `i` on that can be chosen.
pub open spec fn enabled_from(options: Seq<OptionView>, i: int) -> Option<int>
    decreases options.len() - i,
{
    if i < 0 || i >= options.len() {
        None
    } else if options[i].enabled {
        Some(i)
    } else {
        enabled_from(options, i + 1)
    }
}

/// The last option before `i` that can be chosen.
pub open spec fn enabled_before(options: Seq<OptionView>, i: int) -> Option<int>
    decreases i,
{
    if i <= 0 || i > options.len() {
        None
    } else if options[i - 1].enabled {
        Some(i - 1)
    } else {
        enabled_before(options, i - 1)
    }
}

/// The first option from `i` on that can be chosen and has the shortcut `c`.
pub open spec fn hot_from(options: Seq<OptionView>, c: char, i: int) -> Option<int>
    decreases options.len() - i,
{
    if i < 0 || i >= options.len() {
        None
    } else if options[i].enabled && options[i].hot() == Some(c) {
        Some(i)
    } else {
        hot_from(options, c, i + 1)
    }
}

/// An optional index as an integer.
pub open spec fn at(i: Option<usize>) -> Option<int> {
    match i {
        Some(k) => Some(k as int),
        None => None,
    }
}

/// The first option from `from` on that can be chosen.
pub fn next_enabled(options: &Vec<ConfirmOption>, from: usize) -> (r: Option<usize>)
    ensures
        at(r) == enabled_from(option_views(options@), from as int),
        r matches Some(i) ==> from <= i < options@.len(),
{
    let ghost all = option_views(options@);
    let mut i: usize = from;
    while i < options.len()
        invariant
            from <= i,
            all == option_views(options@),
            enabled_from(all, from as int) == enabled_from(all, i as int),
        decreases options@.len() - i,
    {
        assert(all[i as int] == options@[i as int]@);
        if options[i].enabled {
            return Some(i);
        }
        i += 1;
    }
    None
}

/// The last option before `from` that can be chosen.
pub fn prev_enabled(options: &Vec<ConfirmOption>, from: usize) -> (r: Option<usize>)
    requires
        from <= options@.len(),
    ensures
        at(r) == enabled_before(option_views(options@), from as int),
        r matches Some(i) ==> i < from,
{
    let ghost all = option_views(options@);
    let mut i: usize = from;
    while i > 0
        invariant
            i <= from <= options@.len(),
            all == option_views(options@),
            enabled_before(all, from as int) == enabled_before(all, i as int),
        decreases i,
    {
        assert(all[i - 1] == options@[i - 1]@);
        if options[i - 1].enabled {
            return Some(i - 1);
        }
        i -= 1;
    }
    None
}

/// The first option that can be chosen and has the shortcut `c`.
pub fn find_shortcut(options: &Vec<ConfirmOption>, c: char) -> (r: Option<usize>)
    ensures
        at(r) == hot_from(option_views(options@), c, 0),
        r matches Some(i) ==> i < options@.len(),
{
    let ghost all = option_views(options@);
    let mut i: usize = 0;
    while i < options.len()
        invariant
            all == option_views(options@),
            hot_from(all, c, 0) == hot_from(all, c, i as int),
        decreases options@.len() - i,
    {
        assert(all[i as int] == options@[i as int]@);
        if options[i].enabled && options[i].shortcut() == Some(c) {
            return Some(i);
        }
        i += 1;
    }
    None
}

/// A choice with its first option that can be chosen highlighted.
pub open spec fn confirm(
    title: Seq<char>,
    body: Seq<LineView>,
    options: Seq<OptionView>,
    action: ActionView,
) -> ModalView {
    ModalView::Confirm {
        title,
        body,
        options,
        selected: match enabled_from(options, 0) {
            Some(i) => i,
            None => 0,
        },
        action,
    }
}

/// A prompt.
pub open spec fn prompt(title: Seq<char>, input: TextState, hint: Seq<char>, action: ActionView) -> ModalView {
    ModalView::Prompt { title, input, hint, action }
}

/// A choice with its first option that can be chosen highlighted.
pub fn new_confirm(
    title: &str,
    body: Vec<Line>,
    options: Vec<ConfirmOption>,
    action: ModalAction,
) -> (r: Modal)
    ensures
        r@ == confirm(title@, styled::line_views(body@), option_views(options@), action@),
        r@.wf(),
{
    let selected: usize = match next_enabled(&options, 0) {
        Some(i) => i,
        None => 0,
    };
    Modal::Confirm { title: title.to_string(), body, options, selected, action }
}

/// What a key does to a choice: the option highlighted then, and the outcome if
/// the key resolves it.
pub open spec fn confirm_key(options: Seq<OptionView>, selected: int, code: KeyCode) -> (
    int,
    Option<ResultView>,
) {
    if code is Up || code == KeyCode::Char('k') {
        (
            match enabled_before(options, selected) {
                Some(i) => i,
                None => selected,
            },
            None,
        )
    } else if code is Down || code == KeyCode::Char('j') || code is Tab {
        (
            match enabled_from(options, selected + 1) {
                Some(i) => i,
                None => if code is Tab {
                    match enabled_from(options, 0) {
                        Some(i) => i,
                        None => selected,
                    }
                } else {
                    selected
                },
            },
            None,
        )
    } else if code is Enter || code == KeyCode::Char('y') {
        (selected, Some(ResultView::Confirmed(selected)))
    } else if code is Esc || code == KeyCode::Char('q') || code == KeyCode::Char('n') {
        (selected, Some(ResultView::Cancelled))
    } else {
        match code {
            KeyCode::Char(c) => (
                selected,
                match hot_from(options, c, 0) {
                    Some(i) => Some(ResultView::Confirmed(i)),
                    None => None,
                },
            ),
            _ => (selected, None),
        }
    }
}

/// The view of an optional outcome.
pub open spec fn result_view(r: Option<ModalResult>) -> Option<ResultView> {
    match r {
        Some(v) => Some(v@),
        None => None,
    }
}

/// Handles a key on a choice: moves the highlight, or gives the outcome.
pub fn on_confirm_key(options: &Vec<ConfirmOption>, selected: &mut usize, code: KeyCode) -> (r:
    Option<ModalResult>)
    requires
        *old(selected) <= options@.len(),
    ensures
        (*final(selected) as int, result_view(r)) == confirm_key(
            option_views(options@),
            *old(selected) as int,
            code,
        ),
        *final(selected) <= options@.len(),
{
    match code {
        KeyCode::Up | KeyCode::Char('k') => {
            if let Some(i) = prev_enabled(options, *selected) {
                *selected = i;
            }
            None
        },
        KeyCode::Down | KeyCode::Char('j') | KeyCode::Tab => {
            let found = if *selected < options.len() {
                next_enabled(options, *selected + 1)
            } else {
                None
            };
            match found {
                Some(i) => *selected = i,
                None => {
                    if code == KeyCode::Tab {
                        if let Some(i) = next_enabled(options, 0) {
                            *selected = i;
                        }
                    }
                },
            }
            None
        },
        KeyCode::Enter | KeyCode::Char('y') => Some(ModalResult::Confirmed(*selected)),
        KeyCode::Esc | KeyCode::Char('q') | KeyCode::Char('n') => Some(ModalResult::Cancelled),
        KeyCode::Char(c) => match find_shortcut(options, c) {
            Some(i) => Some(ModalResult::Confirmed(i)),
            None => None,
        },
        _ => None,
    }
}

/// Moving the highlight only ever lands on options that can be chosen, or leaves
/// it where it was.
pub proof fn highlight_lands_on_enabled(options: Seq<OptionView>, selected: int, code: KeyCode)
    ensures
        confirm_key(options, selected, code).0 != selected ==> 0 <= confirm_key(
            options,
            selected,
            code,
        ).0 < options.len() && options[confirm_key(options, selected, code).0].enabled,
{
    enabled_from_shape(options, selected + 1);
    enabled_from_shape(options, 0);
    enabled_before_shape(options, selected);
}

proof fn enabled_from_shape(options: Seq<OptionView>, i: int)
    ensures
        enabled_from(options, i) matches Some(k) ==> i <= k < options.len() && 0 <= k
            && options[k].enabled,
    decreases options.len() - i,
{
    if 0 <= i < options.len() {
        enabled_from_shape(options, i + 1);
    }
}

proof fn enabled_before_shape(options: Seq<OptionView>, i: int)
    ensures
        enabled_before(options, i) matches Some(k) ==> 0 <= k < i && k < options.len()
            && options[k].enabled,
    decreases i,
{
    if 0 < i <= options.len() {
        enabled_before_shape(options, i - 1);
    }
}

/// One option as a list.
pub fn options1(a: ConfirmOption) -> (r: Vec<ConfirmOption>)
    ensures
        option_views(r@) == seq![a@],
{
    let r = vec![a];
    assert(option_views(r@) =~= seq![a@]);
    r
}

/// Two options as a list.
pub fn options2(a: ConfirmOption, b: ConfirmOption) -> (r: Vec<ConfirmOption>)
    ensures
        option_views(r@) == seq![a@, b@],
{
    let r = vec![a, b];
    assert(option_views(r@) =~= seq![a@, b@]);
    r
}

/// Three options as a list.
pub fn options3(a: ConfirmOption, b: ConfirmOption, c: ConfirmOption) -> (r: Vec<ConfirmOption>)
    ensures
        option_views(r@) == seq![a@, b@, c@],
{
    let r = vec![a, b, c];
    assert(option_views(r@) =~= seq![a@, b@, c@]);
    r
}

} // verus!

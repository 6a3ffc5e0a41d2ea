//! The conflict resolver: choosing a side for every conflict of every file, and
//! finishing or aborting the operation that left them.

use vstd::prelude::*;
use vstd::string::*;
use vstd::view::View as _;

use crate::app;
use crate::app::{App, AppView, ResolverFile, ResolverScreen, ResolverView, Screen, View};
use crate::dialogs;
use crate::input::{HunkEditor, HunkState, KeyCode, KeyEvent};
use crate::marks;
use crate::modal::{Modal, ModalView};
use crate::model::{ChoiceView, ConflictFile, ConflictSegment, ResolutionAction, ResolveKind};
use crate::request;
use crate::request::{Request, RequestView};
use crate::text;

verus! {

/// The two sides of each conflict among the first `n` pieces of a file.
pub open spec fn hunks_to(segments: Seq<ConflictSegment>, n: int) -> Seq<(Seq<char>, Seq<char>)>
    decreases n,
{
    if n <= 0 {
        Seq::empty()
    } else {
        match segments[n - 1] {
            ConflictSegment::Hunk { ours, theirs } => hunks_to(segments, n - 1).push(
                (ours@, theirs@),
            ),
            ConflictSegment::Text(_) => hunks_to(segments, n - 1),
        }
    }
}

/// The two sides of each conflict of a file.
pub open spec fn hunks(segments: Seq<ConflictSegment>) -> Seq<(Seq<char>, Seq<char>)> {
    hunks_to(segments, segments.len() as int)
}

/// Number of conflicts in a file.
pub fn count_hunks(segments: &Vec<ConflictSegment>) -> (r: usize)
    ensures
        r == hunks(segments@).len(),
{
    let mut n: usize = 0;
    for i in 0..segments.len()
        invariant
            n == hunks_to(segments@, i as int).len(),
            n <= i,
    {
        if let ConflictSegment::Hunk { .. } = &segments[i] {
            n += 1;
        }
    }
    n
}

/// The two sides of conflict `k`.
fn find_hunk(segments: &Vec<ConflictSegment>, k: usize) -> (r: Option<(String, String)>)
    ensures
        match r {
            Some((ours, theirs)) => k < hunks(segments@).len() && hunks(segments@)[k as int] == (
                ours@,
                theirs@,
            ),
            None => k >= hunks(segments@).len(),
        },
{
    let mut n: usize = 0;
    let mut i: usize = 0;
    while i < segments.len()
        invariant
            i <= segments@.len(),
            n == hunks_to(segments@, i as int).len(),
            n <= i,
            n <= k,
        decreases segments@.len() - i,
    {
        if let ConflictSegment::Hunk { ours, theirs } = &segments[i] {
            if n == k {
                proof {
                    hunks_grow(segments@, i + 1, segments@.len() as int);
                }
                return Some((ours.clone(), theirs.clone()));
            }
            n += 1;
        }
        i += 1;
    }
    None
}

/// A conflict keeps its number when more of the file is looked at.
proof fn hunks_grow(segments: Seq<ConflictSegment>, i: int, n: int)
    requires
        0 <= i <= n <= segments.len(),
    ensures
        hunks_to(segments, i).len() <= hunks_to(segments, n).len(),
        forall|k: int|
            0 <= k < hunks_to(segments, i).len() ==> hunks_to(segments, i)[k] == hunks_to(
                segments,
                n,
            )[k],
    decreases n,
{
    if i < n {
        hunks_grow(segments, i, n - 1);
    }
}

/// The text that the editor for a conflict starts with: what was chosen so far,
/// else both sides, so that nothing is lost.
pub open spec fn seed(choice: Option<ChoiceView>, ours: Seq<char>, theirs: Seq<char>) -> Seq<char> {
    match choice {
        Some(ChoiceView::KeepOurs) => ours,
        Some(ChoiceView::KeepTheirs) => theirs,
        Some(ChoiceView::KeepBothReversed) => theirs + ours,
        Some(ChoiceView::Manual(t)) => t,
        _ => ours + theirs,
    }
}

/// The next file after `i` that is not resolved, looking at `left` files and
/// going on at the start behind the last.
pub open spec fn unresolved_after(resolved: Seq<bool>, i: int, left: int) -> Option<int>
    decreases left,
{
    let j = if i + 1 < resolved.len() {
        i + 1
    } else {
        0
    };
    if left <= 0 {
        None
    } else if !resolved[j] {
        Some(j)
    } else {
        unresolved_after(resolved, j, left - 1)
    }
}

/// The next file after `file` that is not resolved, going on at the start behind
/// the last.
fn next_unresolved(resolved: &Vec<bool>, file: usize) -> (r: Option<usize>)
    requires
        resolved@.len() > 0 ==> file < resolved@.len(),
    ensures
        match r {
            Some(i) => i < resolved@.len() && unresolved_after(
                resolved@,
                file as int,
                resolved@.len() as int,
            ) == Some(i as int),
            None => unresolved_after(resolved@, file as int, resolved@.len() as int) is None,
        },
{
    let n: usize = resolved.len();
    let mut left: usize = n;
    let mut i: usize = file;
    while left > 0
        invariant
            n == resolved@.len(),
            left <= n,
            n > 0 ==> i < n,
            unresolved_after(resolved@, file as int, n as int) == unresolved_after(
                resolved@,
                i as int,
                left as int,
            ),
        decreases left,
    {
        i = if i + 1 < n {
            i + 1
        } else {
            0
        };
        if !resolved[i] {
            return Some(i);
        }
        left -= 1;
    }
    None
}

impl ResolverView {
    /// A file with nothing chosen yet; none when it has no conflicts.
    pub open spec fn fresh(file: ConflictFile) -> Option<ResolverView> {
        let n = hunks(file.segments@).len();
        if n > 0 {
            Some(ResolverView { file, actions: Seq::new(n, |i: int| None), hunk: 0 })
        } else {
            None
        }
    }

    /// With the cursor on the next conflict or the one before, in bounds.
    pub open spec fn stepped(self, forward: bool) -> ResolverView {
        let n = self.actions.len() as int;
        if n == 0 {
            self
        } else {
            ResolverView { hunk: clamp_step(self.hunk, n, forward), ..self }
        }
    }

    /// With a choice made for the conflict under the cursor.
    pub open spec fn chose(self, c: ChoiceView) -> ResolverView {
        if 0 <= self.hunk < self.actions.len() {
            ResolverView { actions: self.actions.update(self.hunk, Some(c)), ..self }
        } else {
            self
        }
    }

    /// Whether a choice was made for every conflict.
    pub open spec fn decided(self) -> bool {
        forall|i: int| 0 <= i < self.actions.len() ==> (#[trigger] self.actions[i]) is Some
    }

    /// The choices made, once there is one for every conflict.
    pub open spec fn choices(self) -> Seq<ChoiceView> {
        self.actions.map_values(|a: Option<ChoiceView>| a->0)
    }

    /// The text that the editor for the conflict under the cursor starts with.
    pub open spec fn seed(self) -> Option<Seq<char>> {
        let h = hunks(self.file.segments@);
        if 0 <= self.hunk < h.len() {
            Some(
                seed(
                    if self.hunk < self.actions.len() {
                        self.actions[self.hunk]
                    } else {
                        None
                    },
                    h[self.hunk].0,
                    h[self.hunk].1,
                ),
            )
        } else {
            None
        }
    }
}

/// The place one after or before `i` among `n`, in bounds.
pub open spec fn clamp_step(i: int, n: int, forward: bool) -> int {
    let j = if forward {
        i + 1
    } else {
        i - 1
    };
    if j < 0 {
        0
    } else if j > n - 1 {
        n - 1
    } else {
        j
    }
}

/// The place one after or before `i` among `n`, in bounds.
fn step_in(i: usize, n: usize, forward: bool) -> (r: usize)
    requires
        n > 0,
    ensures
        r == clamp_step(i as int, n as int, forward),
        r < n,
{
    if forward {
        if i < n - 1 {
            i + 1
        } else {
            n - 1
        }
    } else if i == 0 {
        0
    } else if i - 1 > n - 1 {
        n - 1
    } else {
        i - 1
    }
}

impl ResolverScreen {
    /// The path of the file under the cursor.
    pub open spec fn path(self) -> Option<Seq<char>> {
        if 0 <= self.file < self.files.len() {
            Some(self.files[self.file])
        } else {
            None
        }
    }

    /// The resolver as it opens.
    pub open spec fn opened(
        target: Seq<char>,
        source_label: Seq<char>,
        kind: ResolveKind,
        files: Seq<Seq<char>>,
    ) -> ResolverScreen {
        ResolverScreen {
            target,
            source_label,
            kind,
            files,
            resolved: marks::all_marks(files.len(), false),
            file: 0,
            current: None,
        }
    }

    /// With the file under the cursor resolved, and the cursor on the next file
    /// that is not.
    pub open spec fn advanced(self) -> ResolverScreen {
        let resolved = if 0 <= self.file < self.resolved.len() {
            self.resolved.update(self.file, true)
        } else {
            self.resolved
        };
        ResolverScreen {
            resolved,
            file: match unresolved_after(resolved, self.file, resolved.len() as int) {
                Some(i) => i,
                None => self.file,
            },
            ..self
        }
    }
}

impl AppView {
    /// With the resolver in another state.
    pub open spec fn resolving(self, r: ResolverScreen) -> AppView {
        AppView { view: Screen::ConflictResolver(r), ..self }
    }

    /// With the file under the resolver's cursor asked for. Nothing of another
    /// file is shown meanwhile.
    pub open spec fn load_conflict(self) -> AppView {
        match self.view {
            Screen::ConflictResolver(r) => match r.path() {
                Some(path) => self.resolving(ResolverScreen { current: None, ..r }).ask(
                    RequestView::ReadConflict { target: r.target, path },
                ),
                None => self,
            },
            _ => self,
        }
    }

    /// With the resolver opened.
    pub open spec fn open_resolver(
        self,
        target: Seq<char>,
        source_label: Seq<char>,
        kind: ResolveKind,
        files: Seq<Seq<char>>,
    ) -> AppView {
        self.resolving(ResolverScreen::opened(target, source_label, kind, files)).load_conflict()
    }

    /// With the stash entries of a worktree asked for.
    pub open spec fn load_stashes(self, name: Seq<char>) -> AppView {
        self.ask(RequestView::StashList { name })
    }

    /// With the stash entries asked for where a stash was popped.
    pub open spec fn after_pop(self, target: Seq<char>, kind: ResolveKind) -> AppView {
        if kind is StashPop {
            self.load_stashes(target)
        } else {
            self
        }
    }

    /// After the conflicts of an operation were listed: the resolver where there
    /// are any, the result of the operation where there are none.
    pub open spec fn conflicts_listed(
        self,
        target: Seq<char>,
        source_label: Seq<char>,
        kind: ResolveKind,
        msg: Seq<char>,
        result: Result<Seq<Seq<char>>, Seq<char>>,
    ) -> AppView {
        match result {
            Ok(files) => if files.len() > 0 {
                self.open_resolver(target, source_label, kind, files)
            } else {
                self.say(msg).after_pop(target, kind)
            },
            Err(e) => self.fail(e),
        }
    }

    /// After a file was read, if the resolver is on it. One that cannot be read
    /// shows nothing, like one without conflicts.
    pub open spec fn conflict_read(
        self,
        target: Seq<char>,
        path: Seq<char>,
        result: Option<ConflictFile>,
    ) -> AppView {
        match self.view {
            Screen::ConflictResolver(r) => if r.target == target && r.path() == Some(path) {
                self.resolving(
                    ResolverScreen {
                        current: match result {
                            Some(f) => ResolverView::fresh(f),
                            None => None,
                        },
                        ..r
                    },
                )
            } else {
                self
            },
            _ => self,
        }
    }

    /// With the resolver on the next file or the one before.
    pub open spec fn step_file(self, forward: bool) -> AppView {
        match self.view {
            Screen::ConflictResolver(r) => {
                let n = r.files.len() as int;
                if n == 0 || clamp_step(r.file, n, forward) == r.file {
                    self
                } else {
                    self.resolving(
                        ResolverScreen { file: clamp_step(r.file, n, forward), ..r },
                    ).load_conflict()
                }
            },
            _ => self,
        }
    }

    /// With what the resolver shows of its file replaced.
    pub open spec fn shows(self, f: ResolverView) -> AppView {
        match self.view {
            Screen::ConflictResolver(r) => self.resolving(
                ResolverScreen { current: Some(f), ..r },
            ),
            _ => self,
        }
    }

    /// The file that the resolver shows.
    pub open spec fn conflict(self) -> Option<ResolverView> {
        match self.view {
            Screen::ConflictResolver(r) => r.current,
            _ => None,
        }
    }

    /// With the cursor on the next conflict or the one before.
    pub open spec fn step_hunk(self, forward: bool) -> AppView {
        match self.conflict() {
            Some(f) => self.shows(f.stepped(forward)),
            None => self,
        }
    }

    /// With a choice made for the conflict under the cursor.
    pub open spec fn choose_side(self, c: ChoiceView) -> AppView {
        match self.conflict() {
            Some(f) => self.shows(f.chose(c)),
            None => self,
        }
    }

    /// With the editor opened for the conflict under the cursor.
    pub open spec fn edit_hunk(self) -> AppView {
        match self.conflict() {
            Some(f) => match f.seed() {
                Some(t) => self.show(ModalView::HunkEditor(HunkState::seeded(t))),
                None => self,
            },
            None => self,
        }
    }

    /// After a key in the editor: Ctrl+S keeps the text, Esc drops it.
    #[verifier::opaque]
    pub open spec fn editor_key(self, key: KeyEvent) -> AppView {
        match self.modal {
            Some(ModalView::HunkEditor(e)) => if key.control && key.code == KeyCode::Char('s') {
                AppView { modal: None, ..self }.choose_side(ChoiceView::Manual(e.text()))
            } else if key.code is Esc {
                AppView { modal: None, ..self }
            } else {
                self.show(ModalView::HunkEditor(e.after(key.code)))
            },
            _ => self,
        }
    }

    /// With the file under the cursor sent to be written and staged, once every
    /// conflict is decided.
    pub open spec fn stage_file(self) -> AppView {
        match self.view {
            Screen::ConflictResolver(r) => match r.current {
                Some(f) => if f.decided() {
                    self.ask(
                        RequestView::WriteResolution {
                            target: r.target,
                            path: r.files[r.file],
                            segments: f.file.segments@,
                            actions: f.choices(),
                        },
                    )
                } else {
                    self.say("pick a side for every hunk (o/t/b) before staging"@)
                },
                None => self.say("no conflicts to stage in this file"@),
            },
            _ => self.say("no conflicts to stage in this file"@),
        }
    }

    /// With the file under the cursor sent to be taken from one side.
    pub open spec fn take_side(self, ours: bool) -> AppView {
        match self.view {
            Screen::ConflictResolver(r) => match r.path() {
                Some(path) => self.ask(
                    RequestView::CheckoutSide { target: r.target, path, ours },
                ),
                None => self,
            },
            _ => self,
        }
    }

    /// With the file under the cursor resolved and the next one that is not
    /// asked for.
    pub open spec fn advance(self) -> AppView {
        match self.view {
            Screen::ConflictResolver(r) => self.resolving(r.advanced()).load_conflict(),
            _ => self,
        }
    }

    /// After a file was staged, or could not be.
    pub open spec fn staged(self, m: Seq<char>, result: Result<(), String>) -> AppView {
        match result {
            Ok(_) => self.say(m).advance(),
            Err(e) => self.fail(e@),
        }
    }

    /// After an operation was finished or aborted, or could not be.
    pub open spec fn settled(
        self,
        target: Seq<char>,
        kind: ResolveKind,
        result: Result<Seq<char>, Seq<char>>,
    ) -> AppView {
        match result {
            Ok(m) => self.rooted().refresh().say(m).after_pop(target, kind),
            Err(e) => self.fail(e),
        }
    }

    /// With the operation sent to be finished.
    pub open spec fn complete(self) -> AppView {
        match self.view {
            Screen::ConflictResolver(r) => self.ask(
                RequestView::CompleteResolution { target: r.target, kind: r.kind },
            ),
            _ => self,
        }
    }

    /// With the operation sent to be aborted.
    pub open spec fn abort(self) -> AppView {
        match self.view {
            Screen::ConflictResolver(r) => self.ask(
                RequestView::AbortResolution { target: r.target, kind: r.kind },
            ),
            _ => self,
        }
    }

    /// With the question before the operation is aborted.
    pub open spec fn ask_abort(self) -> AppView {
        match self.view {
            Screen::ConflictResolver(r) => self.show(dialogs::abort_question(r.target)),
            _ => self,
        }
    }

    /// After a key in the resolver. Leaving it keeps the operation in progress.
    #[verifier::opaque]
    pub open spec fn resolver_key(self, key: KeyEvent) -> AppView {
        match key.code {
            KeyCode::Esc => self.rooted().refresh(),
            KeyCode::Left => self.step_file(false),
            KeyCode::Right => self.step_file(true),
            KeyCode::Down => self.step_hunk(true),
            KeyCode::Up => self.step_hunk(false),
            KeyCode::Enter => self.stage_file(),
            KeyCode::Char(c) => if c == 'q' {
                self.rooted().refresh()
            } else if c == '[' || c == 'h' {
                self.step_file(false)
            } else if c == ']' || c == 'l' {
                self.step_file(true)
            } else if c == 'j' {
                self.step_hunk(true)
            } else if c == 'k' {
                self.step_hunk(false)
            } else if c == 'o' {
                self.choose_side(ChoiceView::KeepOurs)
            } else if c == 't' {
                self.choose_side(ChoiceView::KeepTheirs)
            } else if c == 'b' {
                self.choose_side(ChoiceView::KeepBoth)
            } else if c == 'B' {
                self.choose_side(ChoiceView::KeepBothReversed)
            } else if c == 'O' {
                self.take_side(true)
            } else if c == 'T' {
                self.take_side(false)
            } else if c == 'e' {
                self.edit_hunk()
            } else if c == 'w' {
                self.stage_file()
            } else if c == 'c' {
                self.complete()
            } else if c == 'x' {
                self.ask_abort()
            } else {
                self
            },
            _ => self,
        }
    }
}

/// `n` conflicts with no choice made.
fn undecided(n: usize) -> (r: Vec<Option<ResolutionAction>>)
    ensures
        r@ == Seq::new(n as nat, |i: int| None::<ResolutionAction>),
{
    let mut r: Vec<Option<ResolutionAction>> = Vec::new();
    for i in 0..n
        invariant
            r@ == Seq::new(i as nat, |k: int| None::<ResolutionAction>),
    {
        r.push(None);
        assert(r@ =~= Seq::new((i + 1) as nat, |k: int| None::<ResolutionAction>));
    }
    r
}

/// A copy of the pieces of a file.
fn copy_segments(v: &Vec<ConflictSegment>) -> (r: Vec<ConflictSegment>)
    ensures
        r@ == v@,
{
    let mut r: Vec<ConflictSegment> = Vec::new();
    for i in 0..v.len()
        invariant
            r@ == v@.take(i as int),
    {
        r.push(v[i].clone());
        assert(r@ =~= v@.take(i + 1));
    }
    assert(r@ =~= v@);
    r
}

/// The choices made, if there is one for every conflict.
fn all_choices(f: &ResolverFile) -> (r: Option<Vec<ResolutionAction>>)
    ensures
        match r {
            Some(v) => f@.decided() && request::choice_views(v@) == f@.choices(),
            None => !f@.decided(),
        },
{
    let mut r: Vec<ResolutionAction> = Vec::new();
    let ghost all = f@.actions;
    for i in 0..f.actions.len()
        invariant
            all == f@.actions,
            all.len() == f.actions@.len(),
            forall|k: int| 0 <= k < i ==> (#[trigger] all[k]) is Some,
            request::choice_views(r@) == f@.choices().take(i as int),
    {
        assert(all[i as int] == app::choice_view(f.actions@[i as int]));
        match &f.actions[i] {
            Some(a) => {
                let ghost r0 = r@;
                r.push(a.clone());
                assert(request::choice_views(r@) =~= request::choice_views(r0).push(a@));
                assert(request::choice_views(r@) =~= f@.choices().take(i + 1));
            },
            None => {
                return None;
            },
        }
    }
    assert(request::choice_views(r@) =~= f@.choices());
    Some(r)
}

impl App {
    /// Asks for the file under the resolver's cursor.
    pub fn load_resolver_file(&mut self)
        requires
            old(self).wf(),
        ensures
            final(self)@ == old(self)@.load_conflict(),
            final(self).wf(),
    {
        let mut asked: Option<Request> = None;
        if let View::ConflictResolver { target, files, file, current, .. } = &mut self.view {
            if *file < files.len() {
                *current = None;
                let t = target.clone();
                let path = files[*file].clone();
                asked = Some(Request::ReadConflict { target: t, path });
            }
        }
        if let Some(r) = asked {
            self.ask(r);
        }
    }

    /// Opens the resolver on files with conflicts.
    pub fn open_resolver(
        &mut self,
        target: String,
        source_label: String,
        kind: ResolveKind,
        files: Vec<String>,
    )
        requires
            old(self).wf(),
        ensures
            final(self)@ == old(self)@.open_resolver(
                target@,
                source_label@,
                kind,
                text::views(files@),
            ),
            final(self).wf(),
    {
        let resolved = marks::marks(files.len(), false);
        self.view = View::ConflictResolver {
            target,
            source_label,
            kind,
            files,
            resolved,
            file: 0,
            current: None,
        };
        self.load_resolver_file();
    }

    /// Asks for the stash entries of a worktree.
    pub fn reload_stash_tab(&mut self, name: String)
        ensures
            final(self)@ == old(self)@.load_stashes(name@),
    {
        self.ask(Request::StashList { name });
    }

    /// Asks for the stash entries where a stash was popped.
    fn after_pop(&mut self, target: String, kind: ResolveKind)
        ensures
            final(self)@ == old(self)@.after_pop(target@, kind),
    {
        if let ResolveKind::StashPop { .. } = kind {
            self.reload_stash_tab(target);
        }
    }

    /// Takes the conflicts that a `Request::ListConflicts` asked for.
    pub fn on_conflicts(
        &mut self,
        target: String,
        source_label: String,
        kind: ResolveKind,
        msg: String,
        result: Result<Vec<String>, String>,
    )
        requires
            old(self).wf(),
        ensures
            final(self)@ == old(self)@.conflicts_listed(
                target@,
                source_label@,
                kind,
                msg@,
                match result {
                    Ok(v) => Ok(text::views(v@)),
                    Err(e) => Err(e@),
                },
            ),
            final(self).wf(),
    {
        match result {
            Ok(files) => {
                assert(text::views(files@).len() == files@.len());
                if files.len() > 0 {
                    self.open_resolver(target, source_label, kind, files);
                } else {
                    self.say(msg);
                    self.after_pop(target, kind);
                }
            },
            Err(e) => self.set_error(e),
        }
    }

    /// Takes the file that a `Request::ReadConflict` asked for; none when it
    /// could not be read.
    pub fn on_conflict_read(&mut self, target: String, path: String, result: Option<ConflictFile>)
        requires
            old(self).wf(),
        ensures
            final(self)@ == old(self)@.conflict_read(target@, path@, result),
            final(self).wf(),
    {
        let loaded = match result {
            Some(f) => {
                let n: usize = count_hunks(&f.segments);
                if n > 0 {
                    let r = ResolverFile { file: f, actions: undecided(n), hunk: 0 };
                    assert(r@.actions =~= ResolverView::fresh(f)->0.actions);
                    Some(r)
                } else {
                    None
                }
            },
            None => None,
        };
        if let View::ConflictResolver { target: t, files, file, current, .. } = &mut self.view {
            if *file < files.len() && text::same(t.as_str(), target.as_str()) && text::same(
                files[*file].as_str(),
                path.as_str(),
            ) {
                *current = loaded;
            }
        }
    }

    /// Moves the resolver to the next file or the one before.
    pub fn resolver_move_file(&mut self, forward: bool)
        requires
            old(self).wf(),
        ensures
            final(self)@ == old(self)@.step_file(forward),
            final(self).wf(),
    {
        let mut moved = false;
        if let View::ConflictResolver { files, file, .. } = &mut self.view {
            let n: usize = files.len();
            if n > 0 {
                let to: usize = step_in(*file, n, forward);
                moved = to != *file;
                *file = to;
            }
        }
        if moved {
            self.load_resolver_file();
        }
    }

    /// Moves the cursor to the next conflict or the one before.
    pub fn resolver_move_hunk(&mut self, forward: bool)
        requires
            old(self).wf(),
        ensures
            final(self)@ == old(self)@.step_hunk(forward),
            final(self).wf(),
    {
        if let View::ConflictResolver { current, .. } = &mut self.view {
            if let Some(f) = current {
                let n: usize = f.actions.len();
                if n > 0 {
                    f.hunk = step_in(f.hunk, n, forward);
                }
            }
        }
    }

    /// Chooses how the conflict under the cursor is resolved.
    pub fn resolver_set_action(&mut self, action: ResolutionAction)
        requires
            old(self).wf(),
        ensures
            final(self)@ == old(self)@.choose_side(action@),
            final(self).wf(),
    {
        if let View::ConflictResolver { current, .. } = &mut self.view {
            if let Some(f) = current {
                if f.hunk < f.actions.len() {
                    let ghost before = f@;
                    let at: usize = f.hunk;
                    f.actions[at] = Some(action);
                    assert(f@.actions =~= before.chose(action@).actions);
                }
            }
        }
    }

    /// Opens the editor for the conflict under the cursor.
    pub fn resolver_edit_hunk(&mut self)
        requires
            old(self).wf(),
        ensures
            final(self)@ == old(self)@.edit_hunk(),
            final(self).wf(),
    {
        let mut seed_text: Option<String> = None;
        if let View::ConflictResolver { current, .. } = &self.view {
            if let Some(f) = current {
                if let Some((ours, theirs)) = find_hunk(&f.file.segments, f.hunk) {
                    let t = if f.hunk < f.actions.len() {
                        assert(f@.actions[f.hunk as int] == app::choice_view(
                            f.actions@[f.hunk as int],
                        ));
                        match &f.actions[f.hunk] {
                            Some(ResolutionAction::KeepOurs) => ours,
                            Some(ResolutionAction::KeepTheirs) => theirs,
                            Some(ResolutionAction::KeepBothReversed) => text::cat2(
                                theirs.as_str(),
                                ours.as_str(),
                            ),
                            Some(ResolutionAction::Manual(t)) => t.clone(),
                            _ => text::cat2(ours.as_str(), theirs.as_str()),
                        }
                    } else {
                        text::cat2(ours.as_str(), theirs.as_str())
                    };
                    assert(f@.seed() == Some(t@));
                    seed_text = Some(t);
                }
            }
        }
        if let Some(t) = seed_text {
            self.modal = Some(Modal::HunkEditor(HunkEditor::new(t.as_str())));
        }
    }

    /// Keeps the edited text as the resolution of the conflict under the cursor
    /// and closes the editor.
    fn resolver_save_manual_edit(&mut self)
        requires
            old(self).wf(),
        ensures
            final(self)@ == match old(self)@.modal {
                Some(ModalView::HunkEditor(e)) => AppView {
                    modal: None,
                    ..old(self)@
                }.choose_side(ChoiceView::Manual(e.text())),
                _ => old(self)@,
            },
            final(self).wf(),
    {
        let t = match &self.modal {
            Some(Modal::HunkEditor(e)) => e.text(),
            _ => {
                return;
            },
        };
        self.modal = None;
        self.resolver_set_action(ResolutionAction::Manual(t));
    }

    /// Handles a key in the editor for a conflict.
    pub fn on_hunk_editor_key(&mut self, key: KeyEvent)
        requires
            old(self).wf(),
        ensures
            final(self)@ == old(self)@.editor_key(key),
            final(self).wf(),
    {
        proof {
            reveal(AppView::editor_key);
        }
        if !matches!(self.modal, Some(Modal::HunkEditor(_))) {
            return;
        }
        if key.control && key.code == KeyCode::Char('s') {
            self.resolver_save_manual_edit();
            return;
        }
        if key.code == KeyCode::Esc {
            self.modal = None;
            return;
        }
        if let Some(Modal::HunkEditor(e)) = &mut self.modal {
            e.on_key(key);
        }
    }

    /// Asks for the file under the cursor to be written and staged. Refuses
    /// until every conflict is decided.
    pub fn resolver_write_file(&mut self)
        requires
            old(self).wf(),
        ensures
            final(self)@ == old(self)@.stage_file(),
            final(self).wf(),
    {
        let mut asked: Option<Request> = None;
        let mut shown = false;
        if let View::ConflictResolver { target, files, file, current, .. } = &self.view {
            if let Some(f) = current {
                shown = true;
                if let Some(actions) = all_choices(f) {
                    assert(text::views(files@).len() == files@.len());
                    asked = Some(
                        Request::WriteResolution {
                            target: target.clone(),
                            path: files[*file].clone(),
                            segments: copy_segments(&f.file.segments),
                            actions,
                        },
                    );
                }
            }
        }
        match asked {
            Some(r) => self.ask(r),
            None => if shown {
                self.say("pick a side for every hunk (o/t/b) before staging".to_string());
            } else {
                self.say("no conflicts to stage in this file".to_string());
            },
        }
    }

    /// Asks for the file under the cursor to be taken from one side and staged.
    pub fn resolver_whole_file(&mut self, ours: bool)
        requires
            old(self).wf(),
        ensures
            final(self)@ == old(self)@.take_side(ours),
            final(self).wf(),
    {
        if let View::ConflictResolver { target, files, file, .. } = &self.view {
            if *file < files.len() {
                let target = target.clone();
                let path = files[*file].clone();
                self.ask(Request::CheckoutSide { target, path, ours });
            }
        }
    }

    /// Marks the file under the cursor resolved, moves on to the next one that
    /// is not, and asks for it.
    fn resolver_mark_resolved_and_advance(&mut self)
        requires
            old(self).wf(),
        ensures
            final(self)@ == old(self)@.advance(),
            final(self).wf(),
    {
        if let View::ConflictResolver { resolved, file, .. } = &mut self.view {
            if *file < resolved.len() {
                resolved[*file] = true;
            }
            if let Some(i) = next_unresolved(resolved, *file) {
                *file = i;
            }
        }
        self.load_resolver_file();
    }

    /// Takes the result of a `Request::WriteResolution`.
    pub fn on_resolution_written(&mut self, path: String, result: Result<(), String>)
        requires
            old(self).wf(),
        ensures
            final(self)@ == old(self)@.staged("staged "@ + request::quoted(path@), result),
            final(self).wf(),
    {
        match result {
            Ok(_) => {
                let m = text::cat2("staged ", request::quote(path.as_str()).as_str());
                self.say(m);
                self.resolver_mark_resolved_and_advance();
            },
            Err(e) => self.set_error(e),
        }
    }

    /// Takes the result of a `Request::CheckoutSide`.
    pub fn on_side_taken(&mut self, path: String, ours: bool, result: Result<(), String>)
        requires
            old(self).wf(),
        ensures
            final(self)@ == old(self)@.staged(
                "took "@ + (if ours {
                    "ours"@
                } else {
                    "theirs"@
                }) + " for "@ + request::quoted(path@),
                result,
            ),
            final(self).wf(),
    {
        match result {
            Ok(_) => {
                let side = if ours {
                    "ours"
                } else {
                    "theirs"
                };
                let q = request::quote(path.as_str());
                let m = text::cat4("took ", side, " for ", q.as_str());
                self.say(m);
                self.resolver_mark_resolved_and_advance();
            },
            Err(e) => self.set_error(e),
        }
    }

    /// Asks for the operation that left conflicts to be finished.
    pub fn resolver_complete(&mut self)
        requires
            old(self).wf(),
        ensures
            final(self)@ == old(self)@.complete(),
            final(self).wf(),
    {
        if let View::ConflictResolver { target, kind, .. } = &self.view {
            let target = target.clone();
            let kind = *kind;
            self.ask(Request::CompleteResolution { target, kind });
        }
    }

    /// Asks for the operation that left conflicts to be aborted.
    pub fn abort_resolver(&mut self)
        requires
            old(self).wf(),
        ensures
            final(self)@ == old(self)@.abort(),
            final(self).wf(),
    {
        if let View::ConflictResolver { target, kind, .. } = &self.view {
            let target = target.clone();
            let kind = *kind;
            self.ask(Request::AbortResolution { target, kind });
        }
    }

    /// Back on the tabs after an operation was finished or aborted.
    fn settle(&mut self, target: String, kind: ResolveKind, result: Result<String, String>)
        requires
            old(self).wf(),
        ensures
            final(self)@ == old(self)@.settled(
                target@,
                kind,
                match result {
                    Ok(m) => Ok(m@),
                    Err(e) => Err(e@),
                },
            ),
            final(self).wf(),
    {
        match result {
            Ok(m) => {
                self.go_root();
                self.refresh();
                self.say(m);
                self.after_pop(target, kind);
            },
            Err(e) => self.set_error(e),
        }
    }

    /// Takes the result of a `Request::CompleteResolution`: the worktree, and
    /// the commit that was made, if one was.
    pub fn on_resolution_completed(
        &mut self,
        target: String,
        kind: ResolveKind,
        result: Result<(String, Option<String>), String>,
    )
        requires
            old(self).wf(),
        ensures
            final(self)@ == old(self)@.settled(
                target@,
                kind,
                match result {
                    Ok((done, commit)) => Ok(
                        "resolved "@ + request::quoted(done@) + (match commit {
                            Some(c) => " ("@ + c@ + ")"@,
                            None => ""@,
                        }),
                    ),
                    Err(e) => Err(e@),
                },
            ),
            final(self).wf(),
    {
        let said = match result {
            Ok((done, commit)) => {
                let q = request::quote(done.as_str());
                let tail = match commit {
                    Some(c) => text::cat3(" (", c.as_str(), ")"),
                    None => "".to_string(),
                };
                Ok(text::cat3("resolved ", q.as_str(), tail.as_str()))
            },
            Err(e) => Err(e),
        };
        self.settle(target, kind, said);
    }

    /// Takes the result of a `Request::AbortResolution`.
    pub fn on_resolution_aborted(
        &mut self,
        target: String,
        kind: ResolveKind,
        result: Result<(), String>,
    )
        requires
            old(self).wf(),
        ensures
            final(self)@ == old(self)@.settled(
                target@,
                kind,
                match result {
                    Ok(_) => Ok("aborted resolution in "@ + request::quoted(target@)),
                    Err(e) => Err(e@),
                },
            ),
            final(self).wf(),
    {
        let said = match result {
            Ok(_) => {
                let q = request::quote(target.as_str());
                Ok(text::cat2("aborted resolution in ", q.as_str()))
            },
            Err(e) => Err(e),
        };
        self.settle(target, kind, said);
    }

    /// Asks before the operation is aborted.
    fn ask_abort(&mut self)
        requires
            old(self).wf(),
        ensures
            final(self)@ == old(self)@.ask_abort(),
            final(self).wf(),
    {
        if let View::ConflictResolver { target, .. } = &self.view {
            let target = target.clone();
            self.open_resolver_abort_modal(target);
        }
    }

    /// Leaves the resolver; the operation stays in progress.
    fn leave_resolver(&mut self)
        requires
            old(self).wf(),
        ensures
            final(self)@ == old(self)@.rooted().refresh(),
            final(self).wf(),
    {
        self.go_root();
        self.refresh();
    }

    /// Handles a key in the resolver.
    pub fn on_resolver_key(&mut self, key: KeyEvent)
        requires
            old(self).wf(),
        ensures
            final(self)@ == old(self)@.resolver_key(key),
            final(self).wf(),
    {
        proof {
            reveal(AppView::resolver_key);
        }
        match key.code {
            KeyCode::Esc | KeyCode::Char('q') => self.leave_resolver(),
            KeyCode::Left | KeyCode::Char('[') | KeyCode::Char('h') => {
                self.resolver_move_file(false)
            },
            KeyCode::Right | KeyCode::Char(']') | KeyCode::Char('l') => {
                self.resolver_move_file(true)
            },
            KeyCode::Down | KeyCode::Char('j') => self.resolver_move_hunk(true),
            KeyCode::Up | KeyCode::Char('k') => self.resolver_move_hunk(false),
            KeyCode::Char('o') => self.resolver_set_action(ResolutionAction::KeepOurs),
            KeyCode::Char('t') => self.resolver_set_action(ResolutionAction::KeepTheirs),
            KeyCode::Char('b') => self.resolver_set_action(ResolutionAction::KeepBoth),
            KeyCode::Char('B') => self.resolver_set_action(ResolutionAction::KeepBothReversed),
            KeyCode::Char('O') => self.resolver_whole_file(true),
            KeyCode::Char('T') => self.resolver_whole_file(false),
            KeyCode::Char('e') => self.resolver_edit_hunk(),
            KeyCode::Char('w') | KeyCode::Enter => self.resolver_write_file(),
            KeyCode::Char('c') => self.resolver_complete(),
            KeyCode::Char('x') => self.ask_abort(),
            _ => {},
        }
    }
}

/// Nothing is sent to be staged before every conflict of the file is decided;
/// then exactly the choices made are sent, and once.
pub proof fn staging_needs_every_choice(a: AppView)
    ensures
        a.stage_file().out != a.out ==> match a.conflict() {
            Some(f) => f.decided() && match a.view {
                Screen::ConflictResolver(r) => a.stage_file().out == a.out.push(
                    RequestView::WriteResolution {
                        target: r.target,
                        path: r.files[r.file],
                        segments: f.file.segments@,
                        actions: f.choices(),
                    },
                ),
                _ => false,
            },
            None => false,
        },
{
}

/// Choosing for one conflict leaves the choices for the others as they were.
pub proof fn choice_is_local(f: ResolverView, c: ChoiceView, i: int)
    requires
        0 <= i < f.actions.len(),
        i != f.hunk,
    ensures
        f.chose(c).actions[i] == f.actions[i],
        f.chose(c).actions.len() == f.actions.len(),
{
}

/// The later choice for a conflict is the one that counts.
pub proof fn last_choice_counts(f: ResolverView, c: ChoiceView, d: ChoiceView)
    ensures
        f.chose(c).chose(d) == f.chose(d),
{
    assert(f.chose(c).chose(d).actions =~= f.chose(d).actions);
}

/// A conflict edited without a change, with nothing chosen, is resolved by both
/// sides, ours first.
pub proof fn unedited_keeps_both(f: ResolverView)
    requires
        0 <= f.hunk < f.actions.len(),
        f.hunk < hunks(f.file.segments@).len(),
        f.actions[f.hunk] is None,
    ensures
        f.seed() matches Some(t) && HunkState::seeded(t).text() == hunks(
            f.file.segments@,
        )[f.hunk].0 + hunks(f.file.segments@)[f.hunk].1,
{
    crate::input::seed_round_trip(f.seed()->0);
}

/// The place `k` files after `i` among `n`, going on at the start behind the
/// last.
spec fn around(i: int, k: int, n: int) -> int {
    if i + k < n {
        i + k
    } else {
        i + k - n
    }
}

proof fn all_passed(resolved: Seq<bool>, i: int, left: int)
    requires
        0 <= i < resolved.len(),
        0 <= left <= resolved.len(),
    ensures
        match unresolved_after(resolved, i, left) {
            Some(j) => 0 <= j < resolved.len() && !resolved[j],
            None => forall|k: int|
                1 <= k <= left ==> resolved[#[trigger] around(i, k, resolved.len() as int)],
        },
    decreases left,
{
    let n = resolved.len() as int;
    if left > 0 {
        let j = if i + 1 < n {
            i + 1
        } else {
            0
        };
        all_passed(resolved, j, left - 1);
        if unresolved_after(resolved, i, left) is None {
            assert forall|k: int| 1 <= k <= left implies resolved[#[trigger] around(i, k, n)] by {
                if k == 1 {
                    assert(around(i, k, n) == j);
                } else {
                    assert(around(i, k, n) == around(j, k - 1, n));
                }
            }
        }
    }
}

/// As long as a file is not resolved, moving on ends on one that is not.
pub proof fn moving_on_finds_unresolved(r: ResolverScreen, i: int)
    requires
        Screen::ConflictResolver(r).wf(),
        0 <= i < r.resolved.len(),
        !r.advanced().resolved[i],
    ensures
        !r.advanced().resolved[r.advanced().file],
{
    let n = r.resolved.len() as int;
    let after = r.advanced().resolved;
    all_passed(after, r.file, n);
    if unresolved_after(after, r.file, n) is None {
        let k = if i > r.file {
            i - r.file
        } else {
            i - r.file + n
        };
        assert(around(r.file, k, n) == i);
    }
}

} // verus!

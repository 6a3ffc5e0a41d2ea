//! What the conflict resolver asks for, and which choice each of its keys makes.

use vstd::prelude::*;
use vstd::string::*;
use vstd::view::View as _;

use crate::app::{AppView, ResolverScreen, ResolverView, Screen};
use crate::input::{HunkState, KeyCode, KeyEvent};
use crate::key_laws;
use crate::modal::{ActionView, ModalView};
use crate::model::{ChoiceView, ConflictFile, ConflictSegment, ResolveKind};
use crate::request::{ListThenView, RequestView};
use crate::resolver;

verus! {

/// Whether a key reaches the resolver.
pub open spec fn on_resolver(a: AppView, key: KeyEvent, r: ResolverScreen) -> bool {
    key_laws::reaches(a, key) && a.view == Screen::ConflictResolver(r)
}

/// A key in the resolver, other than those that ask for help, is for the resolver;
/// it takes the status line away first.
pub proof fn keys_go_to_the_resolver(a: AppView, r: ResolverScreen, key: KeyEvent)
    requires
        on_resolver(a, key, r),
        key.code != KeyCode::F(1),
        key.code != KeyCode::Char('?'),
    ensures
        a.press(key) == (AppView { message: None, ..a }).resolver_key(key),
{
    reveal(AppView::screen_key);
}

/// `O` takes the whole file under the cursor from our side, and `T` from theirs:
/// the two keys ask for opposite sides of the same file.
pub proof fn whole_file_keys_take_their_side(a: AppView, r: ResolverScreen, key: KeyEvent)
    requires
        on_resolver(a, key, r),
        0 <= r.file < r.files.len(),
    ensures
        key.code == KeyCode::Char('O') ==> a.press(key) == (AppView {
            message: None,
            out: a.out.push(
                RequestView::CheckoutSide {
                    target: r.target,
                    path: r.files[r.file],
                    ours: true,
                },
            ),
            ..a
        }),
        key.code == KeyCode::Char('T') ==> a.press(key) == (AppView {
            message: None,
            out: a.out.push(
                RequestView::CheckoutSide {
                    target: r.target,
                    path: r.files[r.file],
                    ours: false,
                },
            ),
            ..a
        }),
{
    if key.code != KeyCode::F(1) && key.code != KeyCode::Char('?') {
        keys_go_to_the_resolver(a, r, key);
    }
    reveal(AppView::resolver_key);
}

/// For the conflict under the cursor `o` keeps our side, `t` theirs, `b` ours and
/// then theirs, and `B` theirs and then ours. No other conflict is touched, and
/// nothing is written yet.
pub proof fn side_keys_choose_their_side(
    a: AppView,
    r: ResolverScreen,
    f: ResolverView,
    key: KeyEvent,
)
    requires
        on_resolver(a, key, r),
        r.current == Some(f),
        0 <= f.hunk < f.actions.len(),
    ensures
        key.code == KeyCode::Char('o') ==> a.press(key).view == Screen::ConflictResolver(
            ResolverScreen {
                current: Some(
                    ResolverView {
                        actions: f.actions.update(f.hunk, Some(ChoiceView::KeepOurs)),
                        ..f
                    },
                ),
                ..r
            },
        ),
        key.code == KeyCode::Char('t') ==> a.press(key).view == Screen::ConflictResolver(
            ResolverScreen {
                current: Some(
                    ResolverView {
                        actions: f.actions.update(f.hunk, Some(ChoiceView::KeepTheirs)),
                        ..f
                    },
                ),
                ..r
            },
        ),
        key.code == KeyCode::Char('b') ==> a.press(key).view == Screen::ConflictResolver(
            ResolverScreen {
                current: Some(
                    ResolverView {
                        actions: f.actions.update(f.hunk, Some(ChoiceView::KeepBoth)),
                        ..f
                    },
                ),
                ..r
            },
        ),
        key.code == KeyCode::Char('B') ==> a.press(key).view == Screen::ConflictResolver(
            ResolverScreen {
                current: Some(
                    ResolverView {
                        actions: f.actions.update(f.hunk, Some(ChoiceView::KeepBothReversed)),
                        ..f
                    },
                ),
                ..r
            },
        ),
        key.code == KeyCode::Char('o') || key.code == KeyCode::Char('t') || key.code
            == KeyCode::Char('b') || key.code == KeyCode::Char('B') ==> a.press(key).out == a.out,
{
    if key.code != KeyCode::F(1) && key.code != KeyCode::Char('?') {
        keys_go_to_the_resolver(a, r, key);
    }
    reveal(AppView::resolver_key);
}

/// `w` and Enter send the file under the cursor to be written with the choice for
/// each conflict in its place, once there is one for every conflict.
pub proof fn w_writes_the_choices(
    a: AppView,
    r: ResolverScreen,
    f: ResolverView,
    choices: Seq<ChoiceView>,
    key: KeyEvent,
)
    requires
        on_resolver(a, key, r),
        r.current == Some(f),
        choices.len() == f.actions.len(),
        forall|i: int| 0 <= i < choices.len() ==> #[trigger] f.actions[i] == Some(choices[i]),
        key.code == KeyCode::Char('w') || key.code is Enter,
    ensures
        a.press(key) == (AppView {
            message: None,
            out: a.out.push(
                RequestView::WriteResolution {
                    target: r.target,
                    path: r.files[r.file],
                    segments: f.file.segments@,
                    actions: choices,
                },
            ),
            ..a
        }),
{
    if key.code != KeyCode::F(1) && key.code != KeyCode::Char('?') {
        keys_go_to_the_resolver(a, r, key);
    }
    reveal(AppView::resolver_key);
    assert(f.choices() =~= choices);
}

/// A file with a conflict that nothing was chosen for is not written.
pub proof fn w_waits_for_every_choice(
    a: AppView,
    r: ResolverScreen,
    f: ResolverView,
    i: int,
    key: KeyEvent,
)
    requires
        on_resolver(a, key, r),
        r.current == Some(f),
        0 <= i < f.actions.len(),
        f.actions[i] is None,
        key.code == KeyCode::Char('w') || key.code is Enter,
    ensures
        a.press(key).out == a.out,
        a.press(key).view == a.view,
        a.press(key).message is Some,
{
    if key.code != KeyCode::F(1) && key.code != KeyCode::Char('?') {
        keys_go_to_the_resolver(a, r, key);
    }
    reveal(AppView::resolver_key);
}

/// `c` asks for the operation to be finished, and `x` asks first and only then
/// for it to be aborted, both of the worktree and the kind of operation that left
/// the conflicts.
pub proof fn finishing_and_aborting(
    a: AppView,
    r: ResolverScreen,
    key: KeyEvent,
    yes: KeyEvent,
)
    requires
        on_resolver(a, key, r),
        yes.code is Enter,
    ensures
        key.code == KeyCode::Char('c') ==> a.press(key).out == a.out.push(
            RequestView::CompleteResolution { target: r.target, kind: r.kind },
        ),
        key.code == KeyCode::Char('x') ==> a.press(key).out == a.out && a.press(key).modal is Some
            && a.press(key).view == a.view,
        key.code == KeyCode::Char('x') ==> a.press(key).press(yes).out == a.out.push(
            RequestView::AbortResolution { target: r.target, kind: r.kind },
        ),
{
    if key.code != KeyCode::F(1) && key.code != KeyCode::Char('?') {
        keys_go_to_the_resolver(a, r, key);
    }
    reveal(AppView::resolver_key);
    reveal(AppView::modal_key);
    reveal(AppView::answered);
}

/// Esc and `q` leave the resolver for the tabs with the operation in progress:
/// nothing but the list of worktrees is asked for.
pub proof fn leaving_keeps_the_operation(a: AppView, r: ResolverScreen, key: KeyEvent)
    requires
        on_resolver(a, key, r),
        key.code is Esc || key.code == KeyCode::Char('q'),
    ensures
        a.press(key).view is List,
        a.press(key).stack.len() == 0,
        a.press(key).out == a.out.push(
            RequestView::ListWorktrees { then: ListThenView::Refresh },
        ),
{
    if key.code != KeyCode::F(1) && key.code != KeyCode::Char('?') {
        keys_go_to_the_resolver(a, r, key);
    }
    reveal(AppView::resolver_key);
}

/// Ctrl+S in the editor makes its text the choice for the conflict under the
/// cursor; Esc leaves the choice as it was. Both close the editor.
pub proof fn ctrl_s_keeps_the_text(
    a: AppView,
    r: ResolverScreen,
    f: ResolverView,
    e: HunkState,
    key: KeyEvent,
)
    requires
        a.error is None,
        !a.show_help,
        a.modal == Some(ModalView::HunkEditor(e)),
        a.view == Screen::ConflictResolver(r),
        r.current == Some(f),
        0 <= f.hunk < f.actions.len(),
    ensures
        key.control && key.code == KeyCode::Char('s') ==> a.press(key) == (AppView {
            message: None,
            modal: None,
            view: Screen::ConflictResolver(
                ResolverScreen {
                    current: Some(
                        ResolverView {
                            actions: f.actions.update(
                                f.hunk,
                                Some(ChoiceView::Manual(e.text())),
                            ),
                            ..f
                        },
                    ),
                    ..r
                },
            ),
            ..a
        }),
        key.code is Esc ==> a.press(key) == (AppView { message: None, modal: None, ..a }),
{
    reveal(AppView::modal_key);
    reveal(AppView::editor_key);
}

/// `e` opens the editor on what the choice for the conflict so far keeps: one
/// side, both in the order chosen, or the text that was typed; without a choice
/// both sides, ours first.
pub proof fn e_edits_what_is_kept(
    a: AppView,
    r: ResolverScreen,
    f: ResolverView,
    ours: Seq<char>,
    theirs: Seq<char>,
    key: KeyEvent,
)
    requires
        on_resolver(a, key, r),
        r.current == Some(f),
        0 <= f.hunk < f.actions.len(),
        f.hunk < resolver::hunks(f.file.segments@).len(),
        resolver::hunks(f.file.segments@)[f.hunk] == (ours, theirs),
        key.code == KeyCode::Char('e'),
    ensures
        a.press(key).out == a.out,
        a.press(key).modal == Some(
            ModalView::HunkEditor(
                HunkState::seeded(
                    match f.actions[f.hunk] {
                        Some(ChoiceView::KeepOurs) => ours,
                        Some(ChoiceView::KeepTheirs) => theirs,
                        Some(ChoiceView::KeepBoth) => ours + theirs,
                        Some(ChoiceView::KeepBothReversed) => theirs + ours,
                        Some(ChoiceView::Manual(t)) => t,
                        None => ours + theirs,
                    },
                ),
            ),
        ),
{
    if key.code != KeyCode::F(1) && key.code != KeyCode::Char('?') {
        keys_go_to_the_resolver(a, r, key);
    }
    reveal(AppView::resolver_key);
}

/// The conflicts of a file are its conflicting pieces in their order, each with
/// our side first.
pub proof fn conflicts_in_order(
    segments: Seq<ConflictSegment>,
    ours: String,
    theirs: String,
    t: String,
)
    ensures
        resolver::hunks(Seq::empty()).len() == 0,
        resolver::hunks(segments.push(ConflictSegment::Hunk { ours, theirs }))
            == resolver::hunks(segments).push((ours@, theirs@)),
        resolver::hunks(segments.push(ConflictSegment::Text(t))) == resolver::hunks(segments),
{
    let n = segments.len() as int;
    same_hunks(segments, segments.push(ConflictSegment::Hunk { ours, theirs }), n);
    same_hunks(segments, segments.push(ConflictSegment::Text(t)), n);
}

proof fn same_hunks(a: Seq<ConflictSegment>, b: Seq<ConflictSegment>, n: int)
    requires
        n <= a.len(),
        n <= b.len(),
        forall|i: int| 0 <= i < n ==> a[i] == b[i],
    ensures
        resolver::hunks_to(a, n) == resolver::hunks_to(b, n),
    decreases n,
{
    if n > 0 {
        same_hunks(a, b, n - 1);
    }
}

/// A file that was read shows its conflicts with nothing chosen and the cursor on
/// the first, if it is the file that the resolver is on; what is read of any other
/// file changes nothing.
pub proof fn read_file_is_shown(
    a: AppView,
    r: ResolverScreen,
    target: Seq<char>,
    path: Seq<char>,
    file: ConflictFile,
)
    requires
        a.view == Screen::ConflictResolver(r),
        0 <= r.file < r.files.len(),
        resolver::hunks(file.segments@).len() > 0,
    ensures
        target == r.target && path == r.files[r.file] ==> match a.conflict_read(
            target,
            path,
            Some(file),
        ).view {
            Screen::ConflictResolver(n) => n.files == r.files && n.resolved == r.resolved && match n.current {
                Some(f) => f.file == file && f.hunk == 0 && f.actions.len() == resolver::hunks(
                    file.segments@,
                ).len() && forall|i: int|
                    0 <= i < f.actions.len() ==> (#[trigger] f.actions[i]) is None,
                None => false,
            },
            _ => false,
        },
        target != r.target || path != r.files[r.file] ==> a.conflict_read(
            target,
            path,
            Some(file),
        ) == a,
{
}

/// A file that was staged counts as resolved, and the resolver goes on to one
/// that is not, which it asks for; a file that could not be staged stays as it
/// was.
pub proof fn staged_file_is_resolved(a: AppView, r: ResolverScreen, m: Seq<char>, e: String)
    requires
        a.view == Screen::ConflictResolver(r),
        r.resolved.len() == r.files.len(),
        0 <= r.file < r.files.len(),
    ensures
        match a.staged(m, Ok(())).view {
            Screen::ConflictResolver(n) => n.resolved == r.resolved.update(r.file, true)
                && n.files == r.files && n.target == r.target && n.kind == r.kind,
            _ => false,
        },
        a.staged(m, Ok(())).message == Some(m),
        a.staged(m, Err(e)) == (AppView { error: Some(e@), ..a }),
{
}

/// An operation that left conflicts opens the resolver on the first of its files,
/// with none resolved, and asks for that file; without any, its own message is
/// shown.
pub proof fn conflicts_open_the_resolver(
    a: AppView,
    target: Seq<char>,
    source_label: Seq<char>,
    kind: ResolveKind,
    msg: Seq<char>,
    files: Seq<Seq<char>>,
)
    requires
        files.len() > 0,
    ensures
        a.conflicts_listed(target, source_label, kind, msg, Ok(files)).out == a.out.push(
            RequestView::ReadConflict { target, path: files[0] },
        ),
        match a.conflicts_listed(target, source_label, kind, msg, Ok(files)).view {
            Screen::ConflictResolver(r) => {
                &&& r.target == target
                &&& r.source_label == source_label
                &&& r.kind == kind
                &&& r.files == files
                &&& r.file == 0
                &&& r.resolved.len() == files.len()
                &&& forall|i: int| 0 <= i < files.len() ==> !#[trigger] r.resolved[i]
            },
            _ => false,
        },
        a.conflicts_listed(target, source_label, kind, msg, Ok(Seq::empty())).message == Some(
            msg,
        ),
        a.conflicts_listed(target, source_label, kind, msg, Ok(Seq::empty())).view == a.view,
        kind is StashPop ==> a.conflicts_listed(
            target,
            source_label,
            kind,
            msg,
            Ok(Seq::empty()),
        ).out == a.out.push(RequestView::StashList { name: target }),
        !(kind is StashPop) ==> a.conflicts_listed(
            target,
            source_label,
            kind,
            msg,
            Ok(Seq::empty()),
        ).out == a.out,
{
}

/// An operation that was finished or aborted goes back to the tabs with its
/// message; one that could not be keeps the resolver open with the error.
pub proof fn settled_goes_back(
    a: AppView,
    target: Seq<char>,
    kind: ResolveKind,
    m: Seq<char>,
    e: Seq<char>,
)
    ensures
        a.settled(target, kind, Ok(m)).view is List,
        a.settled(target, kind, Ok(m)).stack.len() == 0,
        a.settled(target, kind, Ok(m)).message == Some(m),
        kind is StashPop ==> a.settled(target, kind, Ok(m)).out == a.out.push(
            RequestView::ListWorktrees { then: ListThenView::Refresh },
        ).push(RequestView::StashList { name: target }),
        !(kind is StashPop) ==> a.settled(target, kind, Ok(m)).out == a.out.push(
            RequestView::ListWorktrees { then: ListThenView::Refresh },
        ),
        a.settled(target, kind, Err(e)) == (AppView { error: Some(e), ..a }),
{
}

} // verus!

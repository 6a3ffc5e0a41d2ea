//! The plain data that the interface shows: worktrees, branches, commits,
//! stashes, conflicts and releases.

use vstd::prelude::*;
use vstd::string::*;


verus! {

/// A copy of an optional string.
pub fn copy_option(s: &Option<String>) -> (r: Option<String>)
    ensures
        r == *s,
{
    match s {
        Some(t) => Some(t.clone()),
        None => None,
    }
}

/// The view of an optional string.
pub open spec fn opt(s: Option<String>) -> Option<Seq<char>> {
    match s {
        Some(t) => Some(t@),
        None => None,
    }
}

/// One worktree of the repository.
#[derive(Debug)]
pub struct WorktreeInfo {
    pub name: String,
    pub path: String,
    /// The branch checked out there; none when detached.
    pub branch: Option<String>,
    /// Number of uncommitted changes.
    pub dirty: usize,
    pub is_main: bool,
}

/// One local branch.
#[derive(Debug)]
pub struct BranchListItem {
    pub name: String,
    /// Where the branch is checked out, if it is.
    pub checked_out_path: Option<String>,
}

/// One commit of a log.
#[derive(Debug)]
pub struct LogEntry {
    pub hash: String,
    pub subject: String,
    pub author: String,
    pub date: String,
    pub refs: Vec<String>,
}

/// One row of a log: graph art, and the commit drawn on it, if one is.
#[derive(Debug)]
pub struct GraphLine {
    pub graph: String,
    pub entry: Option<LogEntry>,
}

/// One stash entry.
#[derive(Debug)]
pub struct StashEntry {
    pub index: u32,
    pub message: String,
}

/// One piece of a file with conflicts.
#[derive(Debug)]
pub enum ConflictSegment {
    /// Text that both sides agree on.
    Text(String),
    /// A conflict and its two sides.
    Hunk { ours: String, theirs: String },
}

impl Clone for ConflictSegment {
    fn clone(&self) -> (r: Self)
        ensures
            r == *self,
    {
        match self {
            ConflictSegment::Text(t) => ConflictSegment::Text(t.clone()),
            ConflictSegment::Hunk { ours, theirs } => ConflictSegment::Hunk {
                ours: ours.clone(),
                theirs: theirs.clone(),
            },
        }
    }
}

/// A file with conflicts, parsed.
#[derive(Debug)]
pub struct ConflictFile {
    pub path: String,
    pub segments: Vec<ConflictSegment>,
    pub ours_label: String,
    pub theirs_label: String,
}

/// How one conflict is resolved.
#[derive(Debug)]
pub enum ResolutionAction {
    KeepOurs,
    KeepTheirs,
    KeepBoth,
    KeepBothReversed,
    Manual(String),
}

/// How one conflict is resolved.
pub enum ChoiceView {
    KeepOurs,
    KeepTheirs,
    KeepBoth,
    KeepBothReversed,
    Manual(Seq<char>),
}

impl View for ResolutionAction {
    type V = ChoiceView;

    open spec fn view(&self) -> ChoiceView {
        match self {
            ResolutionAction::KeepOurs => ChoiceView::KeepOurs,
            ResolutionAction::KeepTheirs => ChoiceView::KeepTheirs,
            ResolutionAction::KeepBoth => ChoiceView::KeepBoth,
            ResolutionAction::KeepBothReversed => ChoiceView::KeepBothReversed,
            ResolutionAction::Manual(t) => ChoiceView::Manual(t@),
        }
    }
}

impl Clone for ResolutionAction {
    fn clone(&self) -> (r: Self)
        ensures
            r == *self,
    {
        match self {
            ResolutionAction::KeepOurs => ResolutionAction::KeepOurs,
            ResolutionAction::KeepTheirs => ResolutionAction::KeepTheirs,
            ResolutionAction::KeepBoth => ResolutionAction::KeepBoth,
            ResolutionAction::KeepBothReversed => ResolutionAction::KeepBothReversed,
            ResolutionAction::Manual(t) => ResolutionAction::Manual(t.clone()),
        }
    }
}

/// Which operation left conflicts behind.
#[derive(Clone, Copy, Debug, PartialEq, Eq, Structural)]
pub enum ResolveKind {
    Merge,
    CherryPick,
    StashPop { index: Option<u32> },
}

/// A directory that stands where a worktree should go.
#[derive(Debug)]
pub struct ExistingTarget {
    pub path: String,
    /// The worktree that it is, if it is one.
    pub worktree_name: Option<String>,
}

/// One step of setting a worktree up.
#[derive(Debug)]
pub struct SetupStep {
    pub step: String,
    pub ok: bool,
    pub detail: Option<String>,
}

/// How creating a worktree went.
#[derive(Debug)]
pub struct CreateResult {
    pub path: String,
    pub setup: Vec<SetupStep>,
    pub setup_ok: bool,
}

/// Message from a create that is running.
#[derive(Debug)]
pub enum CreateMsg {
    Progress(String),
    Done(Result<CreateResult, String>),
}

/// A published release.
#[derive(Debug)]
pub struct Release {
    pub tag: String,
    pub version: String,
    pub url: String,
}

impl Clone for Release {
    fn clone(&self) -> (r: Self)
        ensures
            r == *self,
    {
        Release { tag: self.tag.clone(), version: self.version.clone(), url: self.url.clone() }
    }
}

/// What an update check found.
#[derive(Debug)]
pub enum CheckOutcome {
    Available(Release),
    UpToDate { latest: String },
}

/// How deleting a branch went.
#[derive(Debug)]
pub enum DeleteBranchOutcome {
    Deleted,
    NotMerged,
    CheckedOutElsewhere(String),
}

/// The settings that the interface works by.
#[derive(Debug)]
pub struct ConfigInfo {
    /// Where new worktrees are created, if that could be resolved.
    pub worktree_base: Option<String>,
    /// The command that opens a worktree, if one is configured.
    pub open_command: Option<String>,
}

/// A worktree that commits or a branch can be brought into.
#[derive(Debug)]
pub struct CherryTarget {
    pub name: String,
    pub branch: Option<String>,
}

/// A background operation's results: queued in the order in which they come.
#[derive(Debug)]
pub struct Task<T> {
    /// Tells the operation apart from those before and after it.
    pub id: u64,
    pub queue: Vec<T>,
}

/// What a background operation has sent so far.
pub struct TaskView<T> {
    pub id: u64,
    pub queue: Seq<T>,
}

impl<T> View for Task<T> {
    type V = TaskView<T>;

    open spec fn view(&self) -> TaskView<T> {
        TaskView { id: self.id, queue: self.queue@ }
    }
}

impl<T> TaskView<T> {
    /// An operation that has sent nothing yet.
    pub open spec fn started(id: u64) -> TaskView<T> {
        TaskView { id, queue: Seq::empty() }
    }

    /// What is left after every result was taken.
    pub open spec fn drained(self) -> TaskView<T> {
        TaskView { queue: Seq::empty(), ..self }
    }
}

impl<T> Task<T> {
    /// An operation that has sent nothing yet.
    pub fn new(id: u64) -> (r: Task<T>)
        ensures
            r@ == TaskView::<T>::started(id),
    {
        Task { id, queue: Vec::new() }
    }

    /// Puts a result at the end of the queue.
    pub fn push(&mut self, value: T)
        ensures
            final(self)@ == (TaskView { queue: old(self)@.queue.push(value), ..old(self)@ }),
    {
        self.queue.push(value);
    }

    /// Takes every result that is queued and returns the newest, so that a burst
    /// of results never applies a stale one.
    pub fn poll_latest(&mut self) -> (r: Option<T>)
        ensures
            final(self)@ == old(self)@.drained(),
            match r {
                Some(v) => old(self)@.queue.len() > 0 && v == old(self)@.queue.last(),
                None => old(self)@.queue.len() == 0,
            },
    {
        let latest = self.queue.pop();
        self.queue = Vec::new();
        latest
    }

    /// Takes the oldest result that is queued.
    pub fn try_recv(&mut self) -> (r: Option<T>)
        ensures
            match r {
                Some(v) => old(self)@.queue.len() > 0 && v == old(self)@.queue[0] && final(self)@
                    == (TaskView { queue: old(self)@.queue.drop_first(), ..old(self)@ }),
                None => old(self)@.queue.len() == 0 && final(self)@ == old(self)@,
            },
    {
        if self.queue.len() == 0 {
            None
        } else {
            let v = self.queue.remove(0);
            assert(self.queue@ =~= old(self)@.queue.drop_first());
            Some(v)
        }
    }
}

/// How commit history is drawn: as a graph or as a plain list.
#[derive(Clone, Copy, Debug, PartialEq, Eq, Structural)]
pub enum LogMode {
    Tree,
    Flat,
}

impl LogMode {
    /// The other mode.
    pub open spec fn flipped(self) -> LogMode {
        match self {
            LogMode::Tree => LogMode::Flat,
            LogMode::Flat => LogMode::Tree,
        }
    }

    /// The name of the mode.
    pub open spec fn named(self) -> Seq<char> {
        match self {
            LogMode::Tree => "tree"@,
            LogMode::Flat => "flat"@,
        }
    }

    /// The other mode.
    pub fn toggled(self) -> (r: LogMode)
        ensures
            r == self.flipped(),
    {
        match self {
            LogMode::Tree => LogMode::Flat,
            LogMode::Flat => LogMode::Tree,
        }
    }

    /// The name of the mode.
    pub fn label(self) -> (r: &'static str)
        ensures
            r@ == self.named(),
    {
        match self {
            LogMode::Tree => "tree",
            LogMode::Flat => "flat",
        }
    }
}

/// Toggling the mode twice gives the mode back.
pub proof fn log_mode_toggle_undoes(m: LogMode)
    ensures
        m.flipped().flipped() == m,
        m.flipped() != m,
{
}

/// What a row of a log shows.
pub struct LogRow {
    pub graph: Seq<char>,
    pub entry: Option<LogEntry>,
}

/// What the rows of a log show.
pub open spec fn log_rows(v: Seq<GraphLine>) -> Seq<LogRow> {
    v.map_values(|l: GraphLine| LogRow { graph: l.graph@, entry: l.entry })
}

/// Whether row `i` holds a commit.
pub open spec fn is_commit(lines: Seq<LogRow>, i: int) -> bool {
    0 <= i < lines.len() && lines[i].entry is Some
}

/// The first row from `i` on that holds a commit; 0 where there is none.
pub open spec fn first_commit_from(lines: Seq<LogRow>, i: int) -> int
    decreases lines.len() - i,
{
    if i >= lines.len() {
        0
    } else if is_commit(lines, i) {
        i
    } else {
        first_commit_from(lines, i + 1)
    }
}

/// The first row that holds a commit; 0 where there is none.
pub open spec fn first_commit(lines: Seq<LogRow>) -> int {
    first_commit_from(lines, 0)
}

/// Index of the first row that holds a commit, past any rows of art alone; 0
/// when there is none.
pub fn first_commit_row(lines: &Vec<GraphLine>) -> (r: usize)
    ensures
        r == first_commit(log_rows(lines@)),
        r <= lines@.len(),
{
    let mut i: usize = 0;
    while i < lines.len()
        invariant
            i <= lines@.len(),
            first_commit(log_rows(lines@)) == first_commit_from(log_rows(lines@), i as int),
        decreases lines@.len() - i,
    {
        if lines[i].entry.is_some() {
            return i;
        }
        i += 1;
    }
    0
}

/// The nearest commit row behind `from` (`forward`) or before it; none where
/// there is no further commit that way.
pub open spec fn nearest_commit(lines: Seq<LogRow>, from: int, forward: bool, r: Option<int>) -> bool {
    match r {
        Some(i) => {
            &&& is_commit(lines, i)
            &&& if forward {
                i > from && forall|k: int| from < k < i ==> !is_commit(lines, k)
            } else {
                i < from && forall|k: int| i < k < from ==> !is_commit(lines, k)
            }
        },
        None => if forward {
            forall|k: int| from < k ==> !is_commit(lines, k)
        } else {
            forall|k: int| k < from ==> !is_commit(lines, k)
        },
    }
}

/// The row that a step from `from` leads to.
pub open spec fn stepped(lines: Seq<LogRow>, from: int, forward: bool) -> int {
    let r = choose|r: Option<int>| nearest_commit(lines, from, forward, r);
    match r {
        Some(i) => i,
        None => from,
    }
}

/// There is one nearest commit row at most.
pub proof fn nearest_is_unique(
    lines: Seq<LogRow>,
    from: int,
    forward: bool,
    a: Option<int>,
    b: Option<int>,
)
    requires
        nearest_commit(lines, from, forward, a),
        nearest_commit(lines, from, forward, b),
    ensures
        a == b,
{
    match (a, b) {
        (Some(i), Some(j)) => {
            if i < j {
                assert(is_commit(lines, i) && is_commit(lines, j));
            } else if j < i {
                assert(is_commit(lines, i) && is_commit(lines, j));
            }
        },
        (Some(i), None) => {
            assert(is_commit(lines, i));
        },
        (None, Some(j)) => {
            assert(is_commit(lines, j));
        },
        _ => {},
    }
}

/// The next commit row in a direction, so that the cursor steps between commits
/// and does not stop on the connector rows drawn between them. `None` when there
/// is no further commit that way.
pub fn seek_commit_row(lines: &Vec<GraphLine>, from: usize, forward: bool) -> (r: Option<usize>)
    requires
        !forward ==> from <= lines@.len(),
    ensures
        nearest_commit(
            log_rows(lines@),
            from as int,
            forward,
            match r {
                Some(i) => Some(i as int),
                None => None,
            },
        ),
        stepped(log_rows(lines@), from as int, forward) == match r {
            Some(i) => i as int,
            None => from as int,
        },
{
    let n: usize = lines.len();
    let ghost rows = log_rows(lines@);
    let mut i: usize = from;
    let mut found: Option<usize> = None;
    if forward {
        if from < n {
            i = from + 1;
            while i < n && !lines[i].entry.is_some()
                invariant
                    n == lines@.len(),
                    rows == log_rows(lines@),
                    from < i <= n,
                    forall|k: int| from < k < i ==> !is_commit(rows, k),
                decreases n - i,
            {
                i += 1;
            }
            if i < n {
                found = Some(i);
            }
        }
    } else {
        while i > 0 && !lines[i - 1].entry.is_some()
            invariant
                n == lines@.len(),
                    rows == log_rows(lines@),
                i <= from <= n,
                forall|k: int| i <= k < from ==> !is_commit(rows, k),
            decreases i,
        {
            i -= 1;
        }
        if i > 0 {
            found = Some(i - 1);
        }
    }
    proof {
        let r = match found {
            Some(k) => Some(k as int),
            None => None,
        };
        assert(nearest_commit(rows, from as int, forward, r));
        let c = choose|c: Option<int>| nearest_commit(rows, from as int, forward, c);
        nearest_is_unique(rows, from as int, forward, r, c);
    }
    found
}

/// A step forward from a commit row that leads to another row is undone by a
/// step backward.
pub proof fn step_forward_then_back(lines: Seq<LogRow>, from: int, to: int)
    requires
        is_commit(lines, from),
        nearest_commit(lines, from, true, Some(to)),
    ensures
        nearest_commit(lines, to, false, Some(from)),
{
}

/// Log entries as rows without art.
pub open spec fn flat_rows(entries: Seq<LogEntry>) -> Seq<LogRow> {
    entries.map_values(|e: LogEntry| LogRow { graph: Seq::empty(), entry: Some(e) })
}

/// Presents log entries as rows without art, so that both modes share one kind
/// of row.
pub fn flat_lines(entries: Vec<LogEntry>) -> (r: Vec<GraphLine>)
    ensures
        log_rows(r@) == flat_rows(entries@),
{
    let ghost all = entries@;
    let mut rest = entries;
    let mut back: Vec<LogEntry> = Vec::new();
    while rest.len() > 0
        invariant
            all == rest@ + back@.reverse(),
        decreases rest@.len(),
    {
        let ghost rest0 = rest@;
        let ghost back0 = back@;
        let e = rest.pop().unwrap();
        back.push(e);
        assert(back@.reverse() =~= seq![e] + back0.reverse());
        assert(rest@ + back@.reverse() =~= rest0 + back0.reverse());
    }
    assert(back@.reverse() =~= all);
    let mut r: Vec<GraphLine> = Vec::new();
    assert(log_rows(r@) + flat_rows(back@.reverse()) =~= flat_rows(all));
    while back.len() > 0
        invariant
            log_rows(r@) + flat_rows(back@.reverse()) == flat_rows(all),
        decreases back@.len(),
    {
        let ghost r0 = r@;
        let ghost back0 = back@;
        let e = back.pop().unwrap();
        let line = GraphLine { graph: String::new(), entry: Some(e) };
        r.push(line);
        proof {
            let row = LogRow { graph: Seq::empty(), entry: Some(e) };
            assert(line.graph@ =~= Seq::<char>::empty());
            assert(log_rows(r@) =~= log_rows(r0).push(row));
            assert(back0.reverse() =~= seq![e] + back@.reverse());
            assert(flat_rows(back0.reverse()) =~= seq![row] + flat_rows(back@.reverse()));
            assert(log_rows(r@) + flat_rows(back@.reverse()) =~= log_rows(r0) + flat_rows(
                back0.reverse(),
            ));
        }
    }
    assert(log_rows(r@) =~= flat_rows(all)) by {
        assert(flat_rows(back@.reverse()) =~= Seq::<LogRow>::empty());
        assert(log_rows(r@) + Seq::<LogRow>::empty() =~= log_rows(r@));
    }
    r
}

} // verus!

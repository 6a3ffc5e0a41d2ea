//! The branches offered for checkout, and how typing narrows them.

use vstd::prelude::*;
use vstd::string::*;

use crate::model;
use crate::model::WorktreeInfo;
use crate::text;

verus! {

/// A branch offered for checkout. A branch that exists only on a remote carries
/// its remote ref, from which a local tracking branch is made.
#[derive(Debug)]
pub struct CheckoutCandidate {
    pub branch: String,
    pub remote: Option<String>,
}

impl Clone for CheckoutCandidate {
    fn clone(&self) -> (r: Self)
        ensures
            r == *self,
    {
        CheckoutCandidate {
            branch: self.branch.clone(),
            remote: model::copy_option(&self.remote),
        }
    }
}

/// What `str::to_lowercase` makes of a text.
pub uninterp spec fn lowercase(s: Seq<char>) -> Seq<char>;

/// `str::to_lowercase` gives the lowercase equivalent of a text by the Unicode
/// rules; it depends on the text alone, and of an empty one it is empty.
#[verifier::external_body]
fn lower(s: &str) -> (r: String)
    ensures
        r@ == lowercase(s@),
        s@.len() == 0 ==> r@.len() == 0,
{
    s.to_lowercase()
}

/// Whether a lowercased name is kept by a lowercased filter.
pub open spec fn keeps(name: Seq<char>, needle: Seq<char>) -> bool {
    needle.len() == 0 || text::has(name, needle)
}

/// The indices of the first `n` names that a filter keeps, in order.
pub open spec fn kept(names: Seq<Seq<char>>, needle: Seq<char>, n: int) -> Seq<int>
    decreases n,
{
    if n <= 0 {
        Seq::empty()
    } else if keeps(names[n - 1], needle) {
        kept(names, needle, n - 1).push(n - 1)
    } else {
        kept(names, needle, n - 1)
    }
}

/// The branch names in lowercase.
pub open spec fn lowered(branches: Seq<CheckoutCandidate>) -> Seq<Seq<char>> {
    branches.map_values(|c: CheckoutCandidate| lowercase(c.branch@))
}

/// What a filter looks for in the names: its text in lowercase without the
/// blanks around it, or nothing when it is blank.
pub open spec fn sought(filter: Seq<char>) -> Seq<char> {
    if text::trimmed(filter).len() == 0 {
        Seq::empty()
    } else {
        lowercase(text::trimmed(filter))
    }
}

/// The indices of the branches that a filter keeps.
pub open spec fn filtered(branches: Seq<CheckoutCandidate>, filter: Seq<char>) -> Seq<int> {
    kept(lowered(branches), sought(filter), branches.len() as int)
}

/// The indices as integers.
pub open spec fn ints(v: Seq<usize>) -> Seq<int> {
    v.map_values(|i: usize| i as int)
}

/// The indices of the names that hold `needle`, both taken as they are; all of
/// them when `needle` is empty.
pub fn matching(names: &Vec<String>, needle: &str) -> (r: Vec<usize>)
    ensures
        ints(r@) == kept(text::views(names@), needle@, names@.len() as int),
{
    let mut r: Vec<usize> = Vec::new();
    let mut i: usize = 0;
    assert(ints(r@) =~= Seq::<int>::empty());
    while i < names.len()
        invariant
            i <= names@.len(),
            ints(r@) == kept(text::views(names@), needle@, i as int),
        decreases names@.len() - i,
    {
        let ghost r0 = r@;
        assert(text::views(names@)[i as int] == names@[i as int]@);
        if needle.unicode_len() == 0 || text::contains(names[i].as_str(), needle) {
            r.push(i);
            assert(ints(r@) =~= ints(r0).push(i as int));
        }
        i += 1;
    }
    r
}

/// Indices into `branches` whose name matches `filter`: a substring, upper and
/// lower case alike; a blank filter matches everything.
pub fn filtered_candidates(branches: &Vec<CheckoutCandidate>, filter: &str) -> (r: Vec<usize>)
    ensures
        ints(r@) == filtered(branches@, filter@),
{
    let t = text::trim(filter);
    let needle = lower(t.as_str());
    assert(needle@ =~= sought(filter@));
    let mut names: Vec<String> = Vec::new();
    let mut i: usize = 0;
    while i < branches.len()
        invariant
            i <= branches@.len(),
            text::views(names@) == lowered(branches@).take(i as int),
        decreases branches@.len() - i,
    {
        let ghost names0 = names@;
        let name = lower(branches[i].branch.as_str());
        names.push(name);
        assert(text::views(names@) =~= text::views(names0).push(name@));
        assert(lowered(branches@).take(i + 1) =~= lowered(branches@).take(i as int).push(
            lowered(branches@)[i as int],
        ));
        i += 1;
    }
    assert(lowered(branches@).take(branches@.len() as int) =~= lowered(branches@));
    assert(text::views(names@).len() == names@.len());
    matching(&names, needle.as_str())
}

/// What a filter keeps are places in the list, in order, none twice, and just
/// those that match.
pub proof fn kept_shape(names: Seq<Seq<char>>, needle: Seq<char>, n: int)
    requires
        0 <= n <= names.len(),
    ensures
        kept(names, needle, n).len() <= n,
        forall|k: int|
            0 <= k < kept(names, needle, n).len() ==> 0 <= #[trigger] kept(names, needle, n)[k] < n
                && keeps(names[kept(names, needle, n)[k]], needle),
        forall|k: int, l: int|
            0 <= k < l < kept(names, needle, n).len() ==> #[trigger] kept(names, needle, n)[k]
                < #[trigger] kept(names, needle, n)[l],
        forall|i: int|
            0 <= i < n && keeps(#[trigger] names[i], needle) ==> kept(names, needle, n).contains(
                i,
            ),
    decreases n,
{
    if n > 0 {
        kept_shape(names, needle, n - 1);
        let before = kept(names, needle, n - 1);
        let after = kept(names, needle, n);
        if keeps(names[n - 1], needle) {
            assert(after[before.len() as int] == n - 1);
        }
        assert forall|i: int| 0 <= i < n && keeps(#[trigger] names[i], needle) implies after.contains(
            i,
        ) by {
            if i < n - 1 {
                let k = before.index_of(i);
                assert(after[k] == i);
            } else {
                assert(after[before.len() as int] == i);
            }
        }
    }
}

proof fn nothing_sought(names: Seq<Seq<char>>, n: int)
    requires
        0 <= n,
    ensures
        kept(names, Seq::empty(), n) == Seq::new(n as nat, |i: int| i),
    decreases n,
{
    if n > 0 {
        nothing_sought(names, n - 1);
    }
    assert(kept(names, Seq::empty(), n) =~= Seq::new(n as nat, |i: int| i));
}

/// A blank filter keeps every branch, in the order of the list.
pub proof fn blank_filter_keeps_all(branches: Seq<CheckoutCandidate>, filter: Seq<char>)
    requires
        text::trimmed(filter).len() == 0,
    ensures
        filtered(branches, filter) == Seq::new(branches.len(), |i: int| i),
{
    nothing_sought(lowered(branches), branches.len() as int);
}

/// A branch stays in the list while its own name is the filter.
pub proof fn own_name_is_kept(branches: Seq<CheckoutCandidate>, i: int)
    requires
        0 <= i < branches.len(),
        text::trimmed(branches[i].branch@) == branches[i].branch@,
    ensures
        filtered(branches, branches[i].branch@).contains(i),
{
    let name = lowercase(branches[i].branch@);
    assert(lowered(branches)[i] == name);
    assert(name.subrange(0, name.len() as int) =~= name);
    assert(text::occurs_at(name, name, 0));
    kept_shape(lowered(branches), sought(branches[i].branch@), branches.len() as int);
}

/// The branches that some worktree has checked out.
pub open spec fn checked_out(worktrees: Seq<WorktreeInfo>, branch: Seq<char>) -> bool {
    exists|i: int| #[trigger] on_branch(worktrees, i, branch)
}

/// Whether worktree `i` has `branch` checked out.
pub open spec fn on_branch(worktrees: Seq<WorktreeInfo>, i: int, branch: Seq<char>) -> bool {
    0 <= i < worktrees.len() && (worktrees[i].branch matches Some(b) && b@ == branch)
}

/// Whether some worktree has `branch` checked out.
pub fn is_checked_out(worktrees: &Vec<WorktreeInfo>, branch: &str) -> (r: bool)
    ensures
        r == checked_out(worktrees@, branch@),
{
    let mut i: usize = 0;
    while i < worktrees.len()
        invariant
            i <= worktrees@.len(),
            forall|k: int| 0 <= k < i ==> !#[trigger] on_branch(worktrees@, k, branch@),
        decreases worktrees@.len() - i,
    {
        if let Some(b) = &worktrees[i].branch {
            if text::same(b.as_str(), branch) {
                assert(on_branch(worktrees@, i as int, branch@));
                return true;
            }
        }
        i += 1;
    }
    false
}

/// The first `n` local branches that no worktree has checked out.
pub open spec fn free_locals(local: Seq<String>, worktrees: Seq<WorktreeInfo>, n: int) -> Seq<
    CheckoutCandidate,
>
    decreases n,
{
    if n <= 0 {
        Seq::empty()
    } else {
        let above = free_locals(local, worktrees, n - 1);
        if checked_out(worktrees, local[n - 1]@) {
            above
        } else {
            above.push(CheckoutCandidate { branch: local[n - 1], remote: None })
        }
    }
}

/// Whether one of the first `n` remote branches has the short name `short`.
pub open spec fn seen_remote(remotes: Seq<(String, String)>, short: Seq<char>, n: int) -> bool {
    exists|k: int| 0 <= k < n && #[trigger] remotes[k].0@ == short
}

/// Of the first `n` remote branches, those with no local branch of their name,
/// each name once.
pub open spec fn remote_only(local: Seq<String>, remotes: Seq<(String, String)>, n: int) -> Seq<
    CheckoutCandidate,
>
    decreases n,
{
    if n <= 0 {
        Seq::empty()
    } else {
        let above = remote_only(local, remotes, n - 1);
        let r = remotes[n - 1];
        if text::views(local).contains(r.0@) || seen_remote(remotes, r.0@, n - 1) {
            above
        } else {
            above.push(CheckoutCandidate { branch: r.0, remote: Some(r.1) })
        }
    }
}

/// The branches that can be checked out: the local ones that no worktree has,
/// then those that exist only on a remote.
pub open spec fn choices(
    worktrees: Seq<WorktreeInfo>,
    local: Seq<String>,
    remotes: Option<Seq<(String, String)>>,
) -> Seq<CheckoutCandidate> {
    free_locals(local, worktrees, local.len() as int) + match remotes {
        Some(r) => remote_only(local, r, r.len() as int),
        None => Seq::empty(),
    }
}

/// Whether `name` is one of `names`.
pub fn is_one_of(names: &Vec<String>, name: &str) -> (r: bool)
    ensures
        r == text::views(names@).contains(name@),
{
    let mut i: usize = 0;
    while i < names.len()
        invariant
            i <= names@.len(),
            forall|k: int| 0 <= k < i ==> #[trigger] names@[k]@ != name@,
        decreases names@.len() - i,
    {
        if text::same(names[i].as_str(), name) {
            assert(text::views(names@)[i as int] == name@);
            return true;
        }
        i += 1;
    }
    assert forall|k: int| 0 <= k < text::views(names@).len() implies text::views(names@)[k]
        != name@ by {
        assert(text::views(names@)[k] == names@[k]@);
    }
    false
}

/// Whether one of the first `n` remote branches has the short name `short`.
fn is_seen_remote(remotes: &Vec<(String, String)>, short: &str, n: usize) -> (r: bool)
    requires
        n <= remotes@.len(),
    ensures
        r == seen_remote(remotes@, short@, n as int),
{
    let mut i: usize = 0;
    while i < n
        invariant
            i <= n <= remotes@.len(),
            forall|k: int| 0 <= k < i ==> #[trigger] remotes@[k].0@ != short@,
        decreases n - i,
    {
        if text::same(remotes[i].0.as_str(), short) {
            return true;
        }
        i += 1;
    }
    false
}

/// The branches that can be checked out: local ones that no worktree has checked
/// out, then those that exist only on a remote. Remotes are left out when they
/// could not be read.
pub fn checkout_choices(
    worktrees: &Vec<WorktreeInfo>,
    local: &Vec<String>,
    remotes: &Option<Vec<(String, String)>>,
) -> (r: Vec<CheckoutCandidate>)
    ensures
        r@ == choices(
            worktrees@,
            local@,
            match *remotes {
                Some(v) => Some(v@),
                None => None,
            },
        ),
{
    let mut r: Vec<CheckoutCandidate> = Vec::new();
    let mut i: usize = 0;
    while i < local.len()
        invariant
            i <= local@.len(),
            r@ == free_locals(local@, worktrees@, i as int),
        decreases local@.len() - i,
    {
        if !is_checked_out(worktrees, local[i].as_str()) {
            r.push(CheckoutCandidate { branch: local[i].clone(), remote: None });
        }
        i += 1;
    }
    let ghost locals = r@;
    if let Some(found) = remotes {
        let mut k: usize = 0;
        assert(r@ =~= locals + remote_only(local@, found@, 0));
        while k < found.len()
            invariant
                k <= found@.len(),
                r@ == locals + remote_only(local@, found@, k as int),
            decreases found@.len() - k,
        {
            let ghost r0 = r@;
            let short = found[k].0.as_str();
            if !is_one_of(local, short) && !is_seen_remote(found, short, k) {
                r.push(
                    CheckoutCandidate {
                        branch: found[k].0.clone(),
                        remote: Some(found[k].1.clone()),
                    },
                );
            }
            assert(r@ =~= locals + remote_only(local@, found@, k + 1));
            k += 1;
        }
    } else {
        assert(r@ =~= locals + Seq::<CheckoutCandidate>::empty());
    }
    r
}

/// The first main worktree from `i` on, if there is one.
pub open spec fn main_from(worktrees: Seq<WorktreeInfo>, i: int) -> Option<WorktreeInfo>
    decreases worktrees.len() - i,
{
    if i < 0 || i >= worktrees.len() {
        None
    } else if worktrees[i].is_main {
        Some(worktrees[i])
    } else {
        main_from(worktrees, i + 1)
    }
}

/// The place of the main worktree, if there is one.
pub fn main_index(worktrees: &Vec<WorktreeInfo>) -> (r: Option<usize>)
    ensures
        match r {
            Some(i) => i < worktrees@.len() && main_from(worktrees@, 0) == Some(
                worktrees@[i as int],
            ),
            None => main_from(worktrees@, 0) is None,
        },
{
    let mut i: usize = 0;
    while i < worktrees.len()
        invariant
            i <= worktrees@.len(),
            main_from(worktrees@, 0) == main_from(worktrees@, i as int),
        decreases worktrees@.len() - i,
    {
        if worktrees[i].is_main {
            return Some(i);
        }
        i += 1;
    }
    None
}

/// The branch that a new branch starts from by default: the main worktree's
/// when it is a known local branch, else the first local branch, else `HEAD`.
pub open spec fn base_for(worktrees: Seq<WorktreeInfo>, local: Seq<String>) -> Seq<char> {
    let first = if local.len() > 0 {
        local[0]@
    } else {
        "HEAD"@
    };
    match main_from(worktrees, 0) {
        Some(w) => match w.branch {
            Some(b) => if text::views(local).contains(b@) {
                b@
            } else {
                first
            },
            None => first,
        },
        None => first,
    }
}

/// The branch that a new branch starts from by default: the main worktree's
/// branch when it is a known local branch, else the first local branch, else
/// `HEAD`.
pub fn default_base(worktrees: &Vec<WorktreeInfo>, local: &Vec<String>) -> (r: String)
    ensures
        r@ == base_for(worktrees@, local@),
{
    if let Some(i) = main_index(worktrees) {
        if let Some(b) = &worktrees[i].branch {
            if is_one_of(local, b.as_str()) {
                return b.clone();
            }
        }
    }
    if local.len() > 0 {
        local[0].clone()
    } else {
        "HEAD".to_string()
    }
}

/// No branch that a worktree has checked out is offered as a local branch, and
/// every other local branch is.
pub proof fn free_locals_exact(local: Seq<String>, worktrees: Seq<WorktreeInfo>, n: int)
    requires
        0 <= n <= local.len(),
    ensures
        forall|i: int|
            0 <= i < n ==> (!checked_out(worktrees, #[trigger] local[i]@) ==> free_locals(
                local,
                worktrees,
                n,
            ).contains((CheckoutCandidate { branch: local[i], remote: None }))),
        forall|k: int|
            0 <= k < free_locals(local, worktrees, n).len() ==> !checked_out(
                worktrees,
                (#[trigger] free_locals(local, worktrees, n)[k]).branch@,
            ),
    decreases n,
{
    if n > 0 {
        free_locals_exact(local, worktrees, n - 1);
        let above = free_locals(local, worktrees, n - 1);
        let all = free_locals(local, worktrees, n);
        assert forall|i: int| 0 <= i < n && !checked_out(
            worktrees,
            #[trigger] local[i]@,
        ) implies all.contains((CheckoutCandidate { branch: local[i], remote: None })) by {
            let c = CheckoutCandidate { branch: local[i], remote: None };
            if i == n - 1 {
                assert(all.last() == c);
            } else {
                let k = above.index_of(c);
                assert(all[k] == c);
            }
        }
    }
}

/// What a filter lists is listed in the order of the branches, none twice, and is
/// just what its text occurs in, in upper or lower case: with a filter that is
/// not blank, a branch is listed if and only if its name in lowercase is some
/// text, the filter in lowercase without the blanks around it, and some text.
pub proof fn filter_finds_anywhere(branches: Seq<CheckoutCandidate>, filter: Seq<char>, i: int)
    requires
        text::trimmed(filter).len() > 0,
        0 <= i < branches.len(),
    ensures
        filtered(branches, filter).contains(i) <==> exists|a: Seq<char>, b: Seq<char>|
            lowercase(branches[i].branch@) == #[trigger] (a + lowercase(text::trimmed(filter)) + b),
        forall|k: int|
            0 <= k < filtered(branches, filter).len() ==> 0 <= #[trigger] filtered(
                branches,
                filter,
            )[k] < branches.len(),
        forall|k: int, l: int|
            0 <= k < l < filtered(branches, filter).len() ==> #[trigger] filtered(
                branches,
                filter,
            )[k] < #[trigger] filtered(branches, filter)[l],
{
    let name = lowercase(branches[i].branch@);
    let needle = lowercase(text::trimmed(filter));
    let names = lowered(branches);
    let all = filtered(branches, filter);
    assert(names[i] == name);
    kept_shape(names, needle, branches.len() as int);
    if all.contains(i) {
        let k = all.index_of(i);
        assert(all[k] == i);
        if needle.len() == 0 {
            assert(name =~= Seq::<char>::empty() + needle + name);
        } else {
            let at = choose|at: int| text::occurs_at(name, needle, at);
            let a = name.take(at);
            let b = name.skip(at + needle.len());
            assert(name =~= a + name.subrange(at, at + needle.len()) + b);
        }
    }
    if exists|a: Seq<char>, b: Seq<char>| name == #[trigger] (a + needle + b) {
        let (a, b) = choose|a: Seq<char>, b: Seq<char>| name == #[trigger] (a + needle + b);
        assert(name.subrange(a.len() as int, (a.len() + needle.len()) as int) =~= needle);
        assert(text::occurs_at(name, needle, a.len() as int));
        assert(text::has(name, needle));
        assert(keeps(names[i], needle));
    }
}

/// A branch whose name holds the typed text anywhere stays in the list, and one
/// whose name does not is left out: the text is compared as it was typed where
/// neither it nor the name changes in lowercase.
pub proof fn middle_of_a_name_is_found(
    branches: Seq<CheckoutCandidate>,
    filter: Seq<char>,
    i: int,
    a: Seq<char>,
    b: Seq<char>,
)
    requires
        text::trimmed(filter) == filter,
        filter.len() > 0,
        0 <= i < branches.len(),
        branches[i].branch@ == a + filter + b,
        lowercase(branches[i].branch@) == branches[i].branch@,
        lowercase(filter) == filter,
    ensures
        filtered(branches, filter).contains(i),
{
    filter_finds_anywhere(branches, filter, i);
}

/// Where no name holds the typed text, nothing is listed.
pub proof fn strange_text_lists_nothing(branches: Seq<CheckoutCandidate>, filter: Seq<char>)
    requires
        text::trimmed(filter).len() > 0,
        forall|i: int, a: Seq<char>, b: Seq<char>|
            0 <= i < branches.len() ==> lowercase((#[trigger] branches[i]).branch@) != #[trigger] (a
                + lowercase(text::trimmed(filter)) + b),
    ensures
        filtered(branches, filter).len() == 0,
{
    let all = filtered(branches, filter);
    if all.len() > 0 {
        kept_shape(lowered(branches), lowercase(text::trimmed(filter)), branches.len() as int);
        let i = all[0];
        filter_finds_anywhere(branches, filter, i);
        assert(all.contains(i));
    }
}

/// Whether `c` is the branch of remote `j`, which no local branch and no earlier
/// remote has the name of.
pub open spec fn fills_gap(
    local: Seq<String>,
    remotes: Seq<(String, String)>,
    j: int,
    c: CheckoutCandidate,
) -> bool {
    &&& 0 <= j < remotes.len()
    &&& c.branch == remotes[j].0
    &&& c.remote == Some(remotes[j].1)
    &&& !text::views(local).contains(remotes[j].0@)
    &&& forall|h: int| 0 <= h < j ==> #[trigger] remotes[h].0@ != remotes[j].0@
}

/// Whether `c` is the branch of one of the first `n` remotes that fill a gap.
pub open spec fn of_remotes(
    local: Seq<String>,
    remotes: Seq<(String, String)>,
    n: int,
    c: CheckoutCandidate,
) -> bool {
    exists|j: int| j < n && #[trigger] fills_gap(local, remotes, j, c)
}

/// A branch is offered from a remote just when no local branch has its name, and
/// from the first remote that has it.
pub proof fn remotes_fill_the_gaps(local: Seq<String>, remotes: Seq<(String, String)>, n: int)
    requires
        0 <= n <= remotes.len(),
    ensures
        forall|k: int|
            0 <= k < remote_only(local, remotes, n).len() ==> of_remotes(
                local,
                remotes,
                n,
                #[trigger] remote_only(local, remotes, n)[k],
            ),
        forall|c: CheckoutCandidate| #[trigger]
            of_remotes(local, remotes, n, c) ==> remote_only(local, remotes, n).contains(c),
    decreases n,
{
    if n > 0 {
        remotes_fill_the_gaps(local, remotes, n - 1);
        let above = remote_only(local, remotes, n - 1);
        let all = remote_only(local, remotes, n);
        assert forall|k: int| 0 <= k < all.len() implies of_remotes(
            local,
            remotes,
            n,
            #[trigger] all[k],
        ) by {
            if k < above.len() {
                assert(all[k] == above[k]);
                assert(of_remotes(local, remotes, n - 1, above[k]));
                let j = choose|j: int| j < n - 1 && #[trigger] fills_gap(local, remotes, j, above[k]);
                assert(fills_gap(local, remotes, j, all[k]));
            } else {
                assert(fills_gap(local, remotes, n - 1, all[k]));
            }
        }
        assert forall|c: CheckoutCandidate| #[trigger]
            of_remotes(local, remotes, n, c) implies all.contains(c) by {
            let j = choose|j: int| j < n && #[trigger] fills_gap(local, remotes, j, c);
            if j == n - 1 {
                assert(!seen_remote(remotes, remotes[j].0@, j));
                assert(all.last() == c);
            } else {
                assert(of_remotes(local, remotes, n - 1, c));
                let k = above.index_of(c);
                assert(all[k] == c);
            }
        }
    }
}

/// What can be checked out: a local branch without its remote, and no branch of a
/// remote before the last of them. Without remotes only local ones.
pub proof fn locals_come_first(
    worktrees: Seq<WorktreeInfo>,
    local: Seq<String>,
    remotes: Option<Seq<(String, String)>>,
    j: int,
    k: int,
)
    requires
        0 <= j < k < choices(worktrees, local, remotes).len(),
    ensures
        choices(worktrees, local, remotes)[j].remote is Some ==> choices(
            worktrees,
            local,
            remotes,
        )[k].remote is Some,
        remotes is None ==> choices(worktrees, local, remotes)[k].remote is None,
{
    locals_have_no_remote(local, worktrees, local.len() as int);
    if let Some(r) = remotes {
        remotes_fill_the_gaps(local, r, r.len() as int);
        let n = free_locals(local, worktrees, local.len() as int).len() as int;
        let tail = remote_only(local, r, r.len() as int);
        if k >= n {
            let c = tail[k - n];
            assert(choices(worktrees, local, remotes)[k] == c);
            assert(of_remotes(local, r, r.len() as int, c));
        }
    }
}

proof fn locals_have_no_remote(local: Seq<String>, worktrees: Seq<WorktreeInfo>, n: int)
    requires
        n <= local.len(),
    ensures
        forall|k: int|
            0 <= k < free_locals(local, worktrees, n).len() ==> (#[trigger] free_locals(
                local,
                worktrees,
                n,
            )[k]).remote is None,
    decreases n,
{
    if n > 0 {
        locals_have_no_remote(local, worktrees, n - 1);
    }
}

/// A new branch starts from the branch of the main worktree where that is a local
/// branch, whichever place it has among the worktrees; and always from a local
/// branch where there is one.
pub proof fn base_is_the_main_branch(
    worktrees: Seq<WorktreeInfo>,
    local: Seq<String>,
    i: int,
    b: String,
)
    requires
        0 <= i < worktrees.len(),
        worktrees[i].is_main,
        forall|k: int| 0 <= k < worktrees.len() && (#[trigger] worktrees[k]).is_main ==> k == i,
        worktrees[i].branch == Some(b),
    ensures
        text::views(local).contains(b@) ==> base_for(worktrees, local) == b@,
        !text::views(local).contains(b@) && local.len() > 0 ==> base_for(worktrees, local)
            == local[0]@,
        !text::views(local).contains(b@) && local.len() == 0 ==> base_for(worktrees, local)
            == "HEAD"@,
{
    main_is_found(worktrees, 0, i);
}

/// The main worktree is found wherever it stands.
pub proof fn main_is_found(worktrees: Seq<WorktreeInfo>, from: int, i: int)
    requires
        0 <= from <= i < worktrees.len(),
        worktrees[i].is_main,
        forall|k: int| from <= k < i ==> !(#[trigger] worktrees[k]).is_main,
    ensures
        main_from(worktrees, from) == Some(worktrees[i]),
    decreases i - from,
{
    if from < i {
        main_is_found(worktrees, from + 1, i);
    }
}

} // verus!

//! Marking files: toggling marks, and carrying them over when the list of files
//! changes.

use vstd::prelude::*;
use vstd::string::*;

use crate::rows::StatusEntry;
use crate::text;

verus! {

/// A copy of a list of files.
pub fn copy_files(v: &Vec<StatusEntry>) -> (r: Vec<StatusEntry>)
    ensures
        r@ == v@,
{
    let mut r: Vec<StatusEntry> = Vec::new();
    for i in 0..v.len()
        invariant
            r@ == v@.take(i as int),
    {
        r.push(v[i].clone());
        assert(r@ =~= v@.take(i + 1));
    }
    assert(r@ =~= v@);
    r
}

/// A copy of a list of marks.
pub fn copy_marks(v: &Vec<bool>) -> (r: Vec<bool>)
    ensures
        r@ == v@,
{
    let mut r: Vec<bool> = Vec::new();
    for i in 0..v.len()
        invariant
            r@ == v@.take(i as int),
    {
        r.push(v[i]);
        assert(r@ =~= v@.take(i + 1));
    }
    assert(r@ =~= v@);
    r
}

/// `n` marks that are all `value`.
pub open spec fn all_marks(n: nat, value: bool) -> Seq<bool> {
    Seq::new(n, |i: int| value)
}

/// `n` marks that are all `value`.
pub fn marks(n: usize, value: bool) -> (r: Vec<bool>)
    ensures
        r@ == all_marks(n as nat, value),
{
    let mut r: Vec<bool> = Vec::new();
    let mut i: usize = 0;
    while i < n
        invariant
            i <= n,
            r@ == all_marks(i as nat, value),
        decreases n - i,
    {
        r.push(value);
        i += 1;
        assert(r@ =~= all_marks(i as nat, value));
    }
    r
}

/// Whether every mark is set.
pub open spec fn all_set(m: Seq<bool>) -> bool {
    forall|i: int| 0 <= i < m.len() ==> m[i]
}

/// Every mark cleared when all were set, else every mark set.
pub open spec fn toggled_all(m: Seq<bool>) -> Seq<bool> {
    all_marks(m.len(), !all_set(m))
}

/// Clears every mark when all are set, else sets every mark.
pub fn toggle_all(m: &mut Vec<bool>)
    ensures
        final(m)@ == toggled_all(old(m)@),
{
    let n: usize = m.len();
    let mut all = true;
    let mut i: usize = 0;
    while i < n
        invariant
            n == m@.len(),
            i <= n,
            all == (forall|k: int| 0 <= k < i ==> m@[k]),
        decreases n - i,
    {
        all = all && m[i];
        i += 1;
    }
    *m = marks(n, !all);
}

/// The marks with one of them flipped; none past the end.
pub open spec fn flipped(m: Seq<bool>, i: int) -> Seq<bool> {
    if 0 <= i < m.len() {
        m.update(i, !m[i])
    } else {
        m
    }
}

/// Flips one mark; does nothing past the end.
pub fn flip(m: &mut Vec<bool>, i: usize)
    ensures
        final(m)@ == flipped(old(m)@, i as int),
{
    if i < m.len() {
        let v = m[i];
        m[i] = !v;
    }
}

/// Whether every file beneath the folder `prefix` is marked.
pub open spec fn all_under(files: Seq<StatusEntry>, m: Seq<bool>, prefix: Seq<char>) -> bool {
    forall|i: int|
        0 <= i < files.len() && text::begins(#[trigger] files[i].path@, prefix) ==> i < m.len()
            && m[i]
}

/// The marks with those of the files beneath a folder cleared when all were set,
/// else set.
pub open spec fn toggled_under(
    files: Seq<StatusEntry>,
    m: Seq<bool>,
    prefix: Seq<char>,
) -> Seq<bool> {
    Seq::new(
        m.len(),
        |i: int|
            if i < files.len() && text::begins(files[i].path@, prefix) {
                !all_under(files, m, prefix)
            } else {
                m[i]
            },
    )
}

/// Clears the marks of the files beneath a folder when all are set, else sets
/// them.
pub fn toggle_under(files: &Vec<StatusEntry>, m: &mut Vec<bool>, prefix: &str)
    ensures
        final(m)@ == toggled_under(files@, old(m)@, prefix@),
{
    let ghost m0 = m@;
    let mut all = true;
    let mut i: usize = 0;
    while i < files.len()
        invariant
            m@ == m0,
            i <= files@.len(),
            all == (forall|k: int|
                0 <= k < i && text::begins(#[trigger] files@[k].path@, prefix@) ==> k < m0.len()
                    && m0[k]),
        decreases files@.len() - i,
    {
        if text::starts_with(files[i].path.as_str(), prefix) {
            all = all && i < m.len() && m[i];
        }
        i += 1;
    }
    let mut k: usize = 0;
    while k < files.len() && k < m.len()
        invariant
            k <= files@.len(),
            k <= m@.len(),
            m@.len() == m0.len(),
            all == all_under(files@, m0, prefix@),
            forall|j: int| 0 <= j < k ==> m@[j] == toggled_under(files@, m0, prefix@)[j],
            forall|j: int| k <= j < m0.len() ==> m@[j] == m0[j],
        decreases m@.len() - k,
    {
        if text::starts_with(files[k].path.as_str(), prefix) {
            m[k] = !all;
        }
        k += 1;
    }
    assert(m@ =~= toggled_under(files@, m0, prefix@));
}

/// The paths of the marked files among the first `n`.
pub open spec fn marked_to(files: Seq<StatusEntry>, m: Seq<bool>, n: int) -> Seq<Seq<char>>
    decreases n,
{
    if n <= 0 {
        Seq::empty()
    } else if m[n - 1] {
        marked_to(files, m, n - 1).push(files[n - 1].path@)
    } else {
        marked_to(files, m, n - 1)
    }
}

/// How many files have a mark.
pub open spec fn pairs(files: Seq<StatusEntry>, m: Seq<bool>) -> int {
    if files.len() <= m.len() {
        files.len() as int
    } else {
        m.len() as int
    }
}

/// The paths of the marked files, in order.
pub open spec fn marked_paths(files: Seq<StatusEntry>, m: Seq<bool>) -> Seq<Seq<char>> {
    marked_to(files, m, pairs(files, m))
}

/// The paths of the marked files, in order.
pub fn paths_marked(files: &Vec<StatusEntry>, m: &Vec<bool>) -> (r: Vec<String>)
    ensures
        text::views(r@) == marked_paths(files@, m@),
{
    let mut r: Vec<String> = Vec::new();
    let mut i: usize = 0;
    assert(text::views(r@) =~= marked_to(files@, m@, 0));
    while i < files.len() && i < m.len()
        invariant
            i <= files@.len(),
            i <= m@.len(),
            text::views(r@) == marked_to(files@, m@, i as int),
        decreases files@.len() - i,
    {
        let ghost r0 = r@;
        if m[i] {
            r.push(files[i].path.clone());
            assert(text::views(r@) =~= text::views(r0).push(files@[i as int].path@));
        }
        i += 1;
    }
    r
}

/// The mark of the last of the first `n` files that has this path; set where
/// there is none.
pub open spec fn mark_of(files: Seq<StatusEntry>, m: Seq<bool>, path: Seq<char>, n: int) -> bool
    decreases n,
{
    if n <= 0 {
        true
    } else if files[n - 1].path@ == path {
        m[n - 1]
    } else {
        mark_of(files, m, path, n - 1)
    }
}

/// The marks for a new list of files: those that the files had, by path; new
/// files are marked.
pub open spec fn carried(
    files: Seq<StatusEntry>,
    m: Seq<bool>,
    new_files: Seq<StatusEntry>,
) -> Seq<bool> {
    Seq::new(
        new_files.len(),
        |i: int| mark_of(files, m, new_files[i].path@, pairs(files, m)),
    )
}

/// The mark of the last file that has this path; set where there is none.
fn find_mark(files: &Vec<StatusEntry>, m: &Vec<bool>, path: &str) -> (r: bool)
    ensures
        r == mark_of(files@, m@, path@, pairs(files@, m@)),
{
    let mut n: usize = if files.len() <= m.len() {
        files.len()
    } else {
        m.len()
    };
    while n > 0
        invariant
            n <= files@.len(),
            n <= m@.len(),
            mark_of(files@, m@, path@, pairs(files@, m@)) == mark_of(
                files@,
                m@,
                path@,
                n as int,
            ),
        decreases n,
    {
        if text::same(files[n - 1].path.as_str(), path) {
            return m[n - 1];
        }
        n -= 1;
    }
    true
}

/// The marks for a new list of files: those that the files had, by path; new
/// files are marked.
pub fn carry_marks(files: &Vec<StatusEntry>, m: &Vec<bool>, new_files: &Vec<StatusEntry>) -> (r:
    Vec<bool>)
    ensures
        r@ == carried(files@, m@, new_files@),
{
    let mut r: Vec<bool> = Vec::new();
    let mut i: usize = 0;
    while i < new_files.len()
        invariant
            i <= new_files@.len(),
            r@ == carried(files@, m@, new_files@).take(i as int),
        decreases new_files@.len() - i,
    {
        let ghost r0 = r@;
        r.push(find_mark(files, m, new_files[i].path.as_str()));
        assert(r@ =~= carried(files@, m@, new_files@).take(i + 1));
        i += 1;
    }
    assert(r@ =~= carried(files@, m@, new_files@));
    r
}

/// Toggling all marks twice, from marks that are all set or all clear, leaves
/// them as they were.
pub proof fn toggle_all_undoes(n: nat, value: bool)
    ensures
        toggled_all(toggled_all(all_marks(n, value))) == all_marks(n, value),
{
    let m = all_marks(n, value);
    if n > 0 {
        assert(m[0] == value);
        assert(all_set(m) == value);
        let t = toggled_all(m);
        assert(t[0] == !value);
        assert(all_set(t) == !value);
    }
    assert(toggled_all(toggled_all(m)) =~= m);
}

/// A file that is still in the list when it changes keeps its mark, when no two
/// files have one path.
pub proof fn marks_survive(
    files: Seq<StatusEntry>,
    m: Seq<bool>,
    new_files: Seq<StatusEntry>,
    i: int,
    j: int,
)
    requires
        files.len() == m.len(),
        0 <= i < files.len(),
        0 <= j < new_files.len(),
        files[i].path@ == new_files[j].path@,
        forall|a: int, b: int|
            0 <= a < b < files.len() ==> #[trigger] files[a].path@ != #[trigger] files[b].path@,
    ensures
        carried(files, m, new_files)[j] == m[i],
{
    mark_found(files, m, i, files.len() as int);
}

proof fn mark_found(files: Seq<StatusEntry>, m: Seq<bool>, i: int, n: int)
    requires
        files.len() == m.len(),
        0 <= i < n <= files.len(),
        forall|a: int, b: int|
            0 <= a < b < files.len() ==> #[trigger] files[a].path@ != #[trigger] files[b].path@,
    ensures
        mark_of(files, m, files[i].path@, n) == m[i],
    decreases n,
{
    if i < n - 1 {
        assert(files[i].path@ != files[n - 1].path@);
        mark_found(files, m, i, n - 1);
    }
}

/// Whether `paths` are those of the files at the places `at`, which are just the
/// marked ones in their order.
pub open spec fn picked_at(
    files: Seq<StatusEntry>,
    m: Seq<bool>,
    paths: Seq<Seq<char>>,
    at: Seq<int>,
) -> bool {
    &&& at.len() == paths.len()
    &&& forall|k: int|
        0 <= k < at.len() ==> 0 <= #[trigger] at[k] < files.len() && at[k] < m.len() && m[at[k]]
            && paths[k] == files[at[k]].path@
    &&& forall|k: int, l: int| 0 <= k < l < at.len() ==> #[trigger] at[k] < #[trigger] at[l]
    &&& forall|i: int|
        0 <= i < files.len() && i < m.len() && #[trigger] m[i] ==> at.contains(i)
}

proof fn marked_places(files: Seq<StatusEntry>, m: Seq<bool>, n: int) -> (at: Seq<int>)
    requires
        0 <= n <= files.len(),
        n <= m.len(),
    ensures
        picked_at(files.take(n), m.take(n), marked_to(files, m, n), at),
    decreases n,
{
    if n == 0 {
        Seq::empty()
    } else {
        let before = marked_places(files, m, n - 1);
        let at = if m[n - 1] {
            before.push(n - 1)
        } else {
            before
        };
        assert forall|k: int| 0 <= k < at.len() implies 0 <= #[trigger] at[k] < n && m.take(
            n,
        )[at[k]] && marked_to(files, m, n)[k] == files.take(n)[at[k]].path@ by {
            if k < before.len() {
                assert(at[k] == before[k]);
                assert(m.take(n - 1)[before[k]]);
            }
        }
        assert forall|i: int| 0 <= i < n && #[trigger] m.take(n)[i] implies at.contains(i) by {
            if i < n - 1 {
                assert(m.take(n - 1)[i]);
                let k = before.index_of(i);
                assert(at[k] == i);
            } else {
                assert(at.last() == i);
            }
        }
        at
    }
}

/// What is taken of the files are the paths of the marked ones: every one of
/// them, none of the others, in the order of the list.
pub proof fn just_the_marked(files: Seq<StatusEntry>, m: Seq<bool>)
    requires
        files.len() == m.len(),
    ensures
        exists|at: Seq<int>| #[trigger] picked_at(files, m, marked_paths(files, m), at),
{
    let at = marked_places(files, m, files.len() as int);
    assert(files.take(files.len() as int) =~= files);
    assert(m.take(m.len() as int) =~= m);
    assert(picked_at(files, m, marked_paths(files, m), at));
}

/// One file that is marked is taken, and one that is not marked is left, whatever
/// the marks of the others.
pub proof fn mark_decides(files: Seq<StatusEntry>, m: Seq<bool>, i: int)
    requires
        files.len() == m.len(),
        0 <= i < files.len(),
        forall|a: int, b: int|
            0 <= a < b < files.len() ==> #[trigger] files[a].path@ != #[trigger] files[b].path@,
    ensures
        marked_paths(files, m).contains(files[i].path@) <==> m[i],
{
    just_the_marked(files, m);
    let paths = marked_paths(files, m);
    let at = choose|at: Seq<int>| #[trigger] picked_at(files, m, paths, at);
    if m[i] {
        let k = at.index_of(i);
        assert(at[k] == i);
        assert(paths[k] == files[i].path@);
    }
    if paths.contains(files[i].path@) {
        let k = paths.index_of(files[i].path@);
        assert(files[at[k]].path@ == files[i].path@);
        assert(at[k] == i);
    }
}

/// Toggling all marks sets every mark, unless every mark was set: those are all
/// cleared.
pub proof fn toggling_all_marks(m: Seq<bool>, i: int)
    requires
        0 <= i < m.len(),
    ensures
        toggled_all(m).len() == m.len(),
        toggled_all(m)[i] <==> exists|k: int| 0 <= k < m.len() && !#[trigger] m[k],
{
    assert(all_set(m) <==> !exists|k: int| 0 <= k < m.len() && !#[trigger] m[k]);
}

/// Toggling a folder leaves the marks of files outside it alone, and leaves the
/// files in it all marked or all unmarked: unmarked only when they were all
/// marked before.
pub proof fn toggling_a_folder(
    files: Seq<StatusEntry>,
    m: Seq<bool>,
    prefix: Seq<char>,
    i: int,
)
    requires
        files.len() == m.len(),
        0 <= i < files.len(),
    ensures
        toggled_under(files, m, prefix).len() == m.len(),
        !(files[i].path@.len() >= prefix.len() && files[i].path@.take(prefix.len() as int)
            == prefix) ==> toggled_under(files, m, prefix)[i] == m[i],
        files[i].path@.len() >= prefix.len() && files[i].path@.take(prefix.len() as int) == prefix
            ==> (toggled_under(files, m, prefix)[i] <==> exists|k: int|
            0 <= k < files.len() && #[trigger] files[k].path@.len() >= prefix.len()
                && files[k].path@.take(prefix.len() as int) == prefix && !m[k]),
{
    assert forall|k: int| 0 <= k < files.len() implies text::begins(
        #[trigger] files[k].path@,
        prefix,
    ) == (files[k].path@.len() >= prefix.len() && files[k].path@.take(prefix.len() as int)
        == prefix) by {
        let p = files[k].path@;
        if p.len() >= prefix.len() {
            assert(p.subrange(0, prefix.len() as int) =~= p.take(prefix.len() as int));
        }
    }
}

/// Files that were not in the list before come in marked.
pub proof fn new_files_are_marked(
    files: Seq<StatusEntry>,
    m: Seq<bool>,
    new_files: Seq<StatusEntry>,
    j: int,
)
    requires
        files.len() == m.len(),
        0 <= j < new_files.len(),
        forall|i: int| 0 <= i < files.len() ==> #[trigger] files[i].path@ != new_files[j].path@,
    ensures
        carried(files, m, new_files)[j],
{
    no_mark_found(files, m, new_files[j].path@, files.len() as int);
}

proof fn no_mark_found(files: Seq<StatusEntry>, m: Seq<bool>, path: Seq<char>, n: int)
    requires
        0 <= n <= files.len(),
        forall|i: int| 0 <= i < files.len() ==> #[trigger] files[i].path@ != path,
    ensures
        mark_of(files, m, path, n),
    decreases n,
{
    if n > 0 {
        no_mark_found(files, m, path, n - 1);
    }
}

} // verus!

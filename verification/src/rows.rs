//! The changed-file list: files sorted by path, laid out as a folder tree or
//! flat.

use vstd::prelude::*;
use vstd::string::*;

use crate::text;

verus! {

/// One line of a porcelain status: a two-letter code and a path.
#[derive(Debug)]
pub struct StatusEntry {
    pub code: String,
    pub path: String,
}

impl Clone for StatusEntry {
    fn clone(&self) -> (r: Self)
        ensures
            r == *self,
    {
        StatusEntry { code: self.code.clone(), path: self.path.clone() }
    }
}

/// One line in the changed-file list: a folder that groups the files beneath
/// it, or a single changed file.
#[derive(Debug)]
pub enum DiffRow {
    /// A folder. `prefix` is its path ending in `/`, `label` its last segment.
    Folder { prefix: String, label: String, depth: usize, collapsed: bool },
    /// A changed file; `index` points into the list of files.
    File { index: usize, label: String, depth: usize },
}

/// What a row of the changed-file list shows.
pub enum RowView {
    Folder { prefix: Seq<char>, label: Seq<char>, depth: int, collapsed: bool },
    File { index: int, label: Seq<char>, depth: int },
}

impl View for DiffRow {
    type V = RowView;

    open spec fn view(&self) -> RowView {
        match self {
            DiffRow::Folder { prefix, label, depth, collapsed } => RowView::Folder {
                prefix: prefix@,
                label: label@,
                depth: *depth as int,
                collapsed: *collapsed,
            },
            DiffRow::File { index, label, depth } => RowView::File {
                index: *index as int,
                label: label@,
                depth: *depth as int,
            },
        }
    }
}

/// The views of a list of rows.
pub open spec fn row_views(rows: Seq<DiffRow>) -> Seq<RowView> {
    rows.map_values(|r: DiffRow| r@)
}

/// The paths of a list of files.
pub open spec fn paths(files: Seq<StatusEntry>) -> Seq<Seq<char>> {
    files.map_values(|f: StatusEntry| f.path@)
}

/// A set of folder prefixes.
#[derive(Debug)]
pub struct FolderSet {
    items: Vec<String>,
}

impl View for FolderSet {
    type V = Set<Seq<char>>;

    closed spec fn view(&self) -> Set<Seq<char>> {
        Set::new(|p: Seq<char>| text::views(self.items@).contains(p))
    }
}

/// Where `prefix` is in `items`, if it is.
fn find_item(items: &Vec<String>, prefix: &str) -> (r: Option<usize>)
    ensures
        match r {
            Some(i) => i < items@.len() && items@[i as int]@ == prefix@ && text::views(
                items@,
            ).contains(prefix@),
            None => !text::views(items@).contains(prefix@),
        },
{
    let mut i: usize = 0;
    while i < items.len()
        invariant
            i <= items@.len(),
            forall|j: int| 0 <= j < i ==> #[trigger] items@[j]@ != prefix@,
        decreases items@.len() - i,
    {
        if text::same(items[i].as_str(), prefix) {
            assert(text::views(items@)[i as int] == prefix@);
            return Some(i);
        }
        i += 1;
    }
    assert forall|j: int| 0 <= j < text::views(items@).len() implies text::views(items@)[j]
        != prefix@ by {
        assert(text::views(items@)[j] == items@[j]@);
    }
    None
}

impl FolderSet {
    /// No prefix is held twice.
    #[verifier::type_invariant]
    spec fn holds_once(self) -> bool {
        text::views(self.items@).no_duplicates()
    }

    /// The empty set.
    pub fn new() -> (r: FolderSet)
        ensures
            r@ == Set::<Seq<char>>::empty(),
    {
        let r = FolderSet { items: Vec::new() };
        assert(r@ =~= Set::<Seq<char>>::empty());
        r
    }

    /// Whether `prefix` is in the set.
    pub fn contains(&self, prefix: &str) -> (r: bool)
        ensures
            r == self@.contains(prefix@),
    {
        find_item(&self.items, prefix).is_some()
    }

    /// Puts `prefix` into the set; true when it was not there.
    pub fn insert(&mut self, prefix: String) -> (r: bool)
        ensures
            final(self)@ == old(self)@.insert(prefix@),
            r == !old(self)@.contains(prefix@),
    {
        proof {
            use_type_invariant(&*self);
        }
        let ghost before = text::views(self.items@);
        if self.contains(prefix.as_str()) {
            assert(self@ =~= old(self)@.insert(prefix@));
            return false;
        }
        let mut items: Vec<String> = Vec::new();
        std::mem::swap(&mut items, &mut self.items);
        items.push(prefix);
        let ghost after = text::views(items@);
        proof {
            assert(after =~= before.push(prefix@));
            assert forall|p: Seq<char>| after.contains(p) == (before.contains(p) || p
                == prefix@) by {
                if before.contains(p) {
                    let k = before.index_of(p);
                    assert(after[k] == p);
                }
                if p == prefix@ {
                    assert(after[before.len() as int] == p);
                }
            }
        }
        self.items = items;
        assert(self@ =~= old(self)@.insert(prefix@));
        true
    }

    /// Takes `prefix` out of the set; true when it was there.
    pub fn remove(&mut self, prefix: &str) -> (r: bool)
        ensures
            final(self)@ == old(self)@.remove(prefix@),
            r == old(self)@.contains(prefix@),
    {
        proof {
            use_type_invariant(&*self);
        }
        let ghost before = text::views(self.items@);
        match find_item(&self.items, prefix) {
            Some(i) => {
                let mut items: Vec<String> = Vec::new();
                std::mem::swap(&mut items, &mut self.items);
                let gone = items.remove(i);
                proof {
                    let after = text::views(items@);
                    assert(after =~= before.remove(i as int));
                    assert(before[i as int] == prefix@);
                    assert forall|p: Seq<char>| after.contains(p) == (before.contains(p) && p
                        != prefix@) by {
                        if after.contains(p) {
                            let k = after.index_of(p);
                            if k < i {
                                assert(before[k] == p);
                            } else {
                                assert(before[k + 1] == p);
                            }
                        }
                        if before.contains(p) && p != prefix@ {
                            let k = before.index_of(p);
                            if k < i {
                                assert(after[k] == p);
                            } else {
                                assert(after[k - 1] == p);
                            }
                        }
                    }
                }
                self.items = items;
                assert(self@ =~= old(self)@.remove(prefix@));
                true
            },
            None => {
                assert(self@ =~= old(self)@.remove(prefix@));
                false
            },
        }
    }
}

/// Dictionary order by code point.
pub open spec fn lex_lt(a: Seq<char>, b: Seq<char>) -> bool
    decreases b.len(),
{
    if b.len() == 0 {
        false
    } else if a.len() == 0 {
        true
    } else if a[0] != b[0] {
        (a[0] as int) < b[0] as int
    } else {
        lex_lt(a.drop_first(), b.drop_first())
    }
}

/// Nothing precedes itself, and of two different texts one precedes the other,
/// not both.
pub proof fn lex_total(a: Seq<char>, b: Seq<char>)
    ensures
        !(lex_lt(a, b) && lex_lt(b, a)),
        a == b ==> !lex_lt(a, b),
        a != b ==> lex_lt(a, b) || lex_lt(b, a),
    decreases a.len(),
{
    if a.len() > 0 && b.len() > 0 && a[0] == b[0] {
        lex_total(a.drop_first(), b.drop_first());
        if a.drop_first() == b.drop_first() {
            assert(a =~= seq![a[0]] + a.drop_first());
            assert(b =~= seq![b[0]] + b.drop_first());
        }
    } else if a.len() == 0 && b.len() == 0 {
        assert(a =~= b);
    }
}

/// What precedes a text that precedes a third one precedes the third.
pub proof fn lex_transitive(a: Seq<char>, b: Seq<char>, c: Seq<char>)
    requires
        lex_lt(a, b),
        lex_lt(b, c),
    ensures
        lex_lt(a, c),
    decreases a.len(),
{
    if a.len() > 0 && a[0] == b[0] && b[0] == c[0] {
        lex_transitive(a.drop_first(), b.drop_first(), c.drop_first());
    }
}

/// Whether file `i` comes before file `j` in the list: by path, and where the
/// paths are equal, by position.
pub open spec fn before(p: Seq<Seq<char>>, i: int, j: int) -> bool {
    lex_lt(p[i], p[j]) || (p[i] == p[j] && i < j)
}

/// `order` holds each index of `p` once, in the order of the list.
pub open spec fn is_order(p: Seq<Seq<char>>, order: Seq<int>) -> bool {
    &&& order.len() == p.len()
    &&& forall|i: int| 0 <= i < order.len() ==> 0 <= #[trigger] order[i] < p.len()
    &&& forall|x: int| 0 <= x < p.len() ==> order.contains(x)
    &&& forall|i: int, j: int|
        0 <= i < j < order.len() ==> before(p, #[trigger] order[i], #[trigger] order[j])
}

/// The indices of `p` in the order of the list.
pub open spec fn by_path(p: Seq<Seq<char>>) -> Seq<int> {
    choose|order: Seq<int>| is_order(p, order)
}

/// There is only one order.
pub proof fn order_is_unique(p: Seq<Seq<char>>, a: Seq<int>, b: Seq<int>)
    requires
        is_order(p, a),
        is_order(p, b),
    ensures
        a == b,
{
    order_agrees(p, a, b, a.len() as int);
    assert(a =~= b);
}

proof fn order_agrees(p: Seq<Seq<char>>, a: Seq<int>, b: Seq<int>, n: int)
    requires
        is_order(p, a),
        is_order(p, b),
        0 <= n <= a.len(),
    ensures
        forall|k: int| 0 <= k < n ==> a[k] == b[k],
    decreases n,
{
    if n > 0 {
        order_agrees(p, a, b, n - 1);
        let k = n - 1;
        let x = a[k];
        let y = b[k];
        if x != y {
            assert(b.contains(x));
            let i = b.index_of(x);
            assert(a.contains(y));
            let j = a.index_of(y);
            lex_total(p[x], p[y]);
            if i < k {
                assert(a[i] == b[i]);
                lex_total(p[x], p[x]);
                assert(before(p, a[i], a[k]));
            }
            if j < k {
                assert(a[j] == b[j]);
                lex_total(p[y], p[y]);
                assert(before(p, b[j], b[k]));
            }
            assert(before(p, b[k], b[i]));
            assert(before(p, a[k], a[j]));
        }
    }
}

/// The first place from `k` on in `order` whose file comes after file `n`.
spec fn spot(p: Seq<Seq<char>>, order: Seq<int>, n: int, k: int) -> int
    decreases order.len() - k,
{
    if k >= order.len() || before(p, n, order[k]) {
        k
    } else {
        spot(p, order, n, k + 1)
    }
}

proof fn spot_shape(p: Seq<Seq<char>>, order: Seq<int>, n: int, k: int)
    requires
        0 <= k <= order.len(),
    ensures
        k <= spot(p, order, n, k) <= order.len(),
        forall|i: int| k <= i < spot(p, order, n, k) ==> !before(p, n, #[trigger] order[i]),
        spot(p, order, n, k) < order.len() ==> before(p, n, order[spot(p, order, n, k)]),
    decreases order.len() - k,
{
    if k < order.len() && !before(p, n, order[k]) {
        spot_shape(p, order, n, k + 1);
    }
}

proof fn find_order(p: Seq<Seq<char>>) -> (order: Seq<int>)
    ensures
        is_order(p, order),
    decreases p.len(),
{
    if p.len() == 0 {
        Seq::empty()
    } else {
        let q = p.drop_last();
        let n = q.len() as int;
        let o = find_order(q);
        let k = spot(p, o, n, 0);
        spot_shape(p, o, n, 0);
        let order = o.insert(k, n);
        assert forall|x: int| 0 <= x < p.len() implies order.contains(x) by {
            if x == n {
                assert(order[k] == n);
            } else {
                let i = o.index_of(x);
                assert(o.contains(x));
                assert(order[if i < k {
                    i
                } else {
                    i + 1
                }] == x);
            }
        }
        assert forall|i: int, j: int| 0 <= i < j < order.len() implies before(
            p,
            #[trigger] order[i],
            #[trigger] order[j],
        ) by {
            let a = if i < k {
                i
            } else {
                i - 1
            };
            let b = if j < k {
                j
            } else {
                j - 1
            };
            if i != k && j != k {
                assert(before(q, o[a], o[b]));
            } else if j == k {
                lex_total(p[n], p[o[a]]);
                assert(!before(p, n, o[a]));
            } else {
                assert(before(p, n, o[k]));
                if b > k {
                    assert(before(q, o[k], o[b]));
                    before_transitive(p, n, o[k], o[b]);
                }
            }
        }
        order
    }
}

/// Every list of paths has an order, so that the rows of every changed-file list
/// are well defined: each file once, by path.
pub proof fn by_path_is_order(p: Seq<Seq<char>>)
    ensures
        is_order(p, by_path(p)),
{
    let order = find_order(p);
    assert(is_order(p, order));
}

/// Whether `a` precedes `b`.
fn precedes(a: &Vec<char>, b: &Vec<char>) -> (r: bool)
    ensures
        r == lex_lt(a@, b@),
{
    let mut i: usize = 0;
    assert(a@.skip(0) =~= a@ && b@.skip(0) =~= b@);
    while i < a.len() && i < b.len() && a[i] == b[i]
        invariant
            i <= a@.len(),
            i <= b@.len(),
            lex_lt(a@, b@) == lex_lt(a@.skip(i as int), b@.skip(i as int)),
        decreases a@.len() - i,
    {
        assert(a@.skip(i as int).drop_first() =~= a@.skip(i + 1));
        assert(b@.skip(i as int).drop_first() =~= b@.skip(i + 1));
        i += 1;
    }
    if i >= b.len() {
        false
    } else if i >= a.len() {
        true
    } else {
        text::code_point(a[i]) < text::code_point(b[i])
    }
}

/// The spellings of a list of character lists.
pub open spec fn spelled(keys: Seq<Vec<char>>) -> Seq<Seq<char>> {
    keys.map_values(|k: Vec<char>| k@)
}

/// The indices as integers.
pub open spec fn ints(v: Seq<usize>) -> Seq<int> {
    v.map_values(|i: usize| i as int)
}

/// `v` holds each index from `lo` up to `hi` and none other, in list order.
pub open spec fn ordered_range(p: Seq<Seq<char>>, v: Seq<usize>, lo: int, hi: int) -> bool {
    &&& v.len() == hi - lo
    &&& forall|i: int| 0 <= i < v.len() ==> lo <= #[trigger] v[i] < hi
    &&& forall|x: usize| lo <= x < hi ==> v.contains(x)
    &&& forall|i: int, j: int|
        0 <= i < j < v.len() ==> before(p, (#[trigger] v[i]) as int, (#[trigger] v[j]) as int)
}

/// `a` and `b`, each in order, merged into one list in order.
fn merge(keys: &Vec<Vec<char>>, a: Vec<usize>, b: Vec<usize>, lo: usize, mid: usize, hi: usize) -> (r:
    Vec<usize>)
    requires
        lo <= mid <= hi <= keys@.len(),
        ordered_range(spelled(keys@), a@, lo as int, mid as int),
        ordered_range(spelled(keys@), b@, mid as int, hi as int),
    ensures
        ordered_range(spelled(keys@), r@, lo as int, hi as int),
{
    let ghost p = spelled(keys@);
    let mut r: Vec<usize> = Vec::new();
    let mut i: usize = 0;
    let mut j: usize = 0;
    while i < a.len() || j < b.len()
        invariant
            p == spelled(keys@),
            lo <= mid <= hi <= keys@.len(),
            ordered_range(p, a@, lo as int, mid as int),
            ordered_range(p, b@, mid as int, hi as int),
            i <= a@.len(),
            j <= b@.len(),
            r@.len() == i + j,
            forall|k: int| 0 <= k < r@.len() ==> lo <= #[trigger] r@[k] < hi,
            forall|k: int| 0 <= k < i ==> r@.contains(#[trigger] a@[k]),
            forall|k: int| 0 <= k < j ==> r@.contains(#[trigger] b@[k]),
            forall|k: int, l: int|
                0 <= k < l < r@.len() ==> before(p, (#[trigger] r@[k]) as int, (
                #[trigger] r@[l]) as int),
            forall|k: int, l: int|
                0 <= k < r@.len() && i <= l < a@.len() ==> before(p, (#[trigger] r@[k]) as int, (
                #[trigger] a@[l]) as int),
            forall|k: int, l: int|
                0 <= k < r@.len() && j <= l < b@.len() ==> before(p, (#[trigger] r@[k]) as int, (
                #[trigger] b@[l]) as int),
        decreases a@.len() - i + b@.len() - j,
    {
        let ghost r0 = r@;
        let take_a = if i >= a.len() {
            false
        } else if j >= b.len() {
            true
        } else {
            !precedes(&keys[b[j]], &keys[a[i]])
        };
        if take_a {
            let ghost x = a@[i as int];
            proof {
                if j < b@.len() {
                    let y = b@[j as int];
                    assert(p[x as int] == keys@[x as int]@ && p[y as int] == keys@[y as int]@);
                    lex_total(p[x as int], p[y as int]);
                    assert(before(p, x as int, y as int));
                    assert forall|l: int| j <= l < b@.len() implies before(
                        p,
                        x as int,
                        (#[trigger] b@[l]) as int,
                    ) by {
                        if l > j {
                            before_transitive(p, x as int, y as int, b@[l] as int);
                        }
                    }
                }
            }
            r.push(a[i]);
            i += 1;
            assert(r@[r0.len() as int] == x);
        } else {
            let ghost y = b@[j as int];
            proof {
                if i < a@.len() {
                    let x = a@[i as int];
                    assert(p[x as int] == keys@[x as int]@ && p[y as int] == keys@[y as int]@);
                    assert(before(p, y as int, x as int));
                    assert forall|l: int| i <= l < a@.len() implies before(
                        p,
                        y as int,
                        (#[trigger] a@[l]) as int,
                    ) by {
                        if l > i {
                            before_transitive(p, y as int, x as int, a@[l] as int);
                        }
                    }
                }
            }
            r.push(b[j]);
            j += 1;
            assert(r@[r0.len() as int] == y);
        }
        proof {
            assert forall|z: usize| r0.contains(z) implies r@.contains(z) by {
                let k = r0.index_of(z);
                assert(r@[k] == z);
            }
        }
    }
    proof {
        assert forall|x: usize| lo <= x < hi implies r@.contains(x) by {
            if x < mid {
                assert(a@.contains(x));
                let k = a@.index_of(x);
                assert(r@.contains(a@[k]));
            } else {
                assert(b@.contains(x));
                let k = b@.index_of(x);
                assert(r@.contains(b@[k]));
            }
        }
    }
    r
}

proof fn before_transitive(p: Seq<Seq<char>>, x: int, y: int, z: int)
    requires
        before(p, x, y),
        before(p, y, z),
    ensures
        before(p, x, z),
{
    if lex_lt(p[x], p[y]) && lex_lt(p[y], p[z]) {
        lex_transitive(p[x], p[y], p[z]);
    }
}

/// The indices from `lo` up to `hi` in list order.
fn sort_range(keys: &Vec<Vec<char>>, lo: usize, hi: usize) -> (r: Vec<usize>)
    requires
        lo <= hi <= keys@.len(),
    ensures
        ordered_range(spelled(keys@), r@, lo as int, hi as int),
    decreases hi - lo,
{
    if hi - lo == 0 {
        Vec::new()
    } else if hi - lo == 1 {
        let mut r: Vec<usize> = Vec::new();
        r.push(lo);
        assert(r@[0] == lo);
        r
    } else {
        let mid: usize = lo + (hi - lo) / 2;
        let a = sort_range(keys, lo, mid);
        let b = sort_range(keys, mid, hi);
        merge(keys, a, b, lo, mid, hi)
    }
}

/// The indices of `keys` in dictionary order; equal keys keep their order.
pub fn sort_keys(keys: &Vec<Vec<char>>) -> (r: Vec<usize>)
    ensures
        is_order(spelled(keys@), ints(r@)),
        ints(r@) == by_path(spelled(keys@)),
{
    let n: usize = keys.len();
    let r = sort_range(keys, 0, n);
    proof {
        let p = spelled(keys@);
        let o = ints(r@);
        assert forall|x: int| 0 <= x < p.len() implies o.contains(x) by {
            assert(r@.contains(x as usize));
            let k = r@.index_of(x as usize);
            assert(o[k] == x);
        }
        assert(is_order(p, o));
        order_is_unique(p, o, by_path(p));
    }
    r
}

/// The indices of `files` sorted by path; files with one path keep their order.
pub fn sort_by_path(files: &Vec<StatusEntry>) -> (r: Vec<usize>)
    ensures
        is_order(paths(files@), ints(r@)),
        ints(r@) == by_path(paths(files@)),
{
    let mut keys: Vec<Vec<char>> = Vec::new();
    let mut i: usize = 0;
    while i < files.len()
        invariant
            i <= files@.len(),
            spelled(keys@) == paths(files@).take(i as int),
        decreases files@.len() - i,
    {
        let ghost k0 = keys@;
        keys.push(text::chars_of(files[i].path.as_str()));
        assert(spelled(keys@) =~= spelled(k0).push(files@[i as int].path@));
        assert(paths(files@).take(i + 1) =~= paths(files@).take(i as int).push(
            files@[i as int].path@,
        ));
        i += 1;
    }
    assert(paths(files@).take(files@.len() as int) =~= paths(files@));
    sort_keys(&keys)
}

} // verus!

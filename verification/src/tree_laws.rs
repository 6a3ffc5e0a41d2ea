//! What holds of every changed-file tree.

use vstd::prelude::*;

use crate::rows;
use crate::rows::RowView;
use crate::text;
use crate::tree;

verus! {

/// A file's path begins with the prefix of each folder it lies in.
proof fn path_begins_with_prefix(path: Seq<char>, d: int)
    requires
        1 <= d <= tree::dirs_of(path).len(),
    ensures
        text::begins(path, tree::prefix_at(tree::dirs_of(path), d)),
{
    let parts = text::split(path, '/');
    text::split_join(path, '/');
    text::join_cut(parts, '/', d);
    assert(tree::dirs_of(path).take(d) =~= parts.take(d));
    let prefix = tree::prefix_at(tree::dirs_of(path), d);
    assert(path.subrange(0, prefix.len() as int) =~= prefix);
}

/// A path that begins with the prefix of a folder of `y` lies in that folder.
proof fn prefix_is_folder(x: Seq<char>, y: Seq<char>, d: int)
    requires
        1 <= d <= tree::dirs_of(y).len(),
        text::begins(x, tree::prefix_at(tree::dirs_of(y), d)),
    ensures
        tree::dirs_of(x).len() >= d,
        tree::dirs_of(x).take(d) == tree::dirs_of(y).take(d),
{
    let ds = tree::dirs_of(y).take(d);
    text::split_is_not_empty(y, '/');
    assert forall|i: int| 0 <= i < ds.len() implies !(#[trigger] ds[i]).contains('/') by {
        text::split_pieces_plain(y, '/', i);
        assert(ds[i] == text::split(y, '/')[i]);
    }
    text::join_split(ds, '/');
    let j = text::join(ds, seq!['/']);
    let prefix = j.push('/');
    let rest = x.skip(prefix.len() as int);
    assert(x =~= prefix + rest) by {
        assert(x.subrange(0, prefix.len() as int) == prefix);
        assert(x =~= x.subrange(0, prefix.len() as int) + rest);
    }
    text::split_concat(j, rest, '/');
    text::split_is_not_empty(rest, '/');
    assert(tree::dirs_of(x).take(d) =~= ds);
}

/// What lies between two texts with one beginning has that beginning too.
proof fn between_begins(a: Seq<char>, m: Seq<char>, b: Seq<char>, prefix: Seq<char>)
    requires
        text::begins(a, prefix),
        text::begins(b, prefix),
        a == m || rows::lex_lt(a, m),
        m == b || rows::lex_lt(m, b),
    ensures
        text::begins(m, prefix),
    decreases prefix.len(),
{
    if prefix.len() == 0 {
        assert(m.subrange(0, 0) =~= prefix);
    } else {
        assert(a[0] == a.subrange(0, prefix.len() as int)[0]);
        assert(b[0] == b.subrange(0, prefix.len() as int)[0]);
        let q = prefix.drop_first();
        assert(a.drop_first().subrange(0, q.len() as int) =~= a.subrange(
            0,
            prefix.len() as int,
        ).drop_first());
        assert(b.drop_first().subrange(0, q.len() as int) =~= b.subrange(
            0,
            prefix.len() as int,
        ).drop_first());
        between_begins(a.drop_first(), m.drop_first(), b.drop_first(), q);
        assert(m.subrange(0, prefix.len() as int) =~= seq![m[0]] + m.drop_first().subrange(
            0,
            q.len() as int,
        ));
        assert(prefix =~= seq![prefix[0]] + q);
    }
}

/// The shared count is the longest common beginning.
proof fn shared_is_maximal(a: Seq<Seq<char>>, b: Seq<Seq<char>>, from: int, d: int)
    requires
        0 <= from <= d <= a.len(),
        d <= b.len(),
        a.take(d) == b.take(d),
    ensures
        tree::shared_from(a, b, from) >= d,
    decreases d - from,
{
    if from < d {
        assert(a[from] == a.take(d)[from]);
        assert(b[from] == b.take(d)[from]);
        shared_is_maximal(a, b, from + 1, d);
    } else {
        shared_grows(a, b, from);
    }
}

proof fn shared_grows(a: Seq<Seq<char>>, b: Seq<Seq<char>>, from: int)
    ensures
        tree::shared_from(a, b, from) >= from,
        0 <= from <= a.len() && from <= b.len() ==> tree::shared_from(a, b, from) <= a.len()
            && tree::shared_from(a, b, from) <= b.len(),
        forall|k: int| from <= k < tree::shared_from(a, b, from) ==> #[trigger] a[k] == b[k],
    decreases a.len() - from,
{
    if 0 <= from < a.len() && from < b.len() && a[from] == b[from] {
        shared_grows(a, b, from + 1);
    }
}

/// What the folder rows of one file are.
proof fn folder_rows_shape(dirs: Seq<Seq<char>>, from: int, to: int, c: Set<Seq<char>>)
    requires
        0 <= from,
        to <= dirs.len(),
    ensures
        forall|i: int|
            #![trigger tree::folder_rows(dirs, from, to, c)[i]]
            0 <= i < tree::folder_rows(dirs, from, to, c).len() ==> (tree::folder_rows(
                dirs,
                from,
                to,
                c,
            )[i] matches RowView::Folder { prefix, depth, .. } && from <= depth < to && prefix
                == tree::prefix_at(dirs, depth + 1) && !tree::hidden(dirs, depth, c)),
        forall|i: int, j: int|
            #![trigger tree::folder_rows(dirs, from, to, c)[i], tree::folder_rows(dirs, from, to, c)[j]]
            0 <= i < j < tree::folder_rows(dirs, from, to, c).len() ==> tree::folder_rows(
                dirs,
                from,
                to,
                c,
            )[i]->Folder_depth < tree::folder_rows(dirs, from, to, c)[j]->Folder_depth,
    decreases to - from,
{
    if to > from {
        folder_rows_shape(dirs, from, to - 1, c);
    }
}

/// A folder that no collapsed one hides has its row.
proof fn folder_rows_complete(dirs: Seq<Seq<char>>, from: int, to: int, c: Set<Seq<char>>, d: int)
    requires
        0 <= from < d <= to <= dirs.len(),
        !tree::hidden(dirs, d - 1, c),
    ensures
        tree::folder_rows(dirs, from, to, c).contains(
            (RowView::Folder {
                prefix: tree::prefix_at(dirs, d),
                label: dirs[d - 1],
                depth: d - 1,
                collapsed: c.contains(tree::prefix_at(dirs, d)),
            }),
        ),
    decreases to - from,
{
    let row = RowView::Folder {
        prefix: tree::prefix_at(dirs, d),
        label: dirs[d - 1],
        depth: d - 1,
        collapsed: c.contains(tree::prefix_at(dirs, d)),
    };
    let above = tree::folder_rows(dirs, from, to - 1, c);
    let all = tree::folder_rows(dirs, from, to, c);
    if d == to {
        assert(all[above.len() as int] == row);
    } else {
        folder_rows_complete(dirs, from, to - 1, c, d);
        let k = above.index_of(row);
        assert(all[k] == row);
    }
}

/// Whether `row` belongs to one of the first `n` files: it is that file, not
/// hidden, or a folder on the way to it that no folder above hides.
pub open spec fn row_of(
    p: Seq<Seq<char>>,
    order: Seq<int>,
    n: int,
    c: Set<Seq<char>>,
    row: RowView,
) -> bool {
    match row {
        RowView::File { index, label, depth } => {
            &&& order.take(n).contains(index)
            &&& label == tree::leaf_of(p[index])
            &&& depth == tree::dirs_of(p[index]).len()
            &&& !tree::hidden(tree::dirs_of(p[index]), depth, c)
        },
        RowView::Folder { prefix, depth, .. } => exists|k: int|
            0 <= k < n && #[trigger] folder_on_way(p[order[k]], prefix, depth, c),
    }
}

/// Whether the folder `prefix` lies on the way to `path`, `depth` folders down,
/// and no folder above it is collapsed.
pub open spec fn folder_on_way(
    path: Seq<char>,
    prefix: Seq<char>,
    depth: int,
    c: Set<Seq<char>>,
) -> bool {
    let dirs = tree::dirs_of(path);
    0 <= depth < dirs.len() && prefix == tree::prefix_at(dirs, depth + 1) && !tree::hidden(
        dirs,
        depth,
        c,
    )
}

/// The rows of one file belong to it.
proof fn file_rows_shape(prev: Seq<Seq<char>>, path: Seq<char>, index: int, c: Set<Seq<char>>)
    ensures
        forall|i: int|
            #![trigger tree::file_rows(prev, path, index, c)[i]]
            0 <= i < tree::file_rows(prev, path, index, c).len() ==> match tree::file_rows(
                prev,
                path,
                index,
                c,
            )[i] {
                RowView::File { index: x, label, depth } => x == index && i == tree::file_rows(
                    prev,
                    path,
                    index,
                    c,
                ).len() - 1 && label == tree::leaf_of(path) && depth == tree::dirs_of(path).len()
                    && !tree::hidden(tree::dirs_of(path), depth, c),
                RowView::Folder { prefix, depth, .. } => folder_on_way(path, prefix, depth, c)
                    && depth >= tree::shared(prev, tree::dirs_of(path)),
            },
        forall|i: int, j: int|
            #![trigger tree::file_rows(prev, path, index, c)[i], tree::file_rows(prev, path, index, c)[j]]
            0 <= i < j < tree::file_rows(prev, path, index, c).len() && tree::file_rows(
                prev,
                path,
                index,
                c,
            )[j] is Folder ==> tree::file_rows(prev, path, index, c)[i] is Folder
                && tree::file_rows(prev, path, index, c)[i]->Folder_depth < tree::file_rows(
                prev,
                path,
                index,
                c,
            )[j]->Folder_depth,
{
    let dirs = tree::dirs_of(path);
    shared_grows(prev, dirs, 0);
    folder_rows_shape(dirs, tree::shared(prev, dirs), dirs.len() as int, c);
    let f = tree::folder_rows(dirs, tree::shared(prev, dirs), dirs.len() as int, c);
    let all = tree::file_rows(prev, path, index, c);
    assert forall|i: int| 0 <= i < f.len() implies #[trigger] all[i] == f[i] by {}
}

/// Every row of the tree belongs to one of its files: a file row shows a file
/// that no collapsed folder hides, a folder row a folder on the way to a file
/// that no collapsed folder above hides.
pub proof fn rows_belong(p: Seq<Seq<char>>, order: Seq<int>, n: int, c: Set<Seq<char>>, i: int)
    requires
        rows::is_order(p, order),
        0 <= n <= order.len(),
        0 <= i < tree::tree_rows(p, order, n, c).len(),
    ensures
        row_of(p, order, n, c, tree::tree_rows(p, order, n, c)[i]),
    decreases n,
{
    if n > 0 {
        let done = tree::tree_rows(p, order, n - 1, c);
        let new = tree::file_rows(
            tree::prev_dirs(p, order, n - 1),
            p[order[n - 1]],
            order[n - 1],
            c,
        );
        let row = tree::tree_rows(p, order, n, c)[i];
        assert(order.take(n)[n - 1] == order[n - 1]);
        if i < done.len() {
            rows_belong(p, order, n - 1, c, i);
            match row {
                RowView::File { index, .. } => {
                    let k = order.take(n - 1).index_of(index);
                    assert(order.take(n)[k] == index);
                },
                RowView::Folder { .. } => {},
            }
        } else {
            file_rows_shape(tree::prev_dirs(p, order, n - 1), p[order[n - 1]], order[n - 1], c);
            assert(row == new[i - done.len()]);
            if let RowView::Folder { prefix, depth, .. } = row {
                assert(folder_on_way(p[order[n - 1]], prefix, depth, c));
            }
        }
    }
}

/// A file that no collapsed folder hides has a row.
pub proof fn visible_file_has_row(
    p: Seq<Seq<char>>,
    order: Seq<int>,
    n: int,
    c: Set<Seq<char>>,
    k: int,
)
    requires
        rows::is_order(p, order),
        0 <= k < n <= order.len(),
        !tree::hidden(
            tree::dirs_of(p[order[k]]),
            tree::dirs_of(p[order[k]]).len() as int,
            c,
        ),
    ensures
        tree::tree_rows(p, order, n, c).contains(
            (RowView::File {
                index: order[k],
                label: tree::leaf_of(p[order[k]]),
                depth: tree::dirs_of(p[order[k]]).len() as int,
            }),
        ),
    decreases n,
{
    let row = RowView::File {
        index: order[k],
        label: tree::leaf_of(p[order[k]]),
        depth: tree::dirs_of(p[order[k]]).len() as int,
    };
    let done = tree::tree_rows(p, order, n - 1, c);
    let all = tree::tree_rows(p, order, n, c);
    if k == n - 1 {
        assert(all.last() == row);
    } else {
        visible_file_has_row(p, order, n - 1, c, k);
        let i = done.index_of(row);
        assert(all[i] == row);
    }
}

/// A folder above a file that no folder above it hides has a row.
pub proof fn visible_folder_has_row(
    p: Seq<Seq<char>>,
    order: Seq<int>,
    n: int,
    c: Set<Seq<char>>,
    k: int,
    d: int,
)
    requires
        rows::is_order(p, order),
        0 <= k < n <= order.len(),
        1 <= d <= tree::dirs_of(p[order[k]]).len(),
        !tree::hidden(tree::dirs_of(p[order[k]]), d - 1, c),
    ensures
        tree::tree_rows(p, order, n, c).contains(
            (RowView::Folder {
                prefix: tree::prefix_at(tree::dirs_of(p[order[k]]), d),
                label: tree::dirs_of(p[order[k]])[d - 1],
                depth: d - 1,
                collapsed: c.contains(tree::prefix_at(tree::dirs_of(p[order[k]]), d)),
            }),
        ),
    decreases n,
{
    let dirs = tree::dirs_of(p[order[k]]);
    let row = RowView::Folder {
        prefix: tree::prefix_at(dirs, d),
        label: dirs[d - 1],
        depth: d - 1,
        collapsed: c.contains(tree::prefix_at(dirs, d)),
    };
    let done = tree::tree_rows(p, order, n - 1, c);
    let all = tree::tree_rows(p, order, n, c);
    if k < n - 1 {
        visible_folder_has_row(p, order, n - 1, c, k, d);
        let i = done.index_of(row);
        assert(all[i] == row);
    } else {
        let prev = tree::prev_dirs(p, order, k);
        let from = tree::shared(prev, dirs);
        shared_grows(prev, dirs, 0);
        if d > from {
            folder_rows_complete(dirs, from, dirs.len() as int, c, d);
            let f = tree::folder_rows(dirs, from, dirs.len() as int, c);
            let i = f.index_of(row);
            assert(all[done.len() + i] == row);
        } else {
            assert(prev.take(d) =~= dirs.take(d));
            assert forall|e: int| 1 <= e <= d implies #[trigger] tree::prefix_at(prev, e)
                == tree::prefix_at(dirs, e) by {
                assert(prev.take(e) =~= prev.take(d).take(e));
                assert(dirs.take(e) =~= dirs.take(d).take(e));
            }
            if tree::hidden(prev, d - 1, c) {
                let e = choose|e: int|
                    1 <= e <= d - 1 && #[trigger] c.contains(tree::prefix_at(prev, e));
                assert(c.contains(tree::prefix_at(dirs, e)));
            }
            visible_folder_has_row(p, order, n - 1, c, k - 1, d);
            assert(prev[d - 1] == prev.take(d)[d - 1]);
            assert(dirs[d - 1] == dirs.take(d)[d - 1]);
            let i = done.index_of(row);
            assert(all[i] == row);
        }
    }
}

/// File rows stand in path order, so none stands twice.
pub proof fn file_rows_in_order(
    p: Seq<Seq<char>>,
    order: Seq<int>,
    n: int,
    c: Set<Seq<char>>,
    i: int,
    j: int,
)
    requires
        rows::is_order(p, order),
        0 <= n <= order.len(),
        0 <= i < j < tree::tree_rows(p, order, n, c).len(),
        tree::tree_rows(p, order, n, c)[i] is File,
        tree::tree_rows(p, order, n, c)[j] is File,
    ensures
        rows::before(
            p,
            tree::tree_rows(p, order, n, c)[i]->File_index,
            tree::tree_rows(p, order, n, c)[j]->File_index,
        ),
    decreases n,
{
    let done = tree::tree_rows(p, order, n - 1, c);
    let all = tree::tree_rows(p, order, n, c);
    if j < done.len() {
        file_rows_in_order(p, order, n - 1, c, i, j);
    } else {
        let prev = tree::prev_dirs(p, order, n - 1);
        file_rows_shape(prev, p[order[n - 1]], order[n - 1], c);
        let new = tree::file_rows(prev, p[order[n - 1]], order[n - 1], c);
        assert(all[j] == new[j - done.len()]);
        if i < done.len() {
            rows_belong(p, order, n - 1, c, i);
            let k = order.take(n - 1).index_of(all[i]->File_index);
            assert(order[k] == all[i]->File_index);
        } else {
            assert(all[i] == new[i - done.len()]);
        }
    }
}

/// No folder has two rows.
pub proof fn folder_rows_once(
    p: Seq<Seq<char>>,
    order: Seq<int>,
    n: int,
    c: Set<Seq<char>>,
    i: int,
    j: int,
)
    requires
        rows::is_order(p, order),
        0 <= n <= order.len(),
        0 <= i < j < tree::tree_rows(p, order, n, c).len(),
        tree::tree_rows(p, order, n, c)[i] is Folder,
        tree::tree_rows(p, order, n, c)[j] is Folder,
    ensures
        tree::tree_rows(p, order, n, c)[i]->Folder_prefix != tree::tree_rows(
            p,
            order,
            n,
            c,
        )[j]->Folder_prefix,
    decreases n,
{
    let done = tree::tree_rows(p, order, n - 1, c);
    let all = tree::tree_rows(p, order, n, c);
    if j < done.len() {
        folder_rows_once(p, order, n - 1, c, i, j);
    } else {
        let prev = tree::prev_dirs(p, order, n - 1);
        let path = p[order[n - 1]];
        let dirs = tree::dirs_of(path);
        file_rows_shape(prev, path, order[n - 1], c);
        let new = tree::file_rows(prev, path, order[n - 1], c);
        assert(all[j] == new[j - done.len()]);
        let prefix = all[j]->Folder_prefix;
        let d = all[j]->Folder_depth + 1;
        if i < done.len() {
            if all[i]->Folder_prefix == prefix {
                rows_belong(p, order, n - 1, c, i);
                let depth = all[i]->Folder_depth;
                let k = choose|k: int|
                    0 <= k < n - 1 && #[trigger] folder_on_way(p[order[k]], prefix, depth, c);
                path_begins_with_prefix(p[order[k]], depth + 1);
                path_begins_with_prefix(path, d);
                assert(n - 1 > 0);
                let m = p[order[n - 2]];
                if k < n - 2 {
                    assert(rows::before(p, order[k], order[n - 2]));
                }
                assert(rows::before(p, order[n - 2], order[n - 1]));
                between_begins(p[order[k]], m, path, prefix);
                prefix_is_folder(m, path, d);
                shared_is_maximal(prev, dirs, 0, d);
            }
        } else {
            assert(all[i] == new[i - done.len()]);
            let e = all[i]->Folder_depth + 1;
            prefixes_grow(dirs, e, d);
        }
    }
}

/// The path of a folder is longer than those of the folders it lies in.
proof fn prefixes_grow(dirs: Seq<Seq<char>>, e: int, d: int)
    requires
        1 <= e < d <= dirs.len(),
    ensures
        tree::prefix_at(dirs, e).len() < tree::prefix_at(dirs, d).len(),
{
    text::join_cut(dirs.take(d), '/', e);
    assert(dirs.take(d).take(e) =~= dirs.take(e));
}

} // verus!

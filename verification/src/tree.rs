//! Laying the changed files out as rows.

use vstd::prelude::*;
use vstd::string::*;

use crate::rows;
use crate::rows::{DiffRow, FolderSet, RowView, StatusEntry};
use crate::text;

verus! {

/// The folders on the way to a file: the segments of its path but the last.
pub open spec fn dirs_of(path: Seq<char>) -> Seq<Seq<char>> {
    text::split(path, '/').drop_last()
}

/// The last segment of a path.
pub open spec fn leaf_of(path: Seq<char>) -> Seq<char> {
    text::split(path, '/').last()
}

/// The path of the folder `dirs[..d]`, ending in `/`.
pub open spec fn prefix_at(dirs: Seq<Seq<char>>, d: int) -> Seq<char> {
    text::join(dirs.take(d), seq!['/']).push('/')
}

/// Whether one of the outermost `d` folders is collapsed.
pub open spec fn hidden(dirs: Seq<Seq<char>>, d: int, collapsed: Set<Seq<char>>) -> bool {
    exists|k: int| 1 <= k <= d && #[trigger] collapsed.contains(prefix_at(dirs, k))
}

/// How many leading segments `a` and `b` share, counting from `from` on.
pub open spec fn shared_from(a: Seq<Seq<char>>, b: Seq<Seq<char>>, from: int) -> int
    decreases a.len() - from,
{
    if 0 <= from < a.len() && from < b.len() && a[from] == b[from] {
        shared_from(a, b, from + 1)
    } else {
        from
    }
}

/// How many leading segments `a` and `b` share.
pub open spec fn shared(a: Seq<Seq<char>>, b: Seq<Seq<char>>) -> int {
    shared_from(a, b, 0)
}

/// The rows of the folders `dirs[..from + 1]` up to `dirs[..to]`, without those
/// beneath a collapsed one.
pub open spec fn folder_rows(
    dirs: Seq<Seq<char>>,
    from: int,
    to: int,
    collapsed: Set<Seq<char>>,
) -> Seq<RowView>
    decreases to - from,
{
    if to <= from {
        Seq::empty()
    } else {
        let above = folder_rows(dirs, from, to - 1, collapsed);
        if hidden(dirs, to - 1, collapsed) {
            above
        } else {
            above.push(
                RowView::Folder {
                    prefix: prefix_at(dirs, to),
                    label: dirs[to - 1],
                    depth: to - 1,
                    collapsed: collapsed.contains(prefix_at(dirs, to)),
                },
            )
        }
    }
}

/// The rows that a file adds: its folders that the file before it does not lie
/// in, and itself unless a folder above it is collapsed.
pub open spec fn file_rows(
    prev: Seq<Seq<char>>,
    path: Seq<char>,
    index: int,
    collapsed: Set<Seq<char>>,
) -> Seq<RowView> {
    let dirs = dirs_of(path);
    let folders = folder_rows(dirs, shared(prev, dirs), dirs.len() as int, collapsed);
    if hidden(dirs, dirs.len() as int, collapsed) {
        folders
    } else {
        folders.push(
            RowView::File { index, label: leaf_of(path), depth: dirs.len() as int },
        )
    }
}

/// The folders of the file before position `n` in the list; none at its start.
pub open spec fn prev_dirs(p: Seq<Seq<char>>, order: Seq<int>, n: int) -> Seq<Seq<char>> {
    if n <= 0 {
        Seq::empty()
    } else {
        dirs_of(p[order[n - 1]])
    }
}

/// The tree rows of the first `n` files in list order.
pub open spec fn tree_rows(
    p: Seq<Seq<char>>,
    order: Seq<int>,
    n: int,
    collapsed: Set<Seq<char>>,
) -> Seq<RowView>
    decreases n,
{
    if n <= 0 {
        Seq::empty()
    } else {
        tree_rows(p, order, n - 1, collapsed) + file_rows(
            prev_dirs(p, order, n - 1),
            p[order[n - 1]],
            order[n - 1],
            collapsed,
        )
    }
}

/// The rows of the flat list: each file by its full path.
pub open spec fn flat_rows(p: Seq<Seq<char>>, order: Seq<int>) -> Seq<RowView> {
    order.map_values(|i: int| RowView::File { index: i, label: p[i], depth: 0 })
}

/// The rows of the changed-file list.
pub open spec fn layout(
    files: Seq<StatusEntry>,
    tree: bool,
    collapsed: Set<Seq<char>>,
) -> Seq<RowView> {
    let p = rows::paths(files);
    if tree {
        tree_rows(p, rows::by_path(p), p.len() as int, collapsed)
    } else {
        flat_rows(p, rows::by_path(p))
    }
}

/// Every file row points at one of `count` files.
pub open spec fn rows_fit(rows: Seq<RowView>, count: int) -> bool {
    forall|i: int|
        0 <= i < rows.len() ==> (#[trigger] rows[i] matches RowView::File { index, .. } ==> 0
            <= index < count)
}

/// The path of the folder that the first `d` of `parts` name, ending in `/`.
pub fn folder_prefix(parts: &Vec<String>, d: usize) -> (r: String)
    requires
        d < parts@.len(),
    ensures
        r@ == prefix_at(text::views(parts@).drop_last(), d as int),
{
    proof {
        reveal_strlit("/");
        assert("/"@ =~= seq!['/']);
        assert(text::views(parts@).drop_last().take(d as int) =~= text::views(parts@).take(
            d as int,
        ));
    }
    let mut s = text::join_first(parts, d, "/");
    s.push('/');
    s
}

/// How many leading segments two lists share.
fn shared_len(a: &Vec<String>, parts: &Vec<String>) -> (r: usize)
    requires
        parts@.len() > 0,
    ensures
        r == shared(text::views(a@), text::views(parts@).drop_last()),
        r <= a@.len(),
        r < parts@.len(),
        text::views(a@).take(r as int) == text::views(parts@).take(r as int),
{
    let ghost x = text::views(a@);
    let ghost y = text::views(parts@).drop_last();
    let n: usize = parts.len() - 1;
    let mut i: usize = 0;
    while i < a.len() && i < n && text::same(a[i].as_str(), parts[i].as_str())
        invariant
            x == text::views(a@),
            y == text::views(parts@).drop_last(),
            n == parts@.len() - 1,
            i <= a@.len(),
            i <= n,
            shared(x, y) == shared_from(x, y, i as int),
            forall|k: int| 0 <= k < i ==> #[trigger] x[k] == y[k],
        decreases n - i,
    {
        i += 1;
    }
    assert(x.take(i as int) =~= text::views(parts@).take(i as int));
    i
}

/// Whether one of the outermost `d` folders of `parts` is collapsed.
fn any_collapsed(parts: &Vec<String>, d: usize, collapsed: &FolderSet) -> (r: bool)
    requires
        d < parts@.len(),
    ensures
        r == hidden(text::views(parts@).drop_last(), d as int, collapsed@),
{
    let ghost dirs = text::views(parts@).drop_last();
    let mut k: usize = 0;
    while k < d
        invariant
            d < parts@.len(),
            dirs == text::views(parts@).drop_last(),
            k <= d,
            forall|j: int| 1 <= j <= k ==> !#[trigger] collapsed@.contains(prefix_at(dirs, j)),
        decreases d - k,
    {
        k += 1;
        let prefix = folder_prefix(parts, k);
        if collapsed.contains(prefix.as_str()) {
            assert(collapsed@.contains(prefix_at(dirs, k as int)));
            return true;
        }
    }
    false
}

/// Adds the rows of the folders of `parts` from `from` on; tells whether the
/// innermost one is hidden.
fn push_folders(
    rows: &mut Vec<DiffRow>,
    parts: &Vec<String>,
    from: usize,
    collapsed: &FolderSet,
    count: usize,
) -> (is_hidden: bool)
    requires
        from < parts@.len(),
        rows_fit(rows::row_views(old(rows)@), count as int),
    ensures
        rows::row_views(final(rows)@) == rows::row_views(old(rows)@) + folder_rows(
            text::views(parts@).drop_last(),
            from as int,
            parts@.len() - 1,
            collapsed@,
        ),
        is_hidden == hidden(text::views(parts@).drop_last(), parts@.len() - 1, collapsed@),
        rows_fit(rows::row_views(final(rows)@), count as int),
{
    let ghost dirs = text::views(parts@).drop_last();
    let n: usize = parts.len() - 1;
    let mut is_hidden = any_collapsed(parts, from, collapsed);
    let mut d: usize = from;
    assert(rows::row_views(rows@) =~= rows::row_views(old(rows)@) + folder_rows(
        dirs,
        from as int,
        from as int,
        collapsed@,
    ));
    while d < n
        invariant
            dirs == text::views(parts@).drop_last(),
            n == parts@.len() - 1,
            from <= d <= n,
            is_hidden == hidden(dirs, d as int, collapsed@),
            rows::row_views(rows@) == rows::row_views(old(rows)@) + folder_rows(
                dirs,
                from as int,
                d as int,
                collapsed@,
            ),
            rows_fit(rows::row_views(rows@), count as int),
        decreases n - d,
    {
        let ghost rows0 = rows@;
        let ghost above = folder_rows(dirs, from as int, d as int, collapsed@);
        if !is_hidden {
            let prefix = folder_prefix(parts, d + 1);
            let shut = collapsed.contains(prefix.as_str());
            let label = parts[d].clone();
            assert(label@ == dirs[d as int]);
            rows.push(DiffRow::Folder { prefix, label, depth: d, collapsed: shut });
            is_hidden = shut;
            proof {
                assert(rows::row_views(rows@) =~= rows::row_views(rows0).push(
                    rows@[rows0.len() as int]@,
                ));
                assert(rows::row_views(rows@) =~= rows::row_views(old(rows)@) + folder_rows(
                    dirs,
                    from as int,
                    d + 1,
                    collapsed@,
                ));
                if shut {
                    assert(collapsed@.contains(prefix_at(dirs, d + 1)));
                }
            }
        } else {
            let ghost k = choose|k: int|
                1 <= k <= d && #[trigger] collapsed@.contains(prefix_at(dirs, k));
            assert(collapsed@.contains(prefix_at(dirs, k)));
        }
        d += 1;
    }
    is_hidden
}

/// Builds the folder-tree rows for the changed-file list. Files are sorted by
/// path so that the tree reads top-down; a folder row stands right before the
/// first file in it. A folder whose prefix is in `collapsed` is one row with
/// everything beneath it left out.
pub fn build_diff_rows(files: &Vec<StatusEntry>, collapsed: &FolderSet) -> (rows: Vec<DiffRow>)
    ensures
        rows::row_views(rows@) == layout(files@, true, collapsed@),
        rows_fit(rows::row_views(rows@), files@.len() as int),
{
    let order = rows::sort_by_path(files);
    let ghost p = rows::paths(files@);
    let ghost o = rows::ints(order@);
    let count: usize = files.len();
    let mut rows: Vec<DiffRow> = Vec::new();
    let mut stack: Vec<String> = Vec::new();
    let mut n: usize = 0;
    assert(rows::row_views(rows@) =~= tree_rows(p, o, 0, collapsed@));
    assert(text::views(stack@) =~= prev_dirs(p, o, 0));
    while n < order.len()
        invariant
            p == rows::paths(files@),
            o == rows::ints(order@),
            rows::is_order(p, o),
            count == files@.len(),
            n <= order@.len(),
            text::views(stack@) == prev_dirs(p, o, n as int),
            rows::row_views(rows@) == tree_rows(p, o, n as int, collapsed@),
            rows_fit(rows::row_views(rows@), count as int),
        decreases order@.len() - n,
    {
        let idx: usize = order[n];
        assert(o[n as int] == idx);
        assert(p[idx as int] == files@[idx as int].path@);
        let mut parts = text::split_at(files[idx].path.as_str(), '/');
        proof {
            text::split_is_not_empty(p[idx as int], '/');
            assert(text::views(parts@).len() == parts@.len());
        }
        let ghost dirs = dirs_of(p[idx as int]);
        let ghost before = rows@;
        let common: usize = shared_len(&stack, &parts);
        let is_hidden = push_folders(&mut rows, &parts, common, collapsed, count);
        let ghost folders = rows@;
        let depth: usize = parts.len() - 1;
        let label = parts.pop().unwrap();
        assert(label@ == leaf_of(p[idx as int]));
        assert(text::views(parts@) =~= dirs);
        if !is_hidden {
            rows.push(DiffRow::File { index: idx, label, depth });
            assert(rows::row_views(rows@) =~= rows::row_views(folders).push(
                rows@[folders.len() as int]@,
            ));
        }
        stack = parts;
        proof {
            assert(rows::row_views(rows@) =~= tree_rows(p, o, n + 1, collapsed@));
        }
        n += 1;
    }
    rows
}

/// Builds a flat changed-file list: every file on its own row, labelled by its
/// full path, sorted so that the list reads top-down.
pub fn build_flat_rows(files: &Vec<StatusEntry>) -> (rows: Vec<DiffRow>)
    ensures
        forall|c: Set<Seq<char>>|
            rows::row_views(rows@) == #[trigger] layout(files@, false, c),
        rows_fit(rows::row_views(rows@), files@.len() as int),
{
    let order = rows::sort_by_path(files);
    let ghost p = rows::paths(files@);
    let ghost o = rows::ints(order@);
    let mut rows: Vec<DiffRow> = Vec::new();
    let mut n: usize = 0;
    while n < order.len()
        invariant
            p == rows::paths(files@),
            o == rows::ints(order@),
            rows::is_order(p, o),
            n <= order@.len(),
            rows::row_views(rows@) == flat_rows(p, o).take(n as int),
            rows_fit(rows::row_views(rows@), files@.len() as int),
        decreases order@.len() - n,
    {
        let idx: usize = order[n];
        assert(o[n as int] == idx);
        let ghost before = rows@;
        rows.push(DiffRow::File { index: idx, label: files[idx].path.clone(), depth: 0 });
        assert(rows::row_views(rows@) =~= rows::row_views(before).push(
            rows@[before.len() as int]@,
        ));
        assert(flat_rows(p, o).take(n + 1) =~= flat_rows(p, o).take(n as int).push(
            flat_rows(p, o)[n as int],
        ));
        n += 1;
    }
    assert(flat_rows(p, o).take(n as int) =~= flat_rows(p, o));
    rows
}

/// Builds the changed-file rows as a tree or flat.
pub fn build_rows(files: &Vec<StatusEntry>, tree: bool, collapsed: &FolderSet) -> (rows: Vec<
    DiffRow,
>)
    ensures
        rows::row_views(rows@) == layout(files@, tree, collapsed@),
        rows_fit(rows::row_views(rows@), files@.len() as int),
{
    if tree {
        build_diff_rows(files, collapsed)
    } else {
        build_flat_rows(files)
    }
}

/// Whether a status code marks a file without a committed version to go back
/// to: untracked or newly added.
pub open spec fn new_file(code: Seq<char>) -> bool {
    code.len() > 0 && (code[0] == '?' || code[0] == 'A')
}

/// Whether a status code marks a file without a committed version to go back
/// to: untracked (`??`) or newly added to the index (`A`).
pub fn is_new_file(code: &str) -> (r: bool)
    ensures
        r == new_file(code@),
{
    if code.unicode_len() == 0 {
        return false;
    }
    let c = code.get_char(0);
    c == '?' || c == 'A'
}

/// The file that the row at `cursor` shows; none on a folder or past the end.
pub open spec fn file_at(rows: Seq<DiffRow>, cursor: int) -> Option<usize> {
    if 0 <= cursor < rows.len() {
        match rows[cursor] {
            DiffRow::File { index, .. } => Some(index),
            _ => None,
        }
    } else {
        None
    }
}

/// The `files` index for the row at `cursor`, or `None` when it is a folder.
pub fn current_file_index(rows: &Vec<DiffRow>, cursor: usize) -> (r: Option<usize>)
    ensures
        r == file_at(rows@, cursor as int),
{
    if cursor < rows.len() {
        match &rows[cursor] {
            DiffRow::File { index, .. } => Some(*index),
            _ => None,
        }
    } else {
        None
    }
}

} // verus!

//! The changed-file panes: what the cursor is on, and how it moves through the
//! tree.

use vstd::prelude::*;
use vstd::string::*;

use crate::input::KeyCode;
use crate::rows;
use crate::rows::{DiffRow, FolderSet, RowView, StatusEntry};
use crate::text;
use crate::tree;

verus! {

/// The file that the row at `cursor` shows; none on a folder or past the end.
pub open spec fn file_index(rows: Seq<RowView>, cursor: int) -> Option<int> {
    if 0 <= cursor < rows.len() {
        match rows[cursor] {
            RowView::File { index, .. } => Some(index),
            _ => None,
        }
    } else {
        None
    }
}

/// The file under the cursor.
pub open spec fn entry_at(rows: Seq<RowView>, files: Seq<StatusEntry>, cursor: int) -> Option<
    StatusEntry,
> {
    match file_index(rows, cursor) {
        Some(i) => if 0 <= i < files.len() {
            Some(files[i])
        } else {
            None
        },
        None => None,
    }
}

/// The path of the file under the cursor.
pub open spec fn path_at(rows: Seq<RowView>, files: Seq<StatusEntry>, cursor: int) -> Option<
    Seq<char>,
> {
    match entry_at(rows, files, cursor) {
        Some(e) => Some(e.path@),
        None => None,
    }
}

/// The file under the cursor.
pub fn entry_under(rows: &Vec<DiffRow>, files: &Vec<StatusEntry>, cursor: usize) -> (r: Option<
    StatusEntry,
>)
    ensures
        r == entry_at(rows::row_views(rows@), files@, cursor as int),
{
    match tree::current_file_index(rows, cursor) {
        Some(i) => if i < files.len() {
            Some(files[i].clone())
        } else {
            None
        },
        None => None,
    }
}

/// The first row from `i` on that shows the file with index `file`.
pub open spec fn row_of_file(rows: Seq<RowView>, file: int, i: int) -> Option<int>
    decreases rows.len() - i,
{
    if i < 0 || i >= rows.len() {
        None
    } else if file_index(rows, i) == Some(file) {
        Some(i)
    } else {
        row_of_file(rows, file, i + 1)
    }
}

/// The first row that shows the file with index `file`.
pub fn find_file_row(rows: &Vec<DiffRow>, file: usize) -> (r: Option<usize>)
    ensures
        match r {
            Some(i) => row_of_file(rows::row_views(rows@), file as int, 0) == Some(i as int),
            None => row_of_file(rows::row_views(rows@), file as int, 0) is None,
        },
{
    let ghost all = rows::row_views(rows@);
    let mut i: usize = 0;
    while i < rows.len()
        invariant
            all == rows::row_views(rows@),
            row_of_file(all, file as int, 0) == row_of_file(all, file as int, i as int),
        decreases rows@.len() - i,
    {
        assert(all[i as int] == rows@[i as int]@);
        if let DiffRow::File { index, .. } = &rows[i] {
            if *index == file {
                return Some(i);
            }
        }
        i += 1;
    }
    None
}

/// The first row from `i` on that shows a file with this path.
pub open spec fn row_of_path(
    rows: Seq<RowView>,
    files: Seq<StatusEntry>,
    path: Seq<char>,
    i: int,
) -> Option<int>
    decreases rows.len() - i,
{
    if i < 0 || i >= rows.len() {
        None
    } else if path_at(rows, files, i) == Some(path) {
        Some(i)
    } else {
        row_of_path(rows, files, path, i + 1)
    }
}

/// The row that shows the file with this path; the first row where none does or
/// no path is given.
pub open spec fn row_for(rows: Seq<RowView>, files: Seq<StatusEntry>, path: Option<Seq<char>>) -> int {
    match path {
        Some(p) => match row_of_path(rows, files, p, 0) {
            Some(i) => i,
            None => 0,
        },
        None => 0,
    }
}

/// The row that shows the file with this path; the first row where none does or
/// no path is given.
pub fn find_path_row(rows: &Vec<DiffRow>, files: &Vec<StatusEntry>, path: &Option<String>) -> (r:
    usize)
    ensures
        r == row_for(
            rows::row_views(rows@),
            files@,
            match *path {
                Some(p) => Some(p@),
                None => None,
            },
        ),
{
    if let Some(p) = path {
        let ghost all = rows::row_views(rows@);
        let mut i: usize = 0;
        while i < rows.len()
            invariant
                *path == Some(*p),
                all == rows::row_views(rows@),
                row_of_path(all, files@, p@, 0) == row_of_path(all, files@, p@, i as int),
            decreases rows@.len() - i,
        {
            assert(all[i as int] == rows@[i as int]@);
            if let DiffRow::File { index, .. } = &rows[i] {
                if *index < files.len() && text::same(files[*index].path.as_str(), p.as_str()) {
                    return i;
                }
            }
            i += 1;
        }
    }
    0
}

/// The first row from `i` on that is the folder `prefix`.
pub open spec fn row_of_folder(rows: Seq<RowView>, prefix: Seq<char>, i: int) -> int
    decreases rows.len() - i,
{
    if i < 0 || i >= rows.len() {
        0
    } else if rows[i] is Folder && rows[i]->Folder_prefix == prefix {
        i
    } else {
        row_of_folder(rows, prefix, i + 1)
    }
}

/// The row that is the folder `prefix`; the first row where none is.
pub fn find_folder_row(rows: &Vec<DiffRow>, prefix: &str) -> (r: usize)
    ensures
        r == row_of_folder(rows::row_views(rows@), prefix@, 0),
{
    let ghost all = rows::row_views(rows@);
    let mut i: usize = 0;
    while i < rows.len()
        invariant
            all == rows::row_views(rows@),
            row_of_folder(all, prefix@, 0) == row_of_folder(all, prefix@, i as int),
        decreases rows@.len() - i,
    {
        assert(all[i as int] == rows@[i as int]@);
        if let DiffRow::Folder { prefix: p, .. } = &rows[i] {
            if text::same(p.as_str(), prefix) {
                return i;
            }
        }
        i += 1;
    }
    0
}

/// How deep a row lies.
pub open spec fn depth_of(row: RowView) -> int {
    match row {
        RowView::Folder { depth, .. } => depth,
        RowView::File { depth, .. } => depth,
    }
}

/// The last folder row before `i` that lies less deep than `depth`.
pub open spec fn folder_above(rows: Seq<RowView>, depth: int, i: int) -> Option<int>
    decreases i,
{
    if i <= 0 || i > rows.len() {
        None
    } else if rows[i - 1] is Folder && depth_of(rows[i - 1]) < depth {
        Some(i - 1)
    } else {
        folder_above(rows, depth, i - 1)
    }
}

/// The last folder row before `i` that lies less deep than `depth`.
pub fn find_folder_above(rows: &Vec<DiffRow>, depth: usize, i: usize) -> (r: Option<usize>)
    requires
        i <= rows@.len(),
    ensures
        match r {
            Some(k) => folder_above(rows::row_views(rows@), depth as int, i as int) == Some(
                k as int,
            ),
            None => folder_above(rows::row_views(rows@), depth as int, i as int) is None,
        },
{
    let ghost all = rows::row_views(rows@);
    let mut k: usize = i;
    while k > 0
        invariant
            k <= i <= rows@.len(),
            all == rows::row_views(rows@),
            folder_above(all, depth as int, i as int) == folder_above(
                all,
                depth as int,
                k as int,
            ),
        decreases k,
    {
        assert(all[k - 1] == rows@[k - 1]@);
        if let DiffRow::Folder { depth: d, .. } = &rows[k - 1] {
            if *d < depth {
                return Some(k - 1);
            }
        }
        k -= 1;
    }
    None
}

/// A tree of changed files: the collapsed folders, the rows, and the cursor.
#[verifier::ext_equal]
pub struct Pane {
    pub collapsed: Set<Seq<char>>,
    pub rows: Seq<RowView>,
    pub selected: int,
}

impl Pane {
    /// With a folder collapsed that was open, or opened that was collapsed, and
    /// the cursor on it.
    pub open spec fn toggled(self, files: Seq<StatusEntry>, prefix: Seq<char>) -> Pane {
        let collapsed = if self.collapsed.contains(prefix) {
            self.collapsed.remove(prefix)
        } else {
            self.collapsed.insert(prefix)
        };
        let rows = tree::layout(files, true, collapsed);
        Pane { collapsed, rows, selected: row_of_folder(rows, prefix, 0) }
    }

    /// With the cursor on the folder above; none where there is none.
    pub open spec fn to_parent(self) -> Option<Pane> {
        match folder_above(self.rows, depth_of(self.rows[self.selected]), self.selected) {
            Some(i) => Some(Pane { selected: i, ..self }),
            None => None,
        }
    }

    /// The pane after a key that moves through the tree; none where the key does
    /// nothing. Left collapses an open folder, and goes to the folder above from
    /// anything else. Right opens a collapsed folder and steps into an open one.
    /// Enter collapses or opens a folder.
    pub open spec fn moved(self, files: Seq<StatusEntry>, code: KeyCode) -> Option<Pane> {
        let left = code is Left || code == KeyCode::Char('h');
        let right = code is Right || code == KeyCode::Char('l');
        if !(0 <= self.selected < self.rows.len()) {
            None
        } else {
            match self.rows[self.selected] {
                RowView::Folder { prefix, collapsed, .. } => if left {
                    if collapsed {
                        self.to_parent()
                    } else {
                        Some(self.toggled(files, prefix))
                    }
                } else if right {
                    if collapsed {
                        Some(self.toggled(files, prefix))
                    } else if self.selected + 1 < self.rows.len() {
                        Some(Pane { selected: self.selected + 1, ..self })
                    } else {
                        None
                    }
                } else if code is Enter {
                    Some(self.toggled(files, prefix))
                } else {
                    None
                },
                RowView::File { .. } => if left {
                    self.to_parent()
                } else {
                    None
                },
            }
        }
    }
}

/// Moves through the tree by a key: true when something changed, so that the
/// diff under the cursor has to be read.
pub fn tree_step(
    files: &Vec<StatusEntry>,
    rows: &mut Vec<DiffRow>,
    selected: &mut usize,
    collapsed: &mut FolderSet,
    code: KeyCode,
) -> (r: bool)
    requires
        tree::rows_fit(rows::row_views(old(rows)@), files@.len() as int),
    ensures
        ({
            let before = Pane {
                collapsed: old(collapsed)@,
                rows: rows::row_views(old(rows)@),
                selected: *old(selected) as int,
            };
            let after = Pane {
                collapsed: final(collapsed)@,
                rows: rows::row_views(final(rows)@),
                selected: *final(selected) as int,
            };
            match before.moved(files@, code) {
                Some(p) => r && after == p,
                None => !r && after == before,
            }
        }),
        tree::rows_fit(rows::row_views(final(rows)@), files@.len() as int),
{
    let ghost all = rows::row_views(rows@);
    let left = code == KeyCode::Left || code == KeyCode::Char('h');
    let right = code == KeyCode::Right || code == KeyCode::Char('l');
    if *selected >= rows.len() {
        return false;
    }
    assert(all[*selected as int] == rows@[*selected as int]@);
    let (depth, toggle, into) = match &rows[*selected] {
        DiffRow::Folder { prefix, collapsed: shut, depth, .. } => {
            if (left && !*shut) || (right && *shut) || code == KeyCode::Enter {
                (*depth, Some(prefix.clone()), false)
            } else {
                (*depth, None, right)
            }
        },
        DiffRow::File { depth, .. } => (*depth, None, false),
    };
    if let Some(prefix) = toggle {
        let was_shut = collapsed.remove(prefix.as_str());
        if !was_shut {
            assert(old(collapsed)@.remove(prefix@) =~= old(collapsed)@);
            collapsed.insert(prefix.clone());
        }
        *rows = tree::build_diff_rows(files, collapsed);
        *selected = find_folder_row(rows, prefix.as_str());
        return true;
    }
    if into {
        if *selected < rows.len() - 1 {
            *selected = *selected + 1;
            return true;
        }
        return false;
    }
    if left {
        if let Some(i) = find_folder_above(rows, depth, *selected) {
            *selected = i;
            return true;
        }
    }
    false
}

} // verus!

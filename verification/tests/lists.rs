use wtm::geometry::{Rect, RowList};
use wtm::input::{HunkEditor, KeyCode, KeyEvent};
use wtm::model::{first_commit_row, flat_lines, seek_commit_row, GraphLine, LogEntry};
use wtm::rows::{DiffRow, FolderSet, StatusEntry};
use wtm::tree::{build_diff_rows, build_rows, current_file_index, is_new_file};

fn entry(code: &str, path: &str) -> StatusEntry {
    StatusEntry { code: code.to_string(), path: path.to_string() }
}

fn log_entry(hash: &str) -> LogEntry {
    LogEntry {
        hash: hash.to_string(),
        subject: String::new(),
        author: String::new(),
        date: String::new(),
        refs: Vec::new(),
    }
}

fn rect(x: u16, y: u16, width: u16, height: u16) -> Rect {
    Rect { x, y, width, height }
}

#[test]
fn is_new_file_flags_untracked_and_added_codes() {
    assert!(is_new_file("??"));
    assert!(is_new_file("A "));
    assert!(is_new_file("AM"));
    assert!(!is_new_file(" M"));
    assert!(!is_new_file("M "));
    assert!(!is_new_file(" D"));
}

#[test]
fn row_list_hit_maps_clicks_to_indices() {
    let rl = RowList { inner: rect(2, 5, 20, 4), header: 1, offset: 3, len: 100 };
    assert_eq!(rl.hit(3, 5), None, "the header row is not a data row");
    assert_eq!(rl.hit(3, 6), Some(3), "first data row maps to the offset");
    assert_eq!(rl.hit(3, 7), Some(4));
    assert_eq!(rl.hit(3, 8), Some(5), "last visible row");
    assert_eq!(rl.hit(3, 9), None, "below the list");
    assert_eq!(rl.hit(1, 6), None, "left of the list");
    assert_eq!(rl.hit(22, 6), None, "right of the list");

    let short = RowList { inner: rect(0, 0, 10, 10), header: 0, offset: 0, len: 2 };
    assert_eq!(short.hit(0, 0), Some(0));
    assert_eq!(short.hit(0, 1), Some(1));
    assert_eq!(short.hit(0, 2), None, "no row there");
}

#[test]
fn a_list_at_the_edge_of_the_grid_is_hit_without_overflow() {
    let rl = RowList { inner: rect(u16::MAX, u16::MAX, 5, 5), header: 0, offset: 0, len: 9 };
    assert_eq!(rl.hit(u16::MAX, u16::MAX), Some(0));
    assert!(rl.contains(u16::MAX, u16::MAX));
    assert!(!rl.contains(u16::MAX - 1, u16::MAX));
}

#[test]
fn build_diff_rows_groups_files_into_a_folder_tree() {
    let files = vec![
        entry(" M", "src/tui/app.rs"),
        entry(" M", "src/tui/ui.rs"),
        entry(" M", "README.md"),
    ];
    let rows = build_diff_rows(&files, &FolderSet::new());
    let shape: Vec<String> = rows
        .iter()
        .map(|r| match r {
            DiffRow::Folder { prefix, depth, .. } => format!("D{depth}:{prefix}"),
            DiffRow::File { index, depth, .. } => format!("F{depth}:{}", files[*index].path),
        })
        .collect();
    assert_eq!(
        shape,
        vec![
            "F0:README.md",
            "D0:src/",
            "D1:src/tui/",
            "F2:src/tui/app.rs",
            "F2:src/tui/ui.rs",
        ]
    );
}

#[test]
fn flat_rows_drop_folder_grouping() {
    let files = vec![entry(" M", "src/app.rs"), entry(" M", "README.md")];
    let tree = build_rows(&files, true, &FolderSet::new());
    assert!(tree.iter().any(|r| matches!(r, DiffRow::Folder { .. })));
    let flat = build_rows(&files, false, &FolderSet::new());
    assert!(flat.iter().all(|r| matches!(r, DiffRow::File { .. })));
    let labels: Vec<&str> = flat
        .iter()
        .filter_map(|r| match r {
            DiffRow::File { label, .. } => Some(label.as_str()),
            _ => None,
        })
        .collect();
    assert_eq!(labels, vec!["README.md", "src/app.rs"]);
}

#[test]
fn collapsed_folders_hide_their_files_in_the_rows() {
    let files = vec![entry(" M", "src/tui/app.rs"), entry(" M", "README.md")];
    let mut collapsed = FolderSet::new();
    collapsed.insert("src/".to_string());
    let rows = build_diff_rows(&files, &collapsed);
    assert_eq!(rows.len(), 2);
    assert!(matches!(
        rows.get(1),
        Some(DiffRow::Folder { collapsed: true, .. })
    ));
}

#[test]
fn a_collapsed_inner_folder_keeps_its_parent_open() {
    let files = vec![
        entry(" M", "a/b/c.rs"),
        entry(" M", "a/d.rs"),
        entry(" M", "a/b/e.rs"),
    ];
    let mut collapsed = FolderSet::new();
    collapsed.insert("a/b/".to_string());
    let rows = build_diff_rows(&files, &collapsed);
    let shape: Vec<String> = rows
        .iter()
        .map(|r| match r {
            DiffRow::Folder { label, collapsed, .. } => format!("{label}:{collapsed}"),
            DiffRow::File { index, label, .. } => format!("{label}@{index}"),
        })
        .collect();
    assert_eq!(shape, vec!["a:false", "b:true", "d.rs@1"]);
    assert_eq!(current_file_index(&rows, 0), None);
    assert_eq!(current_file_index(&rows, 2), Some(1));
    assert_eq!(current_file_index(&rows, 3), None);
}

#[test]
fn equal_paths_keep_their_positions() {
    let files = vec![entry(" M", "b"), entry("??", "a"), entry(" D", "b")];
    let rows = build_rows(&files, false, &FolderSet::new());
    let order: Vec<usize> = (0..3).filter_map(|i| current_file_index(&rows, i)).collect();
    assert_eq!(order, vec![1, 0, 2]);
}

#[test]
fn branch_commits_cursor_skips_graph_art_rows() {
    let lines = vec![
        GraphLine { graph: "* ".into(), entry: Some(log_entry("aaa")) },
        GraphLine { graph: "|\\".into(), entry: None },
        GraphLine { graph: "| *".into(), entry: Some(log_entry("bbb")) },
    ];
    assert_eq!(first_commit_row(&lines), 0);
    assert_eq!(seek_commit_row(&lines, 0, true), Some(2));
    assert_eq!(seek_commit_row(&lines, 2, false), Some(0));
    assert_eq!(seek_commit_row(&lines, 2, true), None);
    assert_eq!(seek_commit_row(&lines, 0, false), None);
    let leading = vec![
        GraphLine { graph: "|\\".into(), entry: None },
        GraphLine { graph: "* ".into(), entry: Some(log_entry("aaa")) },
    ];
    assert_eq!(first_commit_row(&leading), 1);
}

#[test]
fn flat_lines_hold_one_commit_each() {
    let lines = flat_lines(vec![log_entry("aaa"), log_entry("bbb")]);
    assert_eq!(lines.len(), 2);
    assert!(lines.iter().all(|l| l.graph.is_empty()));
    assert_eq!(lines[0].entry.as_ref().unwrap().hash, "aaa");
    assert_eq!(lines[1].entry.as_ref().unwrap().hash, "bbb");
    assert_eq!(first_commit_row(&Vec::new()), 0);
}

#[test]
fn hunk_editor_edits_and_round_trips() {
    let mut ed = HunkEditor::new("ab\ncd\n");
    assert_eq!(ed.lines, vec!["ab", "cd"]);
    ed.on_key(KeyEvent::plain(KeyCode::Char('X')));
    assert_eq!(ed.lines[0], "Xab");
    ed.on_key(KeyEvent::plain(KeyCode::Enter));
    assert_eq!(ed.lines, vec!["X", "ab", "cd"]);
    ed.on_key(KeyEvent::plain(KeyCode::Backspace));
    assert_eq!(ed.lines, vec!["Xab", "cd"]);
    assert_eq!(ed.text(), "Xab\ncd\n");
}

#[test]
fn hunk_editor_moves_and_deletes_across_lines() {
    let mut ed = HunkEditor::new("äb\nc");
    ed.on_key(KeyEvent::plain(KeyCode::End));
    ed.on_key(KeyEvent::plain(KeyCode::Delete));
    assert_eq!(ed.text(), "äbc");
    ed.on_key(KeyEvent::plain(KeyCode::Home));
    ed.on_key(KeyEvent::plain(KeyCode::Delete));
    assert_eq!(ed.text(), "bc");
    let empty = HunkEditor::new("");
    assert_eq!(empty.lines, vec![""]);
    assert_eq!(empty.text(), "");
}

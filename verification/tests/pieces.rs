use wtm::candidates::{filtered_candidates, CheckoutCandidate};
use wtm::highlight::{cycle_theme, set_theme, Highlight, DIFF_THEMES};
use wtm::input::{HunkEditor, KeyCode, KeyEvent, TextInput};
use wtm::marks::{carry_marks, flip, marks, paths_marked, toggle_all, toggle_under};
use wtm::modal::{on_confirm_key, ConfirmOption, ModalResult};
use wtm::rows::{FolderSet, StatusEntry};
use wtm::text;

fn entry(path: &str) -> StatusEntry {
    StatusEntry { code: " M".to_string(), path: path.to_string() }
}

fn candidate(branch: &str) -> CheckoutCandidate {
    CheckoutCandidate { branch: branch.to_string(), remote: None }
}

#[test]
fn a_blank_filter_keeps_every_branch() {
    let all = vec![candidate("Ärger"), candidate("main"), candidate("fix")];
    assert_eq!(filtered_candidates(&all, ""), vec![0, 1, 2]);
    assert_eq!(filtered_candidates(&all, " \t\u{a0}"), vec![0, 1, 2]);
    assert_eq!(filtered_candidates(&all, "  MAI "), vec![1]);
    assert_eq!(filtered_candidates(&all, "ÄRG"), vec![0]);
    assert!(filtered_candidates(&all, "zzz").is_empty());
    assert!(filtered_candidates(&all, "Ärger").contains(&0));
}

#[test]
fn marks_follow_their_paths() {
    let old = vec![entry("a"), entry("b"), entry("c")];
    let new = vec![entry("c"), entry("new"), entry("a")];
    let m = vec![false, true, true];
    assert_eq!(carry_marks(&old, &m, &new), vec![true, true, false]);
    assert_eq!(paths_marked(&old, &m), vec!["b", "c"]);
}

#[test]
fn toggling_marks_comes_back() {
    let mut m = vec![true, false];
    toggle_all(&mut m);
    assert_eq!(m, vec![true, true]);
    toggle_all(&mut m);
    assert_eq!(m, vec![false, false]);
    flip(&mut m, 1);
    assert_eq!(m, vec![false, true]);
    flip(&mut m, 7);
    assert_eq!(m, vec![false, true]);
    assert_eq!(marks(2, true), vec![true, true]);
}

#[test]
fn a_folder_is_marked_as_a_whole() {
    let files = vec![entry("pkg/a"), entry("pkg/b"), entry("top")];
    let mut m = vec![true, false, false];
    toggle_under(&files, &mut m, "pkg/");
    assert_eq!(m, vec![true, true, false]);
    toggle_under(&files, &mut m, "pkg/");
    assert_eq!(m, vec![false, false, false]);
}

#[test]
fn destructive_shortcuts_need_shift() {
    let o = ConfirmOption::new("force").key('f').destructive();
    assert_eq!(o.shortcut(), Some('F'));
    assert_eq!(ConfirmOption::new("keep").key('k').shortcut(), Some('k'));
    assert_eq!(ConfirmOption::new("plain").shortcut(), None);
}

#[test]
fn the_highlight_skips_what_cannot_be_chosen() {
    let options = vec![
        ConfirmOption::new("a").key('a'),
        ConfirmOption::new("b").key('b').enabled(false),
        ConfirmOption::new("c").key('c').destructive(),
    ];
    let mut at = 0;
    assert!(on_confirm_key(&options, &mut at, KeyCode::Down).is_none());
    assert_eq!(at, 2);
    assert!(on_confirm_key(&options, &mut at, KeyCode::Down).is_none());
    assert_eq!(at, 2);
    assert!(on_confirm_key(&options, &mut at, KeyCode::Tab).is_none());
    assert_eq!(at, 0);
    assert!(on_confirm_key(&options, &mut at, KeyCode::Up).is_none());
    assert_eq!(at, 0);
    assert!(on_confirm_key(&options, &mut at, KeyCode::Char('b')).is_none());
    assert!(on_confirm_key(&options, &mut at, KeyCode::Char('c')).is_none());
    assert!(matches!(
        on_confirm_key(&options, &mut at, KeyCode::Char('C')),
        Some(ModalResult::Confirmed(2))
    ));
    assert!(matches!(
        on_confirm_key(&options, &mut at, KeyCode::Char('n')),
        Some(ModalResult::Cancelled)
    ));
}

#[test]
fn typing_and_backspace_undo_each_other() {
    let mut t = TextInput::with_value("äöü".to_string());
    t.on_key(KeyEvent::plain(KeyCode::Left));
    t.on_key(KeyEvent::plain(KeyCode::Char('x')));
    assert_eq!(t.as_str(), "äöxü");
    t.on_key(KeyEvent::plain(KeyCode::Backspace));
    assert_eq!(t.as_str(), "äöü");
    assert_eq!(t.cursor, 2);
    t.on_key(KeyEvent::plain(KeyCode::Delete));
    assert_eq!(t.as_str(), "äö");
    t.on_key(KeyEvent::plain(KeyCode::Home));
    t.on_key(KeyEvent::plain(KeyCode::Left));
    assert_eq!(t.cursor, 0);
    assert!(!t.on_key(KeyEvent::plain(KeyCode::Enter)));
    assert_eq!(TextInput::with_value("  a b ".to_string()).trimmed(), "a b");
}

#[test]
fn splitting_and_joining_lines_undo_each_other() {
    for seed in ["", "\n", "a", "a\n", "a\nb", "a\n\nb\n"] {
        let mut ed = HunkEditor::new(seed);
        assert_eq!(ed.text(), seed, "{seed:?}");
        ed.on_key(KeyEvent::plain(KeyCode::Enter));
        ed.on_key(KeyEvent::plain(KeyCode::Backspace));
        assert_eq!(ed.text(), seed, "{seed:?}");
    }
}

#[test]
fn cycling_themes_has_the_catalogue_as_its_period() {
    let mut h = Highlight::new();
    set_theme(&mut h, "github");
    let mut seen = Vec::new();
    for _ in 0..DIFF_THEMES.len() {
        seen.push(cycle_theme(&mut h));
    }
    assert_eq!(seen, vec!["eighties", "mocha", "ocean", "solarized", "github"]);
}

#[test]
fn a_folder_set_holds_each_prefix_once() {
    let mut set = FolderSet::new();
    assert!(set.insert("a/".to_string()));
    assert!(!set.insert("a/".to_string()));
    assert!(set.contains("a/"));
    assert!(set.remove("a/"));
    assert!(!set.remove("a/"));
    assert!(!set.contains("a/"));
}

#[test]
fn texts_are_taken_apart_like_the_standard_library_does() {
    for s in ["", "a", "a\n", "a\r\nb", "\n\n", "x\r", "ä,ö,"] {
        let lines: Vec<String> = s.lines().map(str::to_string).collect();
        assert_eq!(text::lines(s), lines, "{s:?}");
        let parts: Vec<String> = s.split(',').map(str::to_string).collect();
        assert_eq!(text::split_at(s, ','), parts, "{s:?}");
        assert_eq!(text::trim(s), s.trim(), "{s:?}");
        assert_eq!(text::starts_with(s, "a"), s.starts_with('a'));
        assert_eq!(text::ends_with(s, ","), s.ends_with(','));
        assert_eq!(text::contains(s, "\n"), s.contains('\n'));
    }
    for n in [0, 9, 10, 4000, usize::MAX] {
        assert_eq!(text::dec(n), n.to_string());
    }
    for code in 0..0x3100u32 {
        if let Some(c) = char::from_u32(code) {
            assert_eq!(text::white(c), c.is_whitespace(), "{code:x}");
            assert_eq!(text::to_ascii_lower(c), c.to_ascii_lowercase());
            assert_eq!(text::to_ascii_upper(c), c.to_ascii_uppercase());
        }
    }
}

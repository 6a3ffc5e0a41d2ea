use wtm::highlight::{
    active_theme_id, code_line, cycle_theme, diff_lines, normalize_theme_id, render, set_theme,
    theme_label, theme_preview_lines, Highlight, DEFAULT_DIFF_THEME, DIFF_THEMES,
    MAX_HIGHLIGHT_LINES, THEME_PREVIEW_SAMPLE,
};
use wtm::theme::{Color, INFO};

const ADD_BG: Color = Color::Rgb(16, 60, 30);
const DEL_BG: Color = Color::Rgb(72, 24, 24);

#[test]
fn added_and_removed_lines_get_background_tints() {
    let h = Highlight::new();
    let diff = "diff --git a/x.rs b/x.rs\n@@ -1,2 +1,2 @@\n-let a = 1;\n+let a = 2;\n context";
    let lines = render(&h, "x.rs", diff);
    assert_eq!(lines.len(), 5);
    assert_eq!(lines[0].style.fg, Some(INFO));
    assert_eq!(lines[1].style.fg, Some(Color::Cyan));
    assert!(lines[2].spans.iter().all(|s| s.style.bg == Some(DEL_BG)));
    assert!(lines[3].spans.iter().all(|s| s.style.bg == Some(ADD_BG)));
    assert!(lines[4].spans.iter().all(|s| s.style.bg.is_none()));
}

#[test]
fn known_extensions_get_syntax_colors() {
    let h = Highlight::new();
    let diff = "@@ -0,0 +1 @@\n+fn main() {}";
    let lines = render(&h, "x.rs", diff);
    assert!(
        lines[1].spans.len() > 2,
        "expected syntax regions, got {:?}",
        lines[1].spans
    );
}

#[test]
fn unknown_extensions_fall_back_to_plain_colors() {
    let h = Highlight::new();
    let diff = "@@ -0,0 +1 @@\n+hello\n-goodbye";
    let lines = render(&h, "file.zzz-unknown", diff);
    assert_eq!(lines[1].spans.len(), 2);
    assert_eq!(lines[1].spans[1].style.fg, Some(Color::Green));
    assert_eq!(lines[2].spans[1].style.fg, Some(Color::Red));
}

#[test]
fn diff_lines_is_cached_and_stable() {
    let mut h = Highlight::new();
    let diff = "@@ -0,0 +1 @@\n+let x = 1;";
    let first = diff_lines(&mut h, "a.rs", diff);
    let second = diff_lines(&mut h, "a.rs", diff);
    assert_eq!(format!("{first:?}"), format!("{second:?}"));
}

#[test]
fn normalize_theme_id_accepts_short_and_syntect_names() {
    assert_eq!(normalize_theme_id(""), DEFAULT_DIFF_THEME);
    assert_eq!(normalize_theme_id("ocean"), "ocean");
    assert_eq!(normalize_theme_id("base16-ocean.dark"), "ocean");
    assert_eq!(normalize_theme_id("nope"), DEFAULT_DIFF_THEME);
}

#[test]
fn cycle_theme_walks_the_catalog() {
    let mut h = Highlight::new();
    set_theme(&mut h, DEFAULT_DIFF_THEME);
    let first = cycle_theme(&mut h);
    assert_ne!(first, DEFAULT_DIFF_THEME);
    for _ in 0..DIFF_THEMES.len() {
        if active_theme_id(&h) == DEFAULT_DIFF_THEME {
            break;
        }
        cycle_theme(&mut h);
    }
    assert_eq!(active_theme_id(&h), DEFAULT_DIFF_THEME);
    set_theme(&mut h, DEFAULT_DIFF_THEME);
}

#[test]
fn theme_preview_does_not_mutate_the_active_theme() {
    let mut h = Highlight::new();
    set_theme(&mut h, "ocean");
    let before = active_theme_id(&h);
    let lines = theme_preview_lines(&h, "mocha");
    assert_eq!(active_theme_id(&h), before, "preview must not call set_theme");
    assert_eq!(lines.len(), THEME_PREVIEW_SAMPLE.lines().count());
    assert!(
        lines
            .iter()
            .any(|l| l.spans.iter().any(|s| s.style.bg == Some(ADD_BG))),
        "expected a green-tinted addition: {lines:?}"
    );
    assert!(
        lines
            .iter()
            .any(|l| l.spans.iter().any(|s| s.style.bg == Some(DEL_BG))),
        "expected a red-tinted removal: {lines:?}"
    );
    set_theme(&mut h, DEFAULT_DIFF_THEME);
}

#[test]
fn highlighting_keeps_the_text_and_follows_the_theme() {
    let mut h = Highlight::new();
    let diff = "+fn main() { let x = \"a\"; }";
    let ocean = {
        set_theme(&mut h, "ocean");
        diff_lines(&mut h, "x.rs", diff)
    };
    assert_eq!(ocean[0].text(), diff);
    let light = {
        set_theme(&mut h, "mocha");
        diff_lines(&mut h, "x.rs", diff)
    };
    assert_eq!(light[0].text(), diff);
    assert_ne!(format!("{ocean:?}"), format!("{light:?}"));
}

#[test]
fn long_diffs_are_not_highlighted() {
    let h = Highlight::new();
    let mut diff = String::new();
    for _ in 0..MAX_HIGHLIGHT_LINES + 1 {
        diff.push_str("+fn f() {}\n");
    }
    let lines = render(&h, "x.rs", &diff);
    assert_eq!(lines.len(), MAX_HIGHLIGHT_LINES + 1);
    assert_eq!(lines[0].spans.len(), 2);
}

#[test]
fn every_theme_names_itself() {
    for (id, _, _) in DIFF_THEMES {
        assert_eq!(normalize_theme_id(id), id);
        assert!(!theme_label(id).is_empty());
    }
    assert_eq!(theme_label("nope"), theme_label(DEFAULT_DIFF_THEME));
}

#[test]
fn a_line_without_regions_keeps_its_marker() {
    let line = code_line("-gone", None);
    assert_eq!(line.spans.len(), 2);
    assert_eq!(line.spans[0].text, "-");
    assert_eq!(line.spans[1].text, "gone");
    assert_eq!(line.spans[1].style.bg, Some(DEL_BG));
}

#[test]
fn a_plain_diff_is_shown_as_it_is() {
    let diff = "diff --git a/x b/x\n--- a/x\n+++ b/x\n@@ -1 +1,2 @@\n-old\n+new \u{fc}\n same\n\n\\ note";
    let h = Highlight::new();
    let lines = render(&h, "notes.no-such-kind", diff);
    let shown: Vec<String> = lines.iter().map(|l| l.text()).collect();
    let expected: Vec<&str> = diff.lines().collect();
    assert_eq!(shown, expected);

    let long = "+fn f() {}\n-fn g() {}\n".repeat(MAX_HIGHLIGHT_LINES);
    let lines = render(&h, "x.rs", &long);
    assert_eq!(lines.len(), 2 * MAX_HIGHLIGHT_LINES);
    assert!(lines.iter().zip(long.lines()).all(|(l, text)| l.text() == text));
}

#[test]
fn a_rendering_does_not_depend_on_the_one_before() {
    let mut h = Highlight::new();
    let first = format!("{:?}", diff_lines(&mut h, "x.rs", "+fn f() {}"));
    diff_lines(&mut h, "y.py", "+fn f() {}");
    diff_lines(&mut h, "x.rs", "-fn g() {}");
    assert_eq!(format!("{:?}", diff_lines(&mut h, "x.rs", "+fn f() {}")), first);
    assert_eq!(format!("{:?}", diff_lines(&mut h, "x.rs", "+fn f() {}")), first);
}

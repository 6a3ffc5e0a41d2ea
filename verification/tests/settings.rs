use wtm::config::{split_list, OpenCommand, OpenMode, RepoConfigFields, CONFIG_FILE};
use wtm::config_editor::{
    check_line, form_lines, line_of_row, preview_line, row_at_line, theme_preview_label_line,
    theme_preview_line, version_line, ConfigEditor, EditorOutcome, BRANCHES_REFRESH_ROW,
    CHECK_ROW, DIFF_LINE_NUMBERS_ROW, FIELD_ROWS, LAYOUT_ROW, OPEN_COMMAND_ROW, SETTING_LINES,
    THEME_PREVIEW_SAMPLE_LINES, THEME_ROW, UPDATE_ROW,
};
use wtm::highlight::{DIFF_THEMES, THEME_PREVIEW_SAMPLE};
use wtm::input::{KeyCode, KeyEvent};

fn editor() -> ConfigEditor {
    ConfigEditor {
        repo_root: "/nonexistent".to_string(),
        global_config: None,
        fields: RepoConfigFields {
            worktree_dir: "sibling".to_string(),
            ..RepoConfigFields::default()
        },
        selected: 0,
        editing: None,
        open_list: None,
    }
}

fn texts(commands: &[OpenCommand]) -> Vec<String> {
    commands.iter().map(|c| c.command.clone()).collect()
}

/// Presses a key, and writes the settings when they are to be written.
fn press(ed: &mut ConfigEditor, code: KeyCode) -> EditorOutcome {
    let mut msg = None;
    match ed.on_key(KeyEvent::plain(code)) {
        EditorOutcome::Save => {
            let outcome = ed.save_fields(Ok(CONFIG_FILE.to_string()), &mut msg);
            assert_eq!(msg, None);
            outcome
        }
        other => other,
    }
}

fn type_str(ed: &mut ConfigEditor, text: &str) {
    for ch in text.chars() {
        press(ed, KeyCode::Char(ch));
    }
}

fn list_editor(commands: &[&str]) -> ConfigEditor {
    let mut ed = editor();
    ed.fields.open_command = commands.iter().map(|c| OpenCommand::new(c.to_string())).collect();
    ed.selected = OPEN_COMMAND_ROW;
    ed
}

fn finish_list(ed: &mut ConfigEditor) -> EditorOutcome {
    let list = ed.open_list.as_ref().expect("list editor open");
    let (from, to) = (list.selected, list.done_row());
    for _ in from..to {
        press(ed, KeyCode::Down);
    }
    press(ed, KeyCode::Enter)
}

#[test]
fn editing_a_field_supports_mid_string_cursor_edits() {
    let mut ed = editor();
    press(&mut ed, KeyCode::Enter);
    press(&mut ed, KeyCode::Home);
    press(&mut ed, KeyCode::Char('~'));
    press(&mut ed, KeyCode::Char('/'));
    press(&mut ed, KeyCode::Enter);
    assert_eq!(ed.fields.worktree_dir, "~/sibling");
    assert!(ed.editing.is_none());
}

#[test]
fn update_check_row_cycles_instead_of_opening_an_input() {
    let mut ed = editor();
    ed.selected = UPDATE_ROW;
    press(&mut ed, KeyCode::Enter);
    assert_eq!(ed.fields.auto_update_check, "true");
    assert!(ed.editing.is_none(), "the toggle must not open a text input");
    press(&mut ed, KeyCode::Char(' '));
    assert_eq!(ed.fields.auto_update_check, "false");
    press(&mut ed, KeyCode::Enter);
    assert_eq!(
        ed.fields.auto_update_check, "",
        "third press returns to the inherited default"
    );
}

#[test]
fn theme_row_cycles_through_catalog_then_default() {
    let mut ed = editor();
    ed.selected = THEME_ROW;
    press(&mut ed, KeyCode::Enter);
    assert_eq!(ed.fields.diff_theme, DIFF_THEMES[0].0);
    for _ in 0..DIFF_THEMES.len() - 1 {
        press(&mut ed, KeyCode::Enter);
    }
    assert_eq!(ed.fields.diff_theme, DIFF_THEMES[DIFF_THEMES.len() - 1].0);
    press(&mut ed, KeyCode::Enter);
    assert_eq!(ed.fields.diff_theme, "", "wraps back to the default");
}

#[test]
fn layout_row_cycles_through_layouts_then_default() {
    let mut ed = editor();
    ed.selected = LAYOUT_ROW;
    press(&mut ed, KeyCode::Enter);
    assert_eq!(ed.fields.worktrees_layout, "two_panel");
    assert!(ed.editing.is_none(), "the layout row must not open a text input");
    press(&mut ed, KeyCode::Char(' '));
    assert_eq!(ed.fields.worktrees_layout, "three_panel");
    press(&mut ed, KeyCode::Enter);
    assert_eq!(
        ed.fields.worktrees_layout, "",
        "the inherited default stays reachable"
    );
}

#[test]
fn open_command_row_opens_the_list_editor_not_a_text_input() {
    let mut ed = list_editor(&["cursor {path}"]);
    press(&mut ed, KeyCode::Enter);
    assert!(ed.editing.is_none(), "the list row has no single value");
    let list = ed.open_list.as_ref().expect("list editor open");
    assert_eq!(texts(&list.commands), ["cursor {path}"]);
    assert_eq!(list.add_row(), 1);
    assert_eq!(list.done_row(), 2);
}

#[test]
fn open_command_list_adds_a_command() {
    let mut ed = list_editor(&["cursor {path}"]);
    press(&mut ed, KeyCode::Enter);
    press(&mut ed, KeyCode::Char('a'));
    type_str(&mut ed, "open {path}");
    press(&mut ed, KeyCode::Enter);
    let outcome = finish_list(&mut ed);
    assert!(matches!(outcome, EditorOutcome::Saved(_)));
    assert!(ed.open_list.is_none());
    assert_eq!(
        texts(&ed.fields.open_command),
        ["cursor {path}", "open {path}"]
    );
}

#[test]
fn open_command_list_edits_an_existing_command() {
    let mut ed = list_editor(&["cursor {path}", "open {path}"]);
    press(&mut ed, KeyCode::Enter);
    press(&mut ed, KeyCode::Down);
    press(&mut ed, KeyCode::Enter);
    press(&mut ed, KeyCode::End);
    type_str(&mut ed, " -a Finder");
    press(&mut ed, KeyCode::Enter);
    let outcome = finish_list(&mut ed);
    assert!(matches!(outcome, EditorOutcome::Saved(_)));
    assert_eq!(
        texts(&ed.fields.open_command),
        ["cursor {path}", "open {path} -a Finder"]
    );
}

#[test]
fn open_command_list_removes_a_command() {
    let mut ed = list_editor(&["cursor {path}", "open {path}"]);
    press(&mut ed, KeyCode::Enter);
    press(&mut ed, KeyCode::Char('d'));
    let outcome = finish_list(&mut ed);
    assert!(matches!(outcome, EditorOutcome::Saved(_)));
    assert_eq!(texts(&ed.fields.open_command), ["open {path}"]);
}

#[test]
fn open_command_list_keeps_commas_inside_one_entry() {
    let mut ed = list_editor(&[]);
    press(&mut ed, KeyCode::Enter);
    press(&mut ed, KeyCode::Enter);
    type_str(&mut ed, "sh -c 'cd {path}, npm start'");
    press(&mut ed, KeyCode::Enter);
    let outcome = finish_list(&mut ed);
    assert!(matches!(outcome, EditorOutcome::Saved(_)));
    assert_eq!(
        texts(&ed.fields.open_command),
        ["sh -c 'cd {path}, npm start'"],
        "a comma inside a command must not split it"
    );
}

#[test]
fn escaping_the_list_editor_discards_its_edits() {
    let mut ed = list_editor(&["cursor {path}"]);
    press(&mut ed, KeyCode::Enter);
    press(&mut ed, KeyCode::Char('d'));
    press(&mut ed, KeyCode::Char('a'));
    type_str(&mut ed, "open {path}");
    press(&mut ed, KeyCode::Enter);
    press(&mut ed, KeyCode::Esc);
    assert!(ed.open_list.is_none());
    assert_eq!(
        texts(&ed.fields.open_command),
        ["cursor {path}"],
        "Esc leaves the saved list untouched"
    );
}

#[test]
fn escaping_an_entry_leaves_the_list_open_and_unchanged() {
    let mut ed = list_editor(&["cursor {path}"]);
    press(&mut ed, KeyCode::Enter);
    press(&mut ed, KeyCode::Enter);
    type_str(&mut ed, "xx");
    press(&mut ed, KeyCode::Esc);
    let list = ed.open_list.as_ref().expect("still open");
    assert!(list.input.is_none());
    assert_eq!(texts(&list.commands), ["cursor {path}"]);
}

#[test]
fn a_blank_entry_adds_nothing() {
    let mut ed = list_editor(&[]);
    press(&mut ed, KeyCode::Enter);
    press(&mut ed, KeyCode::Char('a'));
    press(&mut ed, KeyCode::Enter);
    let list = ed.open_list.as_ref().expect("still open");
    assert!(list.commands.is_empty());
}

#[test]
fn open_command_summary_counts_multiple_commands() {
    let ed = list_editor(&["cursor {path}"]);
    assert_eq!(ed.open_command_summary(), "cursor {path}");
    let ed = list_editor(&["cursor {path}", "open {path}"]);
    assert_eq!(
        ed.open_command_summary(),
        "2 commands: cursor {path} · open {path}"
    );
    assert_eq!(list_editor(&[]).open_command_summary(), "");
}

#[test]
fn check_row_is_past_the_fields() {
    assert_eq!(CHECK_ROW, FIELD_ROWS);
    assert_eq!(row_at_line(check_line()), Some(CHECK_ROW));
    assert_eq!(row_at_line(preview_line()), None);
    assert_eq!(row_at_line(theme_preview_label_line()), None);
    assert_eq!(row_at_line(theme_preview_line()), None);
    assert_eq!(row_at_line(line_of_row(LAYOUT_ROW)), Some(LAYOUT_ROW));
    assert_eq!(
        row_at_line(line_of_row(LAYOUT_ROW) + 1),
        None,
        "layout description is not selectable"
    );
    assert_eq!(
        row_at_line(line_of_row(BRANCHES_REFRESH_ROW)),
        Some(BRANCHES_REFRESH_ROW)
    );
    assert_eq!(
        row_at_line(line_of_row(BRANCHES_REFRESH_ROW) + 1),
        None,
        "branches refresh description is not selectable"
    );
    assert_eq!(row_at_line(0), None, "repo section header");
    assert_eq!(row_at_line(1), None, "blank under repo section");
    assert!(theme_preview_label_line() > line_of_row(THEME_ROW));
    assert!(theme_preview_line() + THEME_PREVIEW_SAMPLE_LINES - 1 < line_of_row(LAYOUT_ROW));
    assert_eq!(
        THEME_PREVIEW_SAMPLE_LINES,
        THEME_PREVIEW_SAMPLE.lines().count(),
        "sample line count must match the rendered snippet"
    );
    assert_eq!(
        line_of_row(1) - line_of_row(0),
        SETTING_LINES,
        "settings are spaced with a blank separator"
    );
}

#[test]
fn every_settings_row_is_found_on_its_own_line() {
    for row in 0..FIELD_ROWS {
        assert_eq!(row_at_line(line_of_row(row)), Some(row));
    }
    assert_eq!(row_at_line(version_line()), None);
    assert_eq!(row_at_line(form_lines()), None);
}

#[test]
fn a_failed_save_is_reported_and_keeps_the_editor_open() {
    let mut ed = editor();
    ed.selected = DIFF_LINE_NUMBERS_ROW;
    assert!(matches!(
        ed.on_key(KeyEvent::plain(KeyCode::Enter)),
        EditorOutcome::Save
    ));
    let mut msg = None;
    let outcome = ed.save_fields(Err("read-only".to_string()), &mut msg);
    assert!(matches!(outcome, EditorOutcome::Continue));
    assert_eq!(msg.as_deref(), Some("error: read-only"));
    assert_eq!(ed.field(DIFF_LINE_NUMBERS_ROW), "true");
}

#[test]
fn the_refresh_row_is_prefilled_with_its_default() {
    let mut ed = editor();
    ed.selected = BRANCHES_REFRESH_ROW;
    press(&mut ed, KeyCode::Enter);
    assert!(ed.is_typing());
    assert_eq!(ed.editing.as_ref().unwrap().as_str(), "10");
    press(&mut ed, KeyCode::Esc);
    assert!(!ed.is_typing());
    assert_eq!(ed.fields.branches_refresh_mins, "");
}

#[test]
fn the_check_row_asks_for_an_update_check_and_q_leaves() {
    let mut ed = editor();
    ed.selected = CHECK_ROW;
    assert!(matches!(
        press(&mut ed, KeyCode::Enter),
        EditorOutcome::CheckForUpdates
    ));
    assert!(matches!(press(&mut ed, KeyCode::Char('q')), EditorOutcome::Cancel));
    assert_eq!(ed.effective_theme(), "eighties");
    ed.fields.diff_theme = "ocean".to_string();
    assert_eq!(ed.effective_theme(), "ocean");
}

#[test]
fn command_toggles_come_back_around() {
    let mut ed = list_editor(&["cursor {path}"]);
    press(&mut ed, KeyCode::Enter);
    press(&mut ed, KeyCode::Char('g'));
    press(&mut ed, KeyCode::Char('t'));
    let list = ed.open_list.as_ref().unwrap();
    assert!(list.commands[0].global);
    assert_eq!(list.commands[0].mode, OpenMode::Background.toggled());
    press(&mut ed, KeyCode::Char('g'));
    press(&mut ed, KeyCode::Char('t'));
    let list = ed.open_list.as_ref().unwrap();
    assert!(!list.commands[0].global);
    assert_eq!(list.commands[0].mode, OpenMode::Background);
}

#[test]
fn lists_split_at_commas_without_blanks() {
    assert_eq!(split_list(" .env , ,config/local.yml,"), vec![".env", "config/local.yml"]);
    assert!(split_list("  ").is_empty());
}

#[test]
fn a_row_that_is_set_reads_back_alone() {
    for row in 0..FIELD_ROWS + 2 {
        let mut ed = list_editor(&["cursor {path}"]);
        let before: Vec<String> = (0..FIELD_ROWS + 2).map(|r| ed.field(r).to_string()).collect();
        ed.set_field(row, "value".to_string());
        for other in 0..FIELD_ROWS + 2 {
            let expected = if other == row && row < FIELD_ROWS && row != OPEN_COMMAND_ROW {
                "value"
            } else {
                before[other].as_str()
            };
            assert_eq!(ed.field(other), expected, "row {other} after setting {row}");
        }
        assert_eq!(ed.field(OPEN_COMMAND_ROW), "");
        assert_eq!(texts(&ed.fields.open_command), ["cursor {path}"]);
    }
}

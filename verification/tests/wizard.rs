use wtm::input::{KeyCode, KeyEvent};
use wtm::paths::{location_preview, spell_path, tidy_path, PathPart};
use wtm::setup::{
    location_label, BrowserEntry, FileBrowser, Listing, SetupWizard, Step, WizardAsk,
    WizardOutcome,
};

fn item(name: &str, is_dir: bool) -> BrowserEntry {
    BrowserEntry { name: name.to_string(), path: format!("/tmp/{name}"), is_dir }
}

fn parts(text: &str) -> Vec<PathPart> {
    let mut out = Vec::new();
    if text.starts_with('/') {
        out.push(PathPart::RootDir);
    }
    for seg in text.split('/').filter(|s| !s.is_empty()) {
        out.push(match seg {
            ".." => PathPart::ParentDir,
            "." => PathPart::CurDir,
            s => PathPart::Normal(s.to_string()),
        });
    }
    out
}

fn tidy(text: &str) -> String {
    spell_path(&tidy_path(parts(text)), '/')
}

#[test]
fn browser_lists_dirs_first_and_only_toml_files() {
    let items = vec![
        item("beta", true),
        item("alpha", true),
        item("z.toml", false),
        item("a.txt", false),
        item(".wtm.toml", false),
    ];
    let browser = FileBrowser::new("/tmp".to_string(), &items);
    let names: Vec<&str> = browser.entries.iter().map(|e| e.name.as_str()).collect();
    assert_eq!(names, vec!["alpha", "beta", ".wtm.toml", "z.toml"]);
    assert!(browser.entries[0].is_dir);
    assert!(!browser.entries[2].is_dir);
}

#[test]
fn browser_descends_and_returns_to_parent() {
    let top = vec![item("sub", true)];
    let inner = vec![item("inner.toml", false)];
    let mut browser = FileBrowser::new("/tmp".to_string(), &top);
    assert_eq!(browser.entries[0].name, "sub");
    let sub = browser.descend().unwrap();
    assert_eq!(sub, "/tmp/sub");
    browser.parent(Some((sub, inner)));
    assert_eq!(browser.dir, "/tmp/sub");
    assert_eq!(browser.entries[0].name, "inner.toml");
    // Enter on a file is a no-op at the browser level.
    assert_eq!(browser.descend(), None);
    assert_eq!(browser.dir, "/tmp/sub");
    browser.parent(Some(("/tmp".to_string(), vec![item("sub", true)])));
    assert_eq!(browser.dir, "/tmp");
    browser.parent(None);
    assert_eq!(browser.dir, "/tmp");
}

#[test]
fn location_preview_folds_away_parent_segments() {
    let preview = location_preview(Some(parts("/tmp/proj/../proj-worktrees")), '/');
    assert_eq!(preview, "/tmp/proj-worktrees");
    assert!(!preview.contains(".."), "{preview}");
    assert_eq!(tidy("/a/b/c"), "/a/b/c");
    assert_eq!(tidy("../x"), "../x");
    assert_eq!(tidy("/a/b/../../c"), "/c");
    assert_eq!(location_preview(None, '/'), "(needs HOME set)");
}

#[test]
fn browser_errors_on_missing_dir() {
    let mut wizard = SetupWizard::new("/repo".to_string());
    wizard.step = Step::ClonePath { input: wtm::input::TextInput::new() };
    let mut message = None;
    wizard.browse_started(Listing::Failed("cannot read /nope".to_string()), &mut message);
    assert_eq!(message.as_deref(), Some("error: cannot read /nope"));
    assert!(matches!(wizard.step, Step::ClonePath { .. }));
}

#[test]
fn the_wizard_asks_for_what_it_needs_read() {
    let mut wizard = SetupWizard::new("/repo".to_string());
    assert_eq!(wizard.progress(), "welcome");
    wizard.on_key(KeyEvent::plain(KeyCode::Char('2')));
    assert_eq!(wizard.progress(), "step 1 of 2");
    let outcome = wizard.on_key(KeyEvent::plain(KeyCode::Tab));
    assert!(matches!(outcome, WizardOutcome::Ask(WizardAsk::BrowseStart)));
    let mut message = None;
    wizard.browse_started(
        Listing::Read { dir: "/".to_string(), items: vec![item("sub", true)] },
        &mut message,
    );
    assert_eq!(wizard.step.name(), "clone browser");
    wizard.browse_moved(Listing::Nowhere, &mut message);
    assert_eq!(wizard.step.name(), "clone browser");
    assert_eq!(message, None);
}

#[test]
fn presets_read_as_their_labels() {
    assert_ne!(location_label("sibling"), "sibling");
    assert_eq!(location_label("/srv/trees"), "/srv/trees");
}

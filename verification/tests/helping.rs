use wtm::app::{Tab, View};
use wtm::help::{sections, HelpTab};

#[test]
fn every_tab_has_content() {
    for tab in HelpTab::ALL {
        let secs = sections(tab);
        assert!(!secs.is_empty(), "{} has no sections", tab.title());
        for s in secs {
            assert!(
                !s.bindings.is_empty() || !s.notes.is_empty(),
                "{} / {} is empty",
                tab.title(),
                s.heading
            );
        }
    }
}

#[test]
fn tabs_cycle_both_ways() {
    assert_eq!(HelpTab::Basics.next(), HelpTab::Worktrees);
    assert_eq!(HelpTab::Basics.prev(), HelpTab::Conflicts);
    assert_eq!(HelpTab::Conflicts.next(), HelpTab::Basics);
    let mut t = HelpTab::Basics;
    for _ in 0..HelpTab::ALL.len() {
        t = t.next();
    }
    assert_eq!(t, HelpTab::Basics);
}

#[test]
fn top_level_tabs_cycle_both_ways() {
    for t in Tab::ALL {
        assert_eq!(t.next().prev(), t);
        assert_eq!(t.prev().next(), t);
        assert!(!t.title().is_empty() && !t.glyph().is_empty());
    }
    assert_eq!(Tab::Worktrees.prev(), Tab::Settings);
}

#[test]
fn help_follows_the_active_tab() {
    assert_eq!(HelpTab::for_view(&View::List, Tab::Stash), HelpTab::Changes);
    assert_eq!(HelpTab::for_view(&View::List, Tab::Settings), HelpTab::Basics);
    let log = View::Log { name: String::new(), lines: Vec::new(), selected: 0 };
    assert_eq!(HelpTab::for_view(&log, Tab::Worktrees), HelpTab::Commits);
}

//! Settings: the values that can be configured and how lists of them are
//! written.

use vstd::prelude::*;
use vstd::string::*;

use crate::text;

verus! {

/// Name of the settings file in a repository's root.
pub const CONFIG_FILE: &'static str = ".wtm.toml";

/// The rules for where worktrees go: the configured value and a plain label.
pub const LOCATION_PRESETS: [(&'static str, &'static str); 3] = [
    ("sibling", "next to the repo"),
    ("inside", "inside the repo"),
    ("home", "in your home folder"),
];

/// The rule that applies when none is configured.
pub const DEFAULT_LOCATION: &'static str = "sibling";

/// The layouts of the Worktrees tab: the configured value and a plain label.
pub const WORKTREES_LAYOUTS: [(&'static str, &'static str); 2] = [
    ("two_panel", "Two panels"),
    ("three_panel", "Three panels"),
];

/// How long the list of branches is kept, in minutes, when nothing is
/// configured.
pub const DEFAULT_BRANCHES_REFRESH_MINS: usize = 10;

/// How a command that opens a worktree is run.
#[derive(Clone, Copy, Debug, PartialEq, Eq, Structural)]
pub enum OpenMode {
    /// Detached, leaving the interface up.
    Background,
    /// In this terminal.
    Terminal,
}

impl OpenMode {
    /// The other mode.
    pub open spec fn flipped(self) -> OpenMode {
        match self {
            OpenMode::Background => OpenMode::Terminal,
            OpenMode::Terminal => OpenMode::Background,
        }
    }

    /// The other mode.
    pub fn toggled(self) -> (r: OpenMode)
        ensures
            r == self.flipped(),
    {
        match self {
            OpenMode::Background => OpenMode::Terminal,
            OpenMode::Terminal => OpenMode::Background,
        }
    }
}

/// A command that opens a worktree.
#[derive(Debug)]
pub struct OpenCommand {
    pub command: String,
    pub mode: OpenMode,
    /// Whether every repository offers it.
    pub global: bool,
}

impl OpenCommand {
    /// A command that runs in the background and belongs to this repository.
    pub fn new(command: String) -> (r: OpenCommand)
        ensures
            r.command == command,
            r.mode == OpenMode::Background,
            !r.global,
    {
        OpenCommand { command, mode: OpenMode::Background, global: false }
    }
}

impl Clone for OpenCommand {
    fn clone(&self) -> (r: Self)
        ensures
            r == *self,
    {
        OpenCommand { command: self.command.clone(), mode: self.mode, global: self.global }
    }
}

/// The settings as shown in the editor, each empty when unset.
#[derive(Debug)]
pub struct RepoConfigFields {
    pub worktree_dir: String,
    pub open_command: Vec<OpenCommand>,
    pub copy: String,
    pub run: String,
    pub auto_update_check: String,
    pub diff_theme: String,
    pub worktrees_layout: String,
    pub branches_refresh_mins: String,
    pub diff_line_numbers: String,
}

impl RepoConfigFields {
    /// Nothing configured.
    pub open spec fn unset(self) -> bool {
        &&& self.worktree_dir@.len() == 0
        &&& self.open_command@.len() == 0
        &&& self.copy@.len() == 0
        &&& self.run@.len() == 0
        &&& self.auto_update_check@.len() == 0
        &&& self.diff_theme@.len() == 0
        &&& self.worktrees_layout@.len() == 0
        &&& self.branches_refresh_mins@.len() == 0
        &&& self.diff_line_numbers@.len() == 0
    }
}

impl Default for RepoConfigFields {
    fn default() -> (r: Self)
        ensures
            r.unset(),
    {
        RepoConfigFields {
            worktree_dir: String::new(),
            open_command: Vec::new(),
            copy: String::new(),
            run: String::new(),
            auto_update_check: String::new(),
            diff_theme: String::new(),
            worktrees_layout: String::new(),
            branches_refresh_mins: String::new(),
            diff_line_numbers: String::new(),
        }
    }
}

/// The answers that make up a new settings file.
#[derive(Debug)]
pub struct ConfigDraft {
    pub worktree_dir: String,
    /// Files copied into new worktrees.
    pub copy: Vec<String>,
    /// Commands run in new worktrees.
    pub run: Vec<String>,
}

/// What a draft says.
pub struct DraftView {
    pub worktree_dir: Seq<char>,
    pub copy: Seq<Seq<char>>,
    pub run: Seq<Seq<char>>,
}

impl View for ConfigDraft {
    type V = DraftView;

    open spec fn view(&self) -> DraftView {
        DraftView {
            worktree_dir: self.worktree_dir@,
            copy: text::views(self.copy@),
            run: text::views(self.run@),
        }
    }
}

/// A copy of a list of strings.
pub fn copy_strings(v: &Vec<String>) -> (r: Vec<String>)
    ensures
        r@ == v@,
{
    let r = v.clone();
    assert(r@ =~= v@);
    r
}

impl Clone for ConfigDraft {
    fn clone(&self) -> (r: Self)
        ensures
            r@ == self@,
    {
        ConfigDraft {
            worktree_dir: self.worktree_dir.clone(),
            copy: copy_strings(&self.copy),
            run: copy_strings(&self.run),
        }
    }
}

impl Default for ConfigDraft {
    fn default() -> (r: Self)
        ensures
            r@.worktree_dir == DEFAULT_LOCATION@,
            r@.copy.len() == 0,
            r@.run.len() == 0,
    {
        ConfigDraft {
            worktree_dir: DEFAULT_LOCATION.to_string(),
            copy: Vec::new(),
            run: Vec::new(),
        }
    }
}

/// The pieces without white space around them, blank ones left out.
pub open spec fn solid(parts: Seq<Seq<char>>) -> Seq<Seq<char>>
    decreases parts.len(),
{
    if parts.len() == 0 {
        Seq::empty()
    } else {
        let rest = solid(parts.drop_last());
        let t = text::trimmed(parts.last());
        if t.len() == 0 {
            rest
        } else {
            rest.push(t)
        }
    }
}

/// The items of a comma-separated list.
pub open spec fn list_items(s: Seq<char>) -> Seq<Seq<char>> {
    solid(text::split(s, ','))
}

/// The items of a comma-separated list, without white space around them and
/// without blank ones.
pub fn split_list(s: &str) -> (r: Vec<String>)
    ensures
        text::views(r@) == list_items(s@),
{
    let parts = text::split_at(s, ',');
    let ghost p = text::views(parts@);
    let mut r: Vec<String> = Vec::new();
    let mut i: usize = 0;
    assert(text::views(r@) =~= solid(p.take(0)));
    while i < parts.len()
        invariant
            p == text::views(parts@),
            i <= parts@.len(),
            text::views(r@) == solid(p.take(i as int)),
        decreases parts@.len() - i,
    {
        let t = text::trim(parts[i].as_str());
        let ghost before = r@;
        assert(p.take(i + 1).drop_last() =~= p.take(i as int));
        assert(p.take(i + 1).last() == parts@[i as int]@);
        if t.as_str().unicode_len() > 0 {
            r.push(t);
            assert(text::views(r@) =~= text::views(before).push(t@));
        }
        i += 1;
    }
    assert(p.take(p.len() as int) =~= p);
    r
}

/// A list written with `, ` between its items reads back as the same list, when
/// no item is blank, holds a comma or has white space around it.
pub proof fn list_round_trip(items: Seq<Seq<char>>)
    requires
        forall|i: int|
            0 <= i < items.len() ==> (#[trigger] items[i]).len() > 0 && !items[i].contains(',')
                && text::trimmed(items[i]) == items[i],
    ensures
        list_items(text::join(items, seq![',', ' '])) == items,
    decreases items.len(),
{
    if items.len() == 0 {
        let e = Seq::<char>::empty();
        assert(text::split(e, ',') =~= seq![e]);
        assert(seq![e].drop_last() =~= Seq::<Seq<char>>::empty());
        assert(text::trimmed(e) == e);
        reveal_with_fuel(solid, 2);
    } else if items.len() == 1 {
        text::split_plain(items[0], ',');
        let s = seq![items[0]];
        assert(s.drop_last() =~= Seq::<Seq<char>>::empty());
        reveal_with_fuel(solid, 2);
        assert(solid(s) =~= items);
    } else {
        let init = items.drop_last();
        assert forall|i: int| 0 <= i < init.len() implies (#[trigger] init[i]).len() > 0
            && !init[i].contains(',') && text::trimmed(init[i]) == init[i] by {
            assert(init[i] == items[i]);
        }
        list_round_trip(init);
        let a = text::join(init, seq![',', ' ']);
        let x = items.last();
        let y = seq![' '] + x;
        assert(text::join(items, seq![',', ' ']) =~= a.push(',') + y);
        text::split_concat(a, y, ',');
        assert(!y.contains(',')) by {
            if y.contains(',') {
                let k = y.index_of(',');
                assert(x[k - 1] == ',');
            }
        }
        text::split_plain(y, ',');
        let p = text::split(a, ',');
        assert((p + seq![y]).drop_last() =~= p);
        assert(y.drop_first() =~= x);
        text::trim_prefix_blank(x);
        assert(init.push(x) =~= items);
    }
}

} // verus!

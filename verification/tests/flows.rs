use wtm::app::{App, CommitFocus, Startup, Tab, View};
use wtm::candidates::filtered_candidates;
use wtm::changes_keys::OpenOutcome;
use wtm::config::{ConfigDraft, RepoConfigFields, CONFIG_FILE};
use wtm::config_editor::{CHECK_ROW, UPDATE_ROW};
use wtm::create::BranchLists;
use wtm::geometry::{MouseEvent, MouseKind, Rect, RowList};
use wtm::help::HelpTab;
use wtm::history::LogLines;
use wtm::input::{KeyCode, KeyEvent};
use wtm::modal::{Modal, ModalAction};
use wtm::model::{
    BranchListItem, CheckOutcome, ConfigInfo, ConflictFile, ConflictSegment, CreateMsg,
    CreateResult, DeleteBranchOutcome, ExistingTarget, GraphLine, LogEntry, LogMode, Release,
    ResolutionAction, ResolveKind, SetupStep, StashEntry, Task, WorktreeInfo,
};
use wtm::pace::{LoopStep, ACTIVE_POLL, IDLE_POLL, PARKED_POLL};
use wtm::request::{BusyOp, ListThen, OpError, OpOutcome, Request};
use wtm::rows::{DiffRow, StatusEntry};
use wtm::setup::{BrowserEntry, Listing, SetupWizard, Step, WizardAsk};
use wtm::ticks::{AUTO_REFRESH_INTERVAL, DIFF_REFRESH_INTERVAL, MESSAGE_TIMEOUT};
use wtm::tree::current_file_index;

const ROOT: &str = "/tmp/proj";
const VERSION: &str = "0.1.0";

/// A file of a worktree: what is committed, and what lies on disk.
#[derive(Clone)]
struct FileState {
    path: String,
    head: Option<String>,
    work: Option<String>,
}

struct Tree {
    name: String,
    path: String,
    branch: Option<String>,
    is_main: bool,
    files: Vec<FileState>,
}

struct Commit {
    hash: String,
    subject: String,
    files: Vec<(String, String)>,
}

/// The repository that the application works on, kept in memory.
struct Repo {
    now: u64,
    trees: Vec<Tree>,
    branches: Vec<String>,
    remotes: Vec<(String, String)>,
    commits: Vec<Commit>,
    stash: Vec<(String, Vec<FileState>)>,
    unmerged: Vec<String>,
    ignored: Vec<String>,
    recorded: Vec<String>,
    /// What a merge into the tree of this name, or a pop, conflicts on.
    clashes: Option<(String, ConflictFile)>,
    merging: Option<String>,
    diverged: bool,
    pulled_with_rebase: bool,
    setup_run: Vec<String>,
    create_task: Option<(u64, String)>,
    killed: bool,
    worktree_dir: String,
    copy: String,
    auto_update_check: String,
    /// The settings file of the repository, and the one of all repositories.
    repo_file: String,
    global_file: String,
    /// Why the next commit is refused.
    hook: Option<String>,
    written: Option<ConfigDraft>,
    saves: usize,
    suggest_copy: Vec<String>,
    suggest_run: Vec<String>,
    dirs: Vec<(String, Vec<BrowserEntry>)>,
    clones: Vec<(String, ConfigDraft)>,
    checks: usize,
}

struct Bench {
    app: App,
    repo: Repo,
}

fn entry(hash: &str) -> LogEntry {
    LogEntry {
        hash: hash.to_string(),
        subject: String::new(),
        author: String::new(),
        date: String::new(),
        refs: Vec::new(),
    }
}

fn parent_of(dir: &str) -> Option<String> {
    match dir.rfind('/') {
        Some(0) if dir.len() > 1 => Some("/".to_string()),
        Some(i) if i > 0 => Some(dir[..i].to_string()),
        _ => None,
    }
}

impl Tree {
    fn status(&self, ignored: &[String]) -> Vec<StatusEntry> {
        let mut out: Vec<StatusEntry> = Vec::new();
        for f in &self.files {
            let code = match (&f.head, &f.work) {
                (None, Some(_)) => "??",
                (Some(_), None) => " D",
                (Some(a), Some(b)) if a != b => " M",
                _ => continue,
            };
            let hidden = ignored.iter().any(|p| {
                &f.path == p
                    || (p.ends_with('/') && f.path.starts_with(p.as_str()))
                    || (p.starts_with('*') && f.path.ends_with(&p[1..]))
            });
            if code == "??" && hidden {
                continue;
            }
            out.push(StatusEntry { code: code.to_string(), path: f.path.clone() });
        }
        out.sort_by(|a, b| a.path.cmp(&b.path));
        out
    }

    fn write(&mut self, path: &str, text: &str) {
        match self.files.iter_mut().find(|f| f.path == path) {
            Some(f) => f.work = Some(text.to_string()),
            None => self.files.push(FileState {
                path: path.to_string(),
                head: None,
                work: Some(text.to_string()),
            }),
        }
    }

    fn read(&self, path: &str) -> Option<String> {
        self.files.iter().find(|f| f.path == path).and_then(|f| f.work.clone())
    }

    fn commit(&mut self, path: &str) {
        if let Some(f) = self.files.iter_mut().find(|f| f.path == path) {
            f.head = f.work.clone();
        }
    }

    fn diff(&self, path: &str) -> String {
        let Some(f) = self.files.iter().find(|f| f.path == path) else {
            return String::new();
        };
        let mut out = String::from("@@ -1 +1 @@\n");
        for line in f.head.clone().unwrap_or_default().lines() {
            out.push_str(&format!("-{line}\n"));
        }
        for line in f.work.clone().unwrap_or_default().lines() {
            out.push_str(&format!("+{line}\n"));
        }
        out
    }
}

impl Repo {
    fn new() -> Repo {
        let mut main = Tree {
            name: "main".to_string(),
            path: ROOT.to_string(),
            branch: Some("main".to_string()),
            is_main: true,
            files: Vec::new(),
        };
        main.write(CONFIG_FILE, "");
        Repo {
            now: 1_000_000,
            trees: vec![main],
            branches: vec!["main".to_string()],
            remotes: Vec::new(),
            commits: vec![Commit {
                hash: "init000".to_string(),
                subject: "init".to_string(),
                files: Vec::new(),
            }],
            stash: Vec::new(),
            unmerged: Vec::new(),
            ignored: Vec::new(),
            recorded: Vec::new(),
            clashes: None,
            merging: None,
            diverged: false,
            pulled_with_rebase: false,
            setup_run: Vec::new(),
            create_task: None,
            killed: false,
            worktree_dir: String::new(),
            copy: String::new(),
            auto_update_check: String::new(),
            repo_file: String::new(),
            global_file: String::new(),
            hook: None,
            written: None,
            saves: 0,
            suggest_copy: Vec::new(),
            suggest_run: Vec::new(),
            dirs: Vec::new(),
            clones: Vec::new(),
            checks: 0,
        }
    }

    fn tree(&self, name: &str) -> Option<&Tree> {
        self.trees.iter().find(|t| t.name == name)
    }

    fn tree_mut(&mut self, name: &str) -> Option<&mut Tree> {
        self.trees.iter_mut().find(|t| t.name == name)
    }

    fn main(&mut self) -> &mut Tree {
        &mut self.trees[0]
    }

    fn infos(&self) -> Vec<WorktreeInfo> {
        self.trees
            .iter()
            .map(|t| WorktreeInfo {
                name: t.name.clone(),
                path: t.path.clone(),
                branch: t.branch.clone(),
                dirty: t.status(&self.ignored).len(),
                is_main: t.is_main,
            })
            .collect()
    }

    fn lists(&self) -> BranchLists {
        BranchLists { local: self.branches.clone(), remotes: Some(self.remotes.clone()) }
    }

    fn branch_exists(&self, name: &str) -> bool {
        self.branches.iter().any(|b| b == name)
    }

    fn info(&self) -> ConfigInfo {
        ConfigInfo {
            worktree_base: Some("/tmp/proj-worktrees".to_string()),
            open_command: None,
        }
    }

    fn fields(&self) -> RepoConfigFields {
        RepoConfigFields {
            worktree_dir: self.worktree_dir.clone(),
            copy: self.copy.clone(),
            auto_update_check: self.auto_update_check.clone(),
            ..RepoConfigFields::default()
        }
    }

    fn log_entry(&self, c: &Commit) -> LogEntry {
        LogEntry {
            hash: c.hash.clone(),
            subject: c.subject.clone(),
            author: "t".to_string(),
            date: "today".to_string(),
            refs: Vec::new(),
        }
    }

    fn log(&self, mode: LogMode, limit: usize) -> LogLines {
        let newest = self.commits.iter().rev().take(limit);
        match mode {
            LogMode::Tree => LogLines::Graph(
                newest
                    .map(|c| GraphLine {
                        graph: "* ".to_string(),
                        entry: Some(self.log_entry(c)),
                    })
                    .collect(),
            ),
            LogMode::Flat => LogLines::Plain(newest.map(|c| self.log_entry(c)).collect()),
        }
    }

    fn add_tree(&mut self, branch: &str) -> String {
        let path = format!("/tmp/proj-worktrees/{branch}");
        if !self.branch_exists(branch) {
            self.branches.push(branch.to_string());
        }
        let files = self.trees[0]
            .files
            .iter()
            .filter(|f| f.head.is_some())
            .map(|f| FileState {
                path: f.path.clone(),
                head: f.head.clone(),
                work: f.head.clone(),
            })
            .collect();
        self.trees.push(Tree {
            name: branch.to_string(),
            path: path.clone(),
            branch: Some(branch.to_string()),
            is_main: false,
            files,
        });
        path
    }

    fn listing(&self, dir: &str) -> Listing {
        match self.dirs.iter().find(|(d, _)| d == dir) {
            Some((d, items)) => Listing::Read { dir: d.clone(), items: items.clone() },
            None => Listing::Failed(format!("cannot read {dir}")),
        }
    }

    fn stash_away(&mut self, name: &str, message: Option<String>, only: Option<&[String]>) {
        let ignored = self.ignored.clone();
        let Some(t) = self.tree_mut(name) else { return };
        let changed: Vec<String> = t
            .status(&ignored)
            .into_iter()
            .map(|e| e.path)
            .filter(|p| only.is_none_or(|o| o.contains(p)))
            .collect();
        let saved: Vec<FileState> =
            t.files.iter().filter(|f| changed.contains(&f.path)).cloned().collect();
        t.files.retain(|f| !(changed.contains(&f.path) && f.head.is_none()));
        for f in t.files.iter_mut().filter(|f| changed.contains(&f.path)) {
            f.work = f.head.clone();
        }
        let label = format!("On main: {}", message.unwrap_or_default());
        self.stash.insert(0, (label, saved));
    }

    fn refused(text: &str) -> Result<OpOutcome, OpError> {
        Err(OpError { text: text.to_string(), non_fast_forward: false })
    }

    fn run(&mut self, op: BusyOp) -> Result<OpOutcome, OpError> {
        match op {
            BusyOp::Commit { name, message, paths } => {
                if let Some(why) = self.hook.take() {
                    return Repo::refused(&why);
                }
                let t = self.tree_mut(&name).unwrap();
                for p in &paths {
                    t.commit(p);
                }
                Ok(OpOutcome::Committed {
                    hash: "abc1234".to_string(),
                    summary: message,
                    files_changed: paths.len(),
                })
            }
            BusyOp::StashPush { name, message } => {
                self.stash_away(&name, message, None);
                Ok(OpOutcome::StashPushed { name })
            }
            BusyOp::StashPop { name, index } => {
                if self.clashes.is_some() {
                    self.merging = Some(name);
                    return Ok(OpOutcome::Conflicted);
                }
                let (_, saved) = self.stash.remove(index.unwrap_or(0) as usize);
                let t = self.tree_mut(&name).unwrap();
                for f in saved {
                    t.write(&f.path, &f.work.unwrap_or_default());
                }
                Ok(OpOutcome::StashPopped { name })
            }
            BusyOp::StashApply { name, .. } => {
                Ok(OpOutcome::StashDone { action: "applied".to_string(), name })
            }
            BusyOp::StashDrop { name, index } => {
                self.stash.remove(index.unwrap_or(0) as usize);
                Ok(OpOutcome::StashDone { action: "dropped".to_string(), name })
            }
            BusyOp::Switch { name, branch, .. } => {
                if !self.branch_exists(&branch) {
                    self.branches.push(branch.clone());
                }
                self.tree_mut(&name).unwrap().branch = Some(branch.clone());
                Ok(OpOutcome::Switched { name, branch })
            }
            BusyOp::CherryPick { target, commits, no_commit } => Ok(OpOutcome::CherryPicked {
                target,
                count: commits.len(),
                committed: !no_commit,
            }),
            BusyOp::Merge { target, source } => {
                if self.clashes.is_some() {
                    self.merging = Some(target);
                    return Ok(OpOutcome::Conflicted);
                }
                Ok(OpOutcome::Merged { source, target, commit: "abc1234".to_string() })
            }
            BusyOp::Update { name, autostash } => {
                let ignored = self.ignored.clone();
                let dirty = !self.tree(&name).unwrap().status(&ignored).is_empty();
                if dirty && !autostash {
                    return Repo::refused("uncommitted changes");
                }
                let news: Vec<FileState> = self.trees[0]
                    .files
                    .iter()
                    .filter(|f| f.head.is_some())
                    .cloned()
                    .collect();
                let t = self.tree_mut(&name).unwrap();
                for f in news {
                    t.write(&f.path, f.head.as_deref().unwrap());
                    t.commit(&f.path);
                }
                Ok(OpOutcome::Updated { name, commit: "abc1234".to_string() })
            }
            BusyOp::BranchCreate { name } => {
                self.branches.push(name.clone());
                Ok(OpOutcome::BranchCreated { name })
            }
            BusyOp::Pull { name, rebase } => {
                if rebase {
                    self.pulled_with_rebase = true;
                    return Ok(OpOutcome::Pulled { name, already_up_to_date: false, rebase });
                }
                Err(OpError {
                    text: "branch 'main' has no upstream".to_string(),
                    non_fast_forward: self.diverged,
                })
            }
            BusyOp::Push { name } => Ok(OpOutcome::Pushed {
                name,
                set_upstream: true,
                remote: None,
                branch: "main".to_string(),
            }),
            BusyOp::BranchPull { branch } => {
                Repo::refused(&format!("branch '{branch}' has no upstream"))
            }
            BusyOp::Fetch => Ok(OpOutcome::Fetched { remotes: Vec::new() }),
            BusyOp::RemoveWorktree { name, force, with_branch } => {
                let ignored = self.ignored.clone();
                let t = self.tree(&name).unwrap();
                if !force && !t.status(&ignored).is_empty() {
                    return Repo::refused("the worktree holds changes");
                }
                let branch = t.branch.clone();
                self.trees.retain(|t| t.name != name);
                Ok(OpOutcome::Removed { name, branch, with_branch })
            }
            BusyOp::InstallUpdate { release } => {
                Repo::refused(&format!("no build of {} for this platform", release.tag))
            }
        }
    }
}

impl Bench {
    fn build(initialized: bool, repo: Repo) -> Bench {
        let app = App::new(Startup {
            repo_root: ROOT.to_string(),
            version: VERSION.to_string(),
            open_command: None,
            worktree_base: Some("/tmp/proj-worktrees".to_string()),
            initialized,
            settings: Some(repo.fields()),
            global_config: Some("/tmp/global.toml".to_string()),
            auto_update_check: false,
            now: repo.now,
        });
        let mut b = Bench { app, repo };
        b.serve();
        b
    }

    fn new() -> Bench {
        Bench::build(true, Repo::new())
    }

    fn uninitialized() -> Bench {
        let mut repo = Repo::new();
        repo.trees[0].files.clear();
        Bench::build(false, repo)
    }

    /// Answers what the application asks for, each answer before the next
    /// question.
    fn serve(&mut self) {
        for r in self.app.take_requests() {
            self.answer(r);
            self.serve();
        }
    }

    fn answer(&mut self, r: Request) {
        let app = &mut self.app;
        let repo = &mut self.repo;
        match r {
            Request::ListWorktrees { then } => app.on_worktrees(then, Ok(repo.infos())),
            Request::ListBranches { then } => {
                let items = repo
                    .branches
                    .iter()
                    .map(|b| BranchListItem {
                        name: b.clone(),
                        checked_out_path: repo
                            .trees
                            .iter()
                            .find(|t| t.branch.as_ref() == Some(b))
                            .map(|t| t.path.clone()),
                    })
                    .collect();
                app.on_branches(then, Ok(items));
            }
            Request::Status { name, then, activate } => {
                let found = repo.tree(&name).map(|t| t.status(&repo.ignored));
                app.on_status(name, then, activate, found.ok_or("no such worktree".to_string()));
            }
            Request::FileDiff { task, token, name, path, .. } => {
                let content = repo.tree(&name).map(|t| t.diff(&path)).unwrap_or_default();
                app.deliver_diff(task, token, path, content);
            }
            Request::CommitFileDiff { task, token, hash, path, .. } => {
                let content = repo
                    .commits
                    .iter()
                    .find(|c| c.hash == hash)
                    .and_then(|c| c.files.iter().find(|(p, _)| *p == path))
                    .map(|(_, text)| format!("+{text}"))
                    .unwrap_or_default();
                app.deliver_commit_diff(task, token, path, content);
            }
            Request::IgnorePattern { file } => {
                let pattern = match file.rfind('.') {
                    Some(i) => format!("*{}", &file[i..]),
                    None => file.clone(),
                };
                app.on_ignore_pattern(file, pattern);
            }
            Request::TargetHasChanges { branch, base, path } => {
                app.on_target_has_changes(branch, base, path, Ok(false))
            }
            Request::RemoveTarget { branch, base, path } => {
                repo.trees.retain(|t| t.path != path);
                app.on_target_removed(branch, base, Ok(()));
            }
            Request::ExistingTarget { branch, base } => {
                let path = format!("/tmp/proj-worktrees/{branch}");
                let found = repo.trees.iter().find(|t| t.path == path).map(|t| ExistingTarget {
                    path: t.path.clone(),
                    worktree_name: Some(t.name.clone()),
                });
                app.on_existing_target(branch, base, Ok(found));
            }
            Request::Create { task, branch, .. } => {
                let path = repo.add_tree(&branch);
                match repo.setup_run.first() {
                    None => app.deliver_create(
                        task,
                        CreateMsg::Done(Ok(CreateResult {
                            path,
                            setup: Vec::new(),
                            setup_ok: true,
                        })),
                    ),
                    Some(cmd) => {
                        let line = if cmd.starts_with("echo ready") {
                            "ready".to_string()
                        } else {
                            format!("running: {cmd}")
                        };
                        app.deliver_create(task, CreateMsg::Progress(line));
                        repo.create_task = Some((task, path));
                    }
                }
            }
            Request::KillSetup { task } => {
                repo.killed = true;
                let (_, path) = repo.create_task.take().expect("a setup is running");
                let details = ["aborted by user", "skipped: setup aborted"];
                let setup = repo
                    .setup_run
                    .iter()
                    .zip(details)
                    .map(|(cmd, detail)| SetupStep {
                        step: format!("run {cmd}"),
                        ok: false,
                        detail: Some(detail.to_string()),
                    })
                    .collect();
                app.deliver_create(
                    task,
                    CreateMsg::Done(Ok(CreateResult { path, setup, setup_ok: false })),
                );
            }
            Request::SendLine { task, text } => {
                let ok = text == "hello";
                app.on_line_sent(task, text, true);
                let (_, path) = repo.create_task.take().expect("a setup is running");
                let setup = vec![SetupStep {
                    step: format!("run {}", repo.setup_run[0]),
                    ok,
                    detail: None,
                }];
                app.deliver_create(
                    task,
                    CreateMsg::Done(Ok(CreateResult { path, setup, setup_ok: ok })),
                );
            }
            Request::StashWorktree { name, branch, delete_branch } => {
                repo.stash_away(&name, None, None);
                app.on_worktree_stashed(name, branch, delete_branch, Ok(()));
            }
            Request::ForceDeleteBranch { branch } => {
                repo.branches.retain(|b| *b != branch);
                app.on_branch_force_deleted(branch, Ok(()));
            }
            Request::ReloadConfig => app.on_config(Ok(repo.info())),
            Request::WriteSetup { draft } => {
                repo.trees[0].write(CONFIG_FILE, "written");
                repo.worktree_dir = draft.worktree_dir.clone();
                repo.written = Some(draft);
                app.on_setup_written(Ok(repo.info()));
            }
            Request::Wizard { ask } => match ask {
                WizardAsk::BrowseStart => {
                    app.on_browse_started(repo.listing(&parent_of(ROOT).unwrap()))
                }
                WizardAsk::BrowseUp { dir } => app.on_browse_moved(match parent_of(&dir) {
                    Some(up) => repo.listing(&up),
                    None => Listing::Nowhere,
                }),
                WizardAsk::BrowseInto { dir } => app.on_browse_moved(repo.listing(&dir)),
                WizardAsk::LoadClone { path } => {
                    let found = repo
                        .clones
                        .iter()
                        .find(|(p, _)| {
                            *p == path || format!("{p}/{CONFIG_FILE}") == path
                        })
                        .map(|(_, d)| d.clone());
                    app.on_clone_loaded(found.ok_or(format!("{path} does not exist")));
                }
                WizardAsk::SuggestCopy => app.on_copy_suggested(&repo.suggest_copy),
                WizardAsk::SuggestRun => app.on_run_suggested(&repo.suggest_run),
            },
            Request::RenameWorktree { name, new_name } => {
                repo.tree_mut(&name).unwrap().name = new_name.clone();
                app.on_worktree_renamed(Ok((name, new_name)));
            }
            Request::AddIgnore { pattern, .. } => {
                let added = !repo.ignored.contains(&pattern);
                if added {
                    repo.ignored.push(pattern.clone());
                }
                app.on_ignored(pattern, Ok(added));
            }
            Request::StashFile { name, path } => {
                repo.stash_away(&name, None, Some(&[path.clone()]));
                app.on_file_stashed(path, Ok(()));
            }
            Request::StashMarked { name, paths } => {
                repo.stash_away(&name, None, Some(&paths));
                app.on_marked_stashed(paths.len(), Ok(()));
            }
            Request::RevertFile { name, path, .. } => {
                let t = repo.tree_mut(&name).unwrap();
                let f = t.files.iter_mut().find(|f| f.path == path).unwrap();
                f.work = f.head.clone();
                app.on_file_reverted(path, Ok(()));
            }
            Request::DeleteFile { name, path, untracked } => {
                let t = repo.tree_mut(&name).unwrap();
                if untracked {
                    t.files.retain(|f| f.path != path);
                } else {
                    t.files.iter_mut().find(|f| f.path == path).unwrap().work = None;
                }
                app.on_file_deleted(path, Ok(()));
            }
            Request::CreateChoices { prefill } => app.on_create_choices(prefill, Ok(repo.lists())),
            Request::SwitchChoices { name } => app.on_switch_choices(name, Ok(repo.lists())),
            Request::Spawn { cmd, dir, name } => {
                repo.recorded.push(format!("spawn {cmd} in {dir}"));
                app.on_spawned(cmd, name, Ok(()));
            }
            Request::StashList { name } => {
                let items = repo
                    .stash
                    .iter()
                    .enumerate()
                    .map(|(i, (m, _))| StashEntry { index: i as u32, message: m.clone() })
                    .collect();
                app.on_stash_list(name, Ok(items));
            }
            Request::BranchLog { branch, mode, limit, then } => {
                app.on_branch_log(branch, then, Ok(repo.log(mode, limit)))
            }
            Request::WorktreeLog { name, mode, limit, then } => {
                app.on_worktree_log(name, then, Ok(repo.log(mode, limit)))
            }
            Request::CommitFiles { name, hash, label } => {
                let files = repo
                    .commits
                    .iter()
                    .find(|c| c.hash == hash)
                    .map(|c| {
                        c.files
                            .iter()
                            .map(|(p, _)| StatusEntry { code: "A ".to_string(), path: p.clone() })
                            .collect()
                    })
                    .unwrap_or_default();
                app.on_commit_files(name, hash, label, Ok(files));
            }
            Request::ListConflicts { target, source_label, kind, msg } => {
                let files = match &repo.clashes {
                    Some((t, f)) if *t == target && repo.merging.is_some() => {
                        vec![f.path.clone()]
                    }
                    _ => Vec::new(),
                };
                app.on_conflicts(target, source_label, kind, msg, Ok(files));
            }
            Request::ReadConflict { target, path } => {
                let file = match &repo.clashes {
                    Some((t, f)) if *t == target && f.path == path => Some(ConflictFile {
                        path: f.path.clone(),
                        segments: f.segments.clone(),
                        ours_label: f.ours_label.clone(),
                        theirs_label: f.theirs_label.clone(),
                    }),
                    _ => None,
                };
                app.on_conflict_read(target, path, file);
            }
            Request::WriteResolution { target, path, segments, actions } => {
                let mut out = String::new();
                let mut next = 0;
                for s in &segments {
                    match s {
                        ConflictSegment::Text(t) => out.push_str(t),
                        ConflictSegment::Hunk { ours, theirs } => {
                            match &actions[next] {
                                ResolutionAction::KeepOurs => out.push_str(ours),
                                ResolutionAction::KeepTheirs => out.push_str(theirs),
                                ResolutionAction::KeepBoth => {
                                    out.push_str(ours);
                                    out.push_str(theirs);
                                }
                                ResolutionAction::KeepBothReversed => {
                                    out.push_str(theirs);
                                    out.push_str(ours);
                                }
                                ResolutionAction::Manual(t) => out.push_str(t),
                            }
                            next += 1;
                        }
                    }
                }
                assert_eq!(next, actions.len(), "one choice for each hunk");
                repo.tree_mut(&target).unwrap().write(&path, &out);
                app.on_resolution_written(path, Ok(()));
            }
            Request::CheckoutSide { target, path, ours } => {
                let side = if ours { "ours" } else { "theirs" };
                repo.tree_mut(&target).unwrap().write(&path, side);
                app.on_side_taken(path, ours, Ok(()));
            }
            Request::CompleteResolution { target, kind } => {
                repo.merging = None;
                repo.clashes = None;
                if let ResolveKind::StashPop { index } = kind {
                    repo.stash.remove(index.unwrap_or(0) as usize);
                }
                app.on_resolution_completed(target.clone(), kind, Ok((target, None)));
            }
            Request::AbortResolution { target, kind } => {
                repo.merging = None;
                app.on_resolution_aborted(target, kind, Ok(()));
            }
            Request::BranchRename { old_name, new_name } => {
                for b in repo.branches.iter_mut().filter(|b| **b == old_name) {
                    *b = new_name.clone();
                }
                app.on_branch_renamed(Ok((old_name, new_name)));
            }
            Request::BranchDelete { name, force } => {
                let kept = repo.unmerged.contains(&name) && !force;
                if kept {
                    app.on_branch_deleted(name, Err("not fully merged".to_string()));
                } else {
                    repo.branches.retain(|b| *b != name);
                    app.on_branch_deleted(name.clone(), Ok((name, force)));
                }
            }
            Request::TryDeleteBranch { name, branch } => {
                let outcome = if repo.unmerged.contains(&branch) {
                    DeleteBranchOutcome::NotMerged
                } else {
                    repo.branches.retain(|b| *b != branch);
                    DeleteBranchOutcome::Deleted
                };
                app.on_branch_delete_tried(name, branch, Ok(outcome));
            }
            Request::WorktreeDirty { name, cached_dirty, branch, delete_branch } => {
                let dirty = repo.tree(&name).map(|t| !t.status(&repo.ignored).is_empty());
                app.on_worktree_dirty(name, cached_dirty, branch, delete_branch, dirty);
            }
            Request::OpenFile { name, path } => {
                let outcome = match repo.tree(&name) {
                    None => OpenOutcome::NoWorktree("no such worktree".to_string()),
                    Some(t) => match t.read(&path) {
                        None => OpenOutcome::Missing,
                        Some(_) => {
                            repo.recorded.push(format!("open {}/{path}", t.path));
                            OpenOutcome::Opened
                        }
                    },
                };
                app.on_file_opened(path, outcome);
            }
            Request::CopyText { text } => {
                repo.recorded.push(format!("copy {text}"));
                app.on_copied(text, Ok(()));
            }
            Request::CurrentBinary { release } => {
                app.on_current_binary(release, Ok("/usr/bin/wtm".to_string()))
            }
            Request::ReloadSettings => app.on_settings(Ok(repo.fields())),
            Request::SaveSettings => {
                repo.saves += 1;
                repo.worktree_dir = app.settings.fields.worktree_dir.clone();
                repo.copy = app.settings.fields.copy.clone();
                repo.auto_update_check = app.settings.fields.auto_update_check.clone();
                let f = &app.settings.fields;
                repo.repo_file = format!("worktree_dir = {:?}\ncopy = {:?}\n", f.worktree_dir, f.copy);
                repo.global_file = format!(
                    "auto_update_check = {}\ndiff_theme = {:?}\n",
                    f.auto_update_check, f.diff_theme
                );
                app.on_settings_saved(Ok(CONFIG_FILE.to_string()));
            }
            Request::SetTheme { .. } => {}
            Request::CheckForUpdate { .. } => repo.checks += 1,
            Request::Busy { task, op } => {
                let result = repo.run(op).map(|o| o.message());
                app.deliver_busy(task, result);
            }
        }
    }

    fn key(&mut self, key: KeyEvent) {
        self.app.set_now(self.repo.now);
        self.app.on_key(key);
        self.serve();
    }

    fn press(&mut self, code: KeyCode) {
        self.key(KeyEvent::plain(code));
    }

    fn press_shift(&mut self, code: KeyCode) {
        self.key(KeyEvent { code, shift: true, control: false });
    }

    fn ctrl_c(&mut self) {
        self.key(KeyEvent::ctrl(KeyCode::Char('c')));
    }

    fn type_str(&mut self, text: &str) {
        for c in text.chars() {
            self.press(KeyCode::Char(c));
        }
    }

    fn mouse(&mut self, kind: MouseKind, column: u16, row: u16) {
        self.app.set_now(self.repo.now);
        self.app.on_mouse(MouseEvent { kind, column, row });
        self.serve();
    }

    fn click(&mut self, col: u16, row: u16) {
        self.mouse(MouseKind::LeftDown, col, row);
    }

    fn tick(&mut self) {
        self.app.set_now(self.repo.now);
        self.app.tick();
        self.serve();
    }

    fn refresh(&mut self) {
        self.app.set_now(self.repo.now);
        self.app.refresh();
        self.serve();
    }

    /// Ticks until the operation in the background has ended.
    fn settle(&mut self) {
        for _ in 0..20 {
            if !matches!(self.app.view, View::Busy { .. }) {
                return;
            }
            self.tick();
        }
        panic!("the operation did not end");
    }

    fn settle_diff(&mut self) {
        self.app.poll_diff_load();
        self.serve();
        assert!(self.app.changes.pending.is_none());
    }

    /// Takes over what a create sent.
    fn wait_creating(&mut self, pred: impl Fn(&[String], bool) -> bool) {
        for _ in 0..20 {
            self.tick();
            match &self.app.view {
                View::Creating { lines, done, .. } => {
                    if pred(lines, *done) {
                        return;
                    }
                }
                _ => panic!("expected the creating view"),
            }
        }
        panic!("the create did not get there");
    }

    fn take_recorded(&mut self) -> Vec<String> {
        let mut out = Vec::new();
        std::mem::swap(&mut out, &mut self.repo.recorded);
        out
    }

    /// Records where things are on a screen of this size, as drawing does.
    fn draw(&mut self, width: u16, height: u16) {
        let app = &mut self.app;
        app.tab_hits = Vec::new();
        app.row_list = None;
        app.preview_list = None;
        app.diff_path_hit = None;
        if let View::Setup(_) = &app.view {
            app.row_list = Some(RowList {
                inner: Rect { x: 4, y: 6, width: width - 8, height: 2 },
                header: 0,
                offset: 0,
                len: 2,
            });
            return;
        }
        if app.modal.is_some() || !matches!(app.view, View::List) {
            return;
        }
        for (i, t) in Tab::ALL.into_iter().enumerate() {
            app.tab_hits
                .push((Rect { x: 1 + 14 * i as u16, y: 1, width: 12, height: 1 }, t));
        }
        let panel = height - 12;
        if app.tab == Tab::Worktrees {
            if let Some(name) = app.preview_due() {
                let files = self.repo.tree(&name).unwrap().status(&self.repo.ignored);
                app.set_preview(app.selected, files);
            }
            let len = app.worktree_preview.len();
            app.preview_scroll = app.preview_scroll.min(len.saturating_sub(panel as usize));
            app.preview_list = Some(RowList {
                inner: Rect { x: 60, y: 10, width: width - 62, height: panel },
                header: 0,
                offset: app.preview_scroll,
                len,
            });
        }
        if app.tab == Tab::Changes {
            app.row_list = Some(RowList {
                inner: Rect { x: 1, y: 4, width: 30, height: panel },
                header: 0,
                offset: 0,
                len: app.changes.rows.len(),
            });
            if current_file_index(&app.changes.rows, app.changes.selected).is_some() {
                app.diff_path_hit = Some(Rect { x: 34, y: 3, width: 20, height: 1 });
            }
        }
    }

    fn message(&self) -> &str {
        self.app.message.as_deref().unwrap_or("")
    }

    fn add_and_select_worktree(&mut self, branch: &str) {
        self.repo.add_tree(branch);
        self.refresh();
        self.app.selected = self.at(branch);
    }

    fn at(&self, name: &str) -> usize {
        self.app
            .worktrees
            .iter()
            .position(|w| w.name == name)
            .expect("the worktree is listed")
    }

    fn has(&self, name: &str) -> bool {
        self.app.worktrees.iter().any(|w| w.name == name)
    }

    fn on_branch(&self, branch: &str) -> bool {
        self.app.worktrees.iter().any(|w| w.branch.as_deref() == Some(branch))
    }

    fn dirty_main(&mut self) {
        self.repo.main().write("scratch.txt", "work\n");
        self.refresh();
        self.app.selected = 0;
    }

    fn cursor_path(&self) -> Option<String> {
        let c = &self.app.changes;
        current_file_index(&c.rows, c.selected).map(|i| c.files[i].path.clone())
    }

    fn select_diff_file(&mut self, path: &str) {
        assert_eq!(self.app.tab, Tab::Changes, "expected the Changes tab");
        loop {
            if self.cursor_path().as_deref() == Some(path) {
                self.settle_diff();
                return;
            }
            let c = &self.app.changes;
            assert!(c.selected + 1 < c.rows.len(), "{path} not in the diff list");
            self.press(KeyCode::Down);
        }
    }

    fn select_diff_folder(&mut self, prefix: &str) {
        assert_eq!(self.app.tab, Tab::Changes, "expected the Changes tab");
        loop {
            let c = &self.app.changes;
            if matches!(c.rows.get(c.selected), Some(DiffRow::Folder { prefix: p, .. }) if p == prefix)
            {
                return;
            }
            assert!(c.selected + 1 < c.rows.len(), "{prefix} not in the diff list");
            self.press(KeyCode::Down);
        }
    }

    fn switch_matches(&self) -> Vec<String> {
        let View::Switch { branches, filter, .. } = &self.app.view else {
            panic!("expected the switch picker");
        };
        filtered_candidates(branches, filter.as_str())
            .into_iter()
            .map(|i| branches[i].branch.clone())
            .collect()
    }

    fn wizard(&self) -> &SetupWizard {
        match &self.app.view {
            View::Setup(w) => w,
            _ => panic!("expected the wizard, message: {:?}", self.app.message),
        }
    }

    /// Two trees that edited the same line, with the merge under way.
    fn into_conflict_resolver(&mut self) {
        self.repo.main().write("shared.txt", "main version\n");
        self.repo.main().commit("shared.txt");
        self.add_and_select_worktree("feature");
        let t = self.repo.tree_mut("feature").unwrap();
        t.write("shared.txt", "feature version\n");
        t.commit("shared.txt");
        self.repo.clashes = Some((
            "feature".to_string(),
            ConflictFile {
                path: "shared.txt".to_string(),
                segments: vec![ConflictSegment::Hunk {
                    ours: "feature version\n".to_string(),
                    theirs: "main version\n".to_string(),
                }],
                ours_label: "HEAD".to_string(),
                theirs_label: "main".to_string(),
            },
        ));
        self.press(KeyCode::Tab);
        self.press(KeyCode::Tab);
        self.app.branch_selected =
            self.app.branches.iter().position(|b| b.name == "main").expect("main branch listed");
        self.press(KeyCode::Char('m'));
        if let View::MergePick { targets, selected, .. } = &mut self.app.view {
            *selected = targets.iter().position(|t| t.name == "feature").unwrap();
        }
        self.press(KeyCode::Enter);
        self.settle();
    }

    fn first_choice(&self) -> &Option<ResolutionAction> {
        match &self.app.view {
            View::ConflictResolver { current: Some(rf), .. } => &rf.actions[0],
            _ => panic!("expected the resolver with a loaded file"),
        }
    }

    fn changes_tab_with_one_file(&mut self) -> String {
        self.repo.main().write("hello.txt", "hi\n");
        self.refresh();
        self.app.selected = 0;
        self.app.select_tab(Tab::Changes);
        self.serve();
        self.settle_diff();
        let path = self.cursor_path().expect("the cursor sits on the changed file");
        self.draw(100, 30);
        path
    }
}

fn newer_release() -> Release {
    Release {
        tag: "v99.0.0".to_string(),
        version: "99.0.0".to_string(),
        url: "https://example.test/releases/tag/v99.0.0".to_string(),
    }
}

fn sent<T>(value: T) -> Option<Task<T>> {
    let mut t = Task::new(7);
    t.push(value);
    Some(t)
}

fn dir_entry(name: &str, path: &str, is_dir: bool) -> BrowserEntry {
    BrowserEntry { name: name.to_string(), path: path.to_string(), is_dir }
}

fn write_changed_files(b: &mut Bench, count: usize) {
    for i in 0..count {
        b.repo.main().write(&format!("f{i:02}.txt"), &format!("{i}\n"));
    }
}

#[test]
fn lists_main_worktree_on_startup() {
    let b = Bench::new();
    assert_eq!(b.app.worktrees.len(), 1);
    assert!(b.app.worktrees[0].is_main);
}

#[test]
fn q_quits_and_question_mark_opens_help() {
    let mut b = Bench::new();
    b.press(KeyCode::Char('?'));
    assert!(b.app.show_help);
    assert_eq!(b.app.help_tab, HelpTab::Worktrees);
    b.press(KeyCode::Char('x'));
    assert!(!b.app.show_help);
    assert!(matches!(b.app.view, View::List));
    b.press(KeyCode::Char('q'));
    assert!(b.app.quit);
}

#[test]
fn help_opens_on_the_tab_for_the_active_view() {
    let mut b = Bench::new();
    b.app.tab = Tab::Branches;
    b.press(KeyCode::Char('?'));
    assert_eq!(b.app.help_tab, HelpTab::Branches);
    b.press(KeyCode::Esc);
    assert!(!b.app.show_help);
    b.app.tab = Tab::Worktrees;
    b.press(KeyCode::Char('n'));
    b.press(KeyCode::F(1));
    assert!(b.app.show_help);
    assert_eq!(b.app.help_tab, HelpTab::Basics);
}

#[test]
fn help_tabs_cycle_and_reset_scroll() {
    let mut b = Bench::new();
    b.press(KeyCode::Char('?'));
    assert_eq!(b.app.help_tab, HelpTab::Worktrees);
    b.press(KeyCode::Down);
    assert_eq!(b.app.help_scroll, 1);
    b.press(KeyCode::Tab);
    assert_eq!(b.app.help_tab, HelpTab::Branches);
    assert_eq!(b.app.help_scroll, 0);
    b.press(KeyCode::BackTab);
    assert_eq!(b.app.help_tab, HelpTab::Worktrees);
    b.press(KeyCode::Up);
    assert_eq!(b.app.help_scroll, 0);
    assert!(b.app.show_help);
}

#[test]
fn f1_opens_help_where_question_mark_is_a_literal() {
    let mut b = Bench::new();
    b.press(KeyCode::Char('n'));
    b.type_str("fix/what?");
    assert!(!b.app.show_help);
    let View::Create { name, .. } = &b.app.view else {
        panic!("expected the create dialog");
    };
    assert_eq!(name.value, "fix/what?");
    b.press(KeyCode::F(1));
    assert!(b.app.show_help);
    b.press(KeyCode::Esc);
    let View::Create { name, .. } = &b.app.view else {
        panic!("expected the create dialog");
    };
    assert_eq!(name.value, "fix/what?");
}

#[test]
fn any_key_dismisses_the_error_popup() {
    let mut b = Bench::new();
    b.app.set_error("boom".to_string());
    assert!(b.app.error.is_some());
    b.press(KeyCode::Char('x'));
    assert!(b.app.error.is_none());
}

#[test]
fn create_dialog_name_input_moves_cursor() {
    let mut b = Bench::new();
    b.press(KeyCode::Char('n'));
    b.type_str("abc");
    b.press(KeyCode::Left);
    b.press(KeyCode::Char('X'));
    match &b.app.view {
        View::Create { name, .. } => {
            assert_eq!(name.as_str(), "abXc");
            assert_eq!(name.cursor, 3);
        }
        _ => panic!("expected create dialog"),
    }
    b.press(KeyCode::Esc);
    assert!(matches!(b.app.view, View::List));
}

#[test]
fn create_dialog_offers_existing_branches() {
    let mut b = Bench::new();
    b.repo.branches.push("spare".to_string());
    b.repo.branches.push("other".to_string());
    b.press(KeyCode::Char('n'));
    match &b.app.view {
        View::Create { branches, selected, .. } => {
            assert_eq!(*selected, 0);
            assert!(branches.iter().any(|c| c.branch == "spare"));
            assert!(branches.iter().any(|c| c.branch == "other"));
            assert!(!branches.iter().any(|c| c.branch == "main"));
        }
        _ => panic!("expected create dialog"),
    }
    b.press(KeyCode::Down);
    let expected = match &b.app.view {
        View::Create { branches, selected, .. } => branches[*selected - 1].branch.clone(),
        _ => panic!("expected create dialog"),
    };
    b.press(KeyCode::Enter);
    match &b.app.view {
        View::Creating { branch, .. } => assert_eq!(*branch, expected),
        _ => panic!("expected creating view"),
    }
    b.wait_creating(|_, done| done);
    b.press(KeyCode::Enter);
    assert!(b.has(&expected));
}

#[test]
fn create_dialog_new_branch_uses_typed_name() {
    let mut b = Bench::new();
    b.press(KeyCode::Char('n'));
    b.type_str("feature");
    b.press(KeyCode::Enter);
    match &b.app.view {
        View::Creating { branch, .. } => assert_eq!(branch, "feature"),
        _ => panic!("expected creating view"),
    }
    b.wait_creating(|_, done| done);
    b.press(KeyCode::Enter);
    assert!(b.has("feature"));
}

#[test]
fn create_dialog_base_button_focus_and_pick() {
    let mut b = Bench::new();
    b.repo.branches.push("release".to_string());
    b.press(KeyCode::Char('n'));
    b.type_str("feature");
    b.press(KeyCode::Tab);
    match &b.app.view {
        View::Create { base_focus, base_pick, .. } => {
            assert!(*base_focus);
            assert!(base_pick.is_none());
        }
        _ => panic!("expected create dialog"),
    }
    b.press(KeyCode::Tab);
    assert!(matches!(b.app.view, View::Create { base_pick: Some(_), .. }));
    if let View::Create { all_branches, base_pick, .. } = &mut b.app.view {
        *base_pick = Some(all_branches.iter().position(|n| n == "release").unwrap());
    }
    b.press(KeyCode::Enter);
    match &b.app.view {
        View::Create { base, base_pick, .. } => {
            assert_eq!(base, "release");
            assert!(base_pick.is_none());
        }
        _ => panic!("expected create dialog"),
    }
}

#[test]
fn tab_key_cycles_top_level_tabs() {
    let mut b = Bench::new();
    assert_eq!(b.app.tab, Tab::Worktrees);
    b.press(KeyCode::Tab);
    assert_eq!(b.app.tab, Tab::Changes);
    b.press(KeyCode::Tab);
    assert_eq!(b.app.tab, Tab::Branches);
    assert!(!b.app.branches.is_empty());
    b.press(KeyCode::Tab);
    assert_eq!(b.app.tab, Tab::Stash);
    b.press(KeyCode::Tab);
    assert_eq!(b.app.tab, Tab::Settings);
    b.press(KeyCode::Tab);
    assert_eq!(b.app.tab, Tab::Worktrees);
    b.press(KeyCode::BackTab);
    assert_eq!(b.app.tab, Tab::Settings);
    b.press(KeyCode::BackTab);
    assert_eq!(b.app.tab, Tab::Stash);
}

#[test]
fn switch_with_no_other_branches_still_opens_the_picker() {
    let mut b = Bench::new();
    b.press(KeyCode::Char('b'));
    assert!(matches!(b.app.view, View::Switch { .. }));
    assert!(b.switch_matches().is_empty());
}

#[test]
fn main_worktree_cannot_be_deleted() {
    let mut b = Bench::new();
    b.press(KeyCode::Char('d'));
    assert!(matches!(b.app.view, View::List));
    assert!(b.message().contains("main worktree"));
}

#[test]
fn reverting_a_new_file_reports_it_cannot_be_reverted() {
    let mut b = Bench::new();
    b.press(KeyCode::Enter);
    b.press(KeyCode::Char('u'));
    assert!(b.app.modal.is_none(), "undo must not prompt for a new file");
    assert_eq!(b.app.tab, Tab::Changes);
    let msg = b.message();
    assert!(msg.contains("new") && msg.contains("delete"), "got: {msg}");
}

#[test]
fn deleting_a_file_from_the_diff_view_removes_it() {
    let mut b = Bench::new();
    b.press(KeyCode::Enter);
    b.press(KeyCode::Char('d'));
    assert!(matches!(b.app.modal, Some(Modal::Confirm { .. })));
    assert_eq!(b.app.tab, Tab::Changes);
    b.press(KeyCode::Char('y'));
    assert!(b.message().contains("deleted"));
    assert!(b.app.changes.files.is_empty());
}

#[test]
fn enter_opens_diff_and_scrolls() {
    let mut b = Bench::new();
    b.press(KeyCode::Enter);
    assert_eq!(b.app.tab, Tab::Changes);
    assert!(!b.app.changes.files.is_empty(), "the untracked .wtm.toml shows");
    b.press_shift(KeyCode::Down);
    b.press_shift(KeyCode::Down);
    assert_eq!(b.app.changes.scroll, 6);
    b.press(KeyCode::Char('J'));
    assert_eq!(b.app.changes.scroll, 9);
    b.mouse(MouseKind::ScrollUp, 0, 0);
    b.press(KeyCode::Char('K'));
    b.press_shift(KeyCode::Up);
    assert_eq!(b.app.changes.scroll, 0);
    b.press(KeyCode::Esc);
    assert!(b.app.quit);
}

#[test]
fn diff_view_marks_and_reverts_a_file() {
    let mut b = Bench::new();
    b.repo.main().write("f.txt", "one\n");
    b.repo.main().commit("f.txt");
    b.repo.main().write("f.txt", "two\n");
    b.refresh();
    b.app.selected = 0;

    b.press(KeyCode::Enter);
    b.select_diff_file("f.txt");
    assert!(b.app.changes.content.contains("two"), "{}", b.app.changes.content);
    assert!(b.app.changes.marked.iter().all(|m| *m), "everything is marked by default");
    b.press(KeyCode::Char(' '));
    {
        let c = &b.app.changes;
        let i = c.files.iter().position(|f| f.path == "f.txt").unwrap();
        assert_eq!(current_file_index(&c.rows, c.selected), Some(i));
        assert!(!c.marked[i], "space toggled the mark off");
    }
    b.press(KeyCode::Char('u'));
    b.press(KeyCode::Char('y'));
    assert_eq!(b.repo.main().read("f.txt").unwrap(), "one\n");
}

#[test]
fn diff_view_shift_s_stashes_marked_files() {
    let mut b = Bench::new();
    for (name, one, two) in [("a.txt", "a1\n", "a2\n"), ("b.txt", "b1\n", "b2\n")] {
        b.repo.main().write(name, one);
        b.repo.main().commit(name);
        b.repo.main().write(name, two);
    }
    b.refresh();
    b.app.selected = 0;

    b.press(KeyCode::Enter);
    b.select_diff_file("b.txt");
    b.press(KeyCode::Char(' '));
    b.press(KeyCode::Char('S'));
    assert_eq!(b.repo.main().read("a.txt").unwrap(), "a1\n");
    assert_eq!(b.repo.main().read("b.txt").unwrap(), "b2\n");
}

#[test]
fn diff_view_shift_s_reports_when_nothing_marked() {
    let mut b = Bench::new();
    b.repo.main().write("c.txt", "c\n");
    b.repo.main().commit("c.txt");
    b.repo.main().write("c.txt", "cc\n");
    b.refresh();
    b.app.selected = 0;

    b.press(KeyCode::Enter);
    b.press(KeyCode::Char('a'));
    b.press(KeyCode::Char('S'));
    assert!(b.message().contains("no files marked"), "message: {:?}", b.app.message);
    assert_eq!(b.repo.main().read("c.txt").unwrap(), "cc\n");
}

#[test]
fn create_into_existing_worktree_dir_offers_open() {
    let mut b = Bench::new();
    b.add_and_select_worktree("spare");
    b.app.selected = 0;

    b.press(KeyCode::Char('n'));
    b.type_str("spare");
    b.press(KeyCode::Enter);
    match &b.app.modal {
        Some(Modal::Confirm {
            options,
            selected,
            action: ModalAction::ConfirmExisting { existing_name, .. },
            ..
        }) => {
            assert_eq!(existing_name.as_deref(), Some("spare"));
            assert_eq!(*selected, 0, "defaults to Open for a real worktree");
            assert!(options[0].enabled, "open is enabled for a real worktree");
        }
        _ => panic!("expected the existing-directory prompt"),
    }
    b.press(KeyCode::Enter);
    assert_eq!(b.app.tab, Tab::Changes);
    assert_eq!(b.app.changes.name, "spare");
}

#[test]
fn diff_view_click_selects_file() {
    let mut b = Bench::new();
    b.repo.main().commit(CONFIG_FILE);
    for (name, one, two) in [("a.txt", "1\n", "11\n"), ("b.txt", "2\n", "22\n")] {
        b.repo.main().write(name, one);
        b.repo.main().commit(name);
        b.repo.main().write(name, two);
    }
    b.refresh();
    b.app.selected = 0;
    b.press(KeyCode::Enter);

    let len = b.app.changes.rows.len();
    assert_eq!(len, 2);
    b.app.row_list = Some(RowList {
        inner: Rect { x: 0, y: 2, width: 30, height: 10 },
        header: 0,
        offset: 0,
        len,
    });

    b.click(1, 3);
    b.settle_diff();
    {
        let c = &b.app.changes;
        assert_eq!(c.selected, 1, "cursor moved to the clicked row");
        assert_eq!(current_file_index(&c.rows, c.selected), Some(1));
        assert!(c.content.contains("22"), "clicked file's diff loaded: {}", c.content);
    }

    b.click(1, 99);
    assert_eq!(b.app.changes.selected, 1);
}

#[test]
fn commit_view_click_focuses_and_selects_file() {
    let mut b = Bench::new();
    b.repo.main().write("a.txt", "a\n");
    b.repo.main().write("b.txt", "b\n");
    b.refresh();
    b.app.selected = 0;
    b.press(KeyCode::Char('c'));
    let len = match &b.app.view {
        View::Commit { files, .. } => files.len(),
        _ => panic!("expected commit view"),
    };
    b.app.row_list = Some(RowList {
        inner: Rect { x: 0, y: 2, width: 30, height: 10 },
        header: 0,
        offset: 0,
        len: len.min(10),
    });

    b.click(1, 3);
    match &b.app.view {
        View::Commit { cursor, focus, .. } => {
            assert_eq!(*cursor, 1, "cursor moved to the clicked file");
            assert!(matches!(focus, CommitFocus::Files), "focus switched to the file list");
        }
        _ => panic!("expected commit view"),
    }
}

fn add_commit(b: &mut Bench, hash: &str, subject: &str, file: &str, text: &str) {
    b.repo.main().write(file, text);
    b.repo.main().commit(file);
    b.repo.commits.push(Commit {
        hash: hash.to_string(),
        subject: subject.to_string(),
        files: vec![(file.to_string(), text.to_string())],
    });
}

#[test]
fn log_click_moves_the_commit_cursor() {
    let mut b = Bench::new();
    add_commit(&mut b, "one0000", "one", "a.txt", "x\n");
    add_commit(&mut b, "two0000", "two", "b.txt", "x\n");
    b.app.selected = 0;
    b.press(KeyCode::Char('l'));
    let len = match &b.app.view {
        View::Log { lines, .. } => lines.len(),
        _ => panic!("expected the log view"),
    };
    assert!(len >= 2, "need at least two commits to test a click");
    b.app.row_list = Some(RowList {
        inner: Rect { x: 0, y: 2, width: 40, height: 10 },
        header: 0,
        offset: 0,
        len,
    });
    b.click(1, 3);
    match &b.app.view {
        View::Log { selected, lines, .. } => {
            assert_eq!(*selected, 1, "cursor moved to the clicked commit");
            assert!(lines[*selected].entry.is_some());
        }
        _ => panic!("expected the log view"),
    }
}

#[test]
fn diff_view_i_adds_pattern_to_gitignore() {
    let mut b = Bench::new();
    b.repo.main().write("debug.log", "noise\n");
    b.refresh();
    b.app.selected = 0;

    b.press(KeyCode::Enter);
    b.select_diff_file("debug.log");
    b.press(KeyCode::Char('i'));
    match &b.app.modal {
        Some(Modal::Confirm {
            selected,
            action: ModalAction::IgnorePath { file, pattern },
            ..
        }) => {
            assert_eq!(file, "debug.log");
            assert_eq!(pattern, "*.log");
            assert_eq!(*selected, 0);
        }
        _ => panic!("expected the ignore prompt to be open"),
    }

    b.press(KeyCode::Down);
    b.press(KeyCode::Enter);
    assert_eq!(b.repo.ignored, vec!["*.log"]);
    assert!(b.app.modal.is_none(), "prompt closed after confirming");
    assert_eq!(b.app.tab, Tab::Changes);
}

#[test]
fn diff_view_i_can_ignore_single_file_and_esc_cancels() {
    let mut b = Bench::new();
    b.repo.main().write("secret.log", "noise\n");
    b.refresh();
    b.app.selected = 0;

    b.press(KeyCode::Enter);
    b.select_diff_file("secret.log");
    b.press(KeyCode::Char('i'));
    b.press(KeyCode::Esc);
    assert!(b.repo.ignored.is_empty(), "esc wrote nothing");
    assert!(b.app.modal.is_none());
    assert_eq!(b.app.tab, Tab::Changes);

    b.select_diff_file("secret.log");
    b.press(KeyCode::Char('i'));
    b.press(KeyCode::Enter);
    assert_eq!(b.repo.ignored, vec!["secret.log"]);
}

#[test]
fn commit_from_diff_esc_returns_to_the_changes_tab_it_opened_from() {
    let mut b = Bench::new();
    b.repo.main().write("change.txt", "hi\n");
    b.refresh();
    b.app.selected = 0;

    b.press(KeyCode::Enter);
    assert_eq!(b.app.tab, Tab::Changes);
    b.press(KeyCode::Char('c'));
    assert!(matches!(b.app.view, View::Commit { .. }));

    b.press(KeyCode::Esc);
    assert!(matches!(b.app.view, View::List));
    assert_eq!(b.app.tab, Tab::Changes);
    assert!(b.app.stack.is_empty(), "back at the root with an empty stack");
}

#[test]
fn commit_from_list_esc_returns_to_the_list() {
    let mut b = Bench::new();
    b.repo.main().write("change.txt", "hi\n");
    b.refresh();
    b.app.selected = 0;

    b.press(KeyCode::Char('c'));
    assert!(matches!(b.app.view, View::Commit { .. }));
    b.press(KeyCode::Esc);
    assert!(matches!(b.app.view, View::List));
    assert!(b.app.stack.is_empty());
}

#[test]
fn commit_browser_esc_returns_to_the_log_then_the_list() {
    let mut b = Bench::new();
    add_commit(&mut b, "file000", "add file", "file.txt", "one\n");
    b.app.selected = 0;

    b.press(KeyCode::Char('l'));
    assert!(matches!(b.app.view, View::Log { .. }));
    b.press(KeyCode::Enter);
    assert!(matches!(b.app.view, View::CommitDiff { .. }));

    b.press(KeyCode::Esc);
    assert!(matches!(b.app.view, View::Log { .. }));
    b.press(KeyCode::Esc);
    assert!(matches!(b.app.view, View::List));
    assert!(b.app.stack.is_empty());
}

#[test]
fn diff_view_refreshes_on_r_and_on_tick() {
    let mut b = Bench::new();
    b.repo.main().write("file.txt", "one\n");
    b.repo.main().commit("file.txt");
    b.repo.main().write("file.txt", "two\n");
    b.app.selected = 0;
    b.press(KeyCode::Enter);
    b.select_diff_file("file.txt");
    assert!(b.app.changes.content.contains("two"), "{}", b.app.changes.content);

    b.repo.main().write("file.txt", "three\n");
    b.press(KeyCode::Char('r'));
    b.select_diff_file("file.txt");
    assert!(b.app.changes.content.contains("three"), "{}", b.app.changes.content);

    b.repo.main().write("file.txt", "four\n");
    b.app.changes.last_refresh = b.repo.now - DIFF_REFRESH_INTERVAL * 2;
    b.tick();
    b.select_diff_file("file.txt");
    assert!(b.app.changes.content.contains("four"), "{}", b.app.changes.content);
}

#[test]
fn auto_refresh_keeps_scroll_on_the_same_file() {
    let mut b = Bench::new();
    let body: String = (0..40).map(|n| format!("line {n}\n")).collect();
    b.repo.main().write("file.txt", &body);
    b.repo.main().commit("file.txt");
    b.repo.main().write("file.txt", &format!("{body}changed\n"));
    b.refresh();
    b.app.selected = 0;
    b.press(KeyCode::Enter);
    b.select_diff_file("file.txt");

    b.press_shift(KeyCode::Down);
    b.press_shift(KeyCode::Down);
    let before = b.app.changes.scroll;
    assert_eq!(before, 6);
    b.app.changes.last_refresh = b.repo.now - DIFF_REFRESH_INTERVAL * 2;
    b.tick();
    assert_eq!(b.app.changes.scroll, before, "auto-refresh must not reset scroll");
    b.tick();
    assert_eq!(b.app.changes.scroll, before);
}

#[test]
fn diff_view_space_toggles_a_whole_folder() {
    let mut b = Bench::new();
    b.repo.main().write("pkg/a.txt", "a\n");
    b.repo.main().write("pkg/b.txt", "b\n");
    b.repo.main().write("top.txt", "t\n");
    b.refresh();
    b.app.selected = 0;
    b.press(KeyCode::Enter);

    b.select_diff_folder("pkg/");
    b.press(KeyCode::Char(' '));
    for (f, m) in b.app.changes.files.iter().zip(b.app.changes.marked.iter()) {
        if f.path.starts_with("pkg/") {
            assert!(!m, "{} should be unmarked", f.path);
        } else {
            assert!(m, "{} should stay marked", f.path);
        }
    }

    b.select_diff_folder("pkg/");
    b.press(KeyCode::Char(' '));
    assert!(b.app.changes.marked.iter().all(|m| *m));
}

#[test]
fn diff_view_i_ignores_a_whole_folder() {
    let mut b = Bench::new();
    b.repo.main().write("build/out/x.o", "o\n");
    b.refresh();
    b.app.selected = 0;
    b.press(KeyCode::Enter);

    b.select_diff_folder("build/");
    b.press(KeyCode::Char('i'));
    match &b.app.modal {
        Some(Modal::Confirm { action: ModalAction::IgnorePath { file, pattern }, .. }) => {
            assert_eq!(file, "build/");
            assert_eq!(pattern, "build/");
        }
        _ => panic!("expected the ignore prompt"),
    }
    b.press(KeyCode::Enter);
    assert_eq!(b.repo.ignored, vec!["build/"]);
}

#[test]
fn diff_refresh_clamps_scroll_when_content_shrinks() {
    let mut b = Bench::new();
    b.repo.main().write("file.txt", "a\nb\nc\n");
    b.repo.main().commit("file.txt");
    b.repo.main().write("file.txt", "a\nB\nC\nD\n");
    b.app.selected = 0;
    b.press(KeyCode::Enter);
    b.select_diff_file("file.txt");
    b.press_shift(KeyCode::Down);
    b.repo.main().write("file.txt", "a\nb\nc\n");
    b.press(KeyCode::Char('r'));
    assert!(!b.app.changes.files.iter().any(|f| f.path == "file.txt"));
    assert_eq!(b.app.changes.scroll, 0, "reload resets the scroll");
}

#[test]
fn uninitialized_repo_opens_setup_wizard_and_esc_quits() {
    let mut b = Bench::uninitialized();
    assert!(matches!(b.wizard().step, Step::Welcome { selected: 0 }));
    assert_eq!(b.wizard().progress(), "welcome");
    b.press(KeyCode::Esc);
    assert!(b.app.quit);
}

#[test]
fn setup_manual_flow_writes_config_and_enters_list() {
    let mut b = Bench::uninitialized();
    b.press(KeyCode::Enter);
    b.press(KeyCode::Down);
    b.press(KeyCode::Enter);
    b.type_str(".env");
    b.press(KeyCode::Enter);
    b.press(KeyCode::Enter);
    assert!(matches!(b.wizard().step, Step::Review { .. }));
    assert_eq!(b.wizard().draft.worktree_dir, "inside");
    assert_eq!(b.wizard().draft.copy, vec![".env"]);
    assert_eq!(b.wizard().progress(), "step 4 of 4");
    for _ in 0..3 {
        b.press(KeyCode::Down);
    }
    b.press(KeyCode::Enter);

    assert!(matches!(b.app.view, View::List), "message: {:?}", b.app.message);
    assert!(b.repo.main().read(CONFIG_FILE).is_some());
    assert_eq!(b.repo.written.as_ref().unwrap().worktree_dir, "inside");
    assert_eq!(b.app.worktrees.len(), 1);
}

#[test]
fn setup_clone_flow_loads_edits_and_writes() {
    let mut b = Bench::uninitialized();
    b.repo.clones.push((
        "/tmp/other".to_string(),
        ConfigDraft {
            worktree_dir: "home".to_string(),
            copy: vec![".env".to_string()],
            run: Vec::new(),
        },
    ));
    b.press(KeyCode::Char('2'));
    b.type_str("/tmp/other");
    b.press(KeyCode::Enter);
    assert!(matches!(b.wizard().step, Step::Review { .. }));
    assert_eq!(b.wizard().draft.worktree_dir, "home");
    assert_eq!(b.wizard().draft.copy, vec![".env"]);
    assert!(b.wizard().cloned);
    assert_eq!(b.wizard().progress(), "step 2 of 2");

    b.press(KeyCode::Enter);
    for _ in 0..4 {
        b.press(KeyCode::Backspace);
    }
    b.type_str("inside");
    b.press(KeyCode::Enter);
    for _ in 0..3 {
        b.press(KeyCode::Down);
    }
    b.press(KeyCode::Enter);

    assert!(matches!(b.app.view, View::List), "message: {:?}", b.app.message);
    let draft = b.repo.written.as_ref().unwrap();
    assert_eq!(draft.worktree_dir, "inside");
    assert_eq!(draft.copy, vec![".env"]);
}

#[test]
fn setup_prefills_answers_detected_in_the_repo() {
    let mut b = Bench::uninitialized();
    b.repo.suggest_copy = vec![".env".to_string()];
    b.repo.suggest_run = vec!["npm install".to_string()];

    b.press(KeyCode::Enter);
    b.press(KeyCode::Enter);
    match &b.wizard().step {
        Step::CopyFiles { input } => assert_eq!(input.as_str(), ".env"),
        _ => panic!("expected the copy-files question"),
    }
    b.press(KeyCode::Enter);
    match &b.wizard().step {
        Step::RunCommands { commands, input } => {
            assert!(commands.is_empty(), "the only suggestion sits in the input");
            assert_eq!(input.as_str(), "npm install");
        }
        _ => panic!("expected the commands question"),
    }
    b.press(KeyCode::Enter);
    b.press(KeyCode::Enter);
    assert_eq!(b.wizard().draft.copy, vec![".env"]);
    assert_eq!(b.wizard().draft.run, vec!["npm install"]);
}

#[test]
fn setup_backspace_takes_back_the_last_command() {
    let mut b = Bench::uninitialized();
    b.press(KeyCode::Enter);
    b.press(KeyCode::Enter);
    b.press(KeyCode::Enter);
    b.type_str("make buidl");
    b.press(KeyCode::Enter);
    b.press(KeyCode::Backspace);
    match &b.wizard().step {
        Step::RunCommands { commands, input } => {
            assert!(commands.is_empty());
            assert_eq!(input.as_str(), "make buidl");
        }
        _ => panic!("expected the commands question"),
    }
    for _ in 0..20 {
        b.press(KeyCode::Backspace);
    }
    assert!(matches!(b.wizard().step, Step::RunCommands { .. }));
}

#[test]
fn setup_esc_walks_back_through_the_questions() {
    let mut b = Bench::uninitialized();
    b.press(KeyCode::Enter);
    b.press(KeyCode::Down);
    b.press(KeyCode::Enter);
    b.type_str(".env");
    b.press(KeyCode::Enter);
    b.type_str("make");
    b.press(KeyCode::Enter);
    b.press(KeyCode::Enter);

    b.press(KeyCode::Esc);
    match &b.wizard().step {
        Step::RunCommands { commands, input } => {
            assert_eq!(commands, &vec!["make".to_string()]);
            assert_eq!(input.as_str(), "", "no suggestion is re-added");
        }
        other => panic!("expected the commands question, got {:?}", other.name()),
    }
    b.press(KeyCode::Esc);
    match &b.wizard().step {
        Step::CopyFiles { input } => assert_eq!(input.as_str(), ".env"),
        other => panic!("expected the copy question, got {:?}", other.name()),
    }
    b.press(KeyCode::Esc);
    b.press(KeyCode::Esc);
    assert!(matches!(b.wizard().step, Step::Welcome { .. }));
    b.press(KeyCode::Esc);
    assert!(b.app.quit);
}

#[test]
fn setup_esc_keeps_the_commands_entered_so_far() {
    let mut b = Bench::uninitialized();
    b.repo.suggest_copy = vec![".env".to_string()];
    b.repo.suggest_run = vec!["corepack enable".to_string(), "npm install".to_string()];
    b.press(KeyCode::Enter);
    b.press(KeyCode::Enter);
    b.press(KeyCode::Enter);
    b.press(KeyCode::Enter);
    b.type_str("make");
    b.press(KeyCode::Enter);
    b.type_str("npm t");
    b.press(KeyCode::Esc);
    assert!(matches!(b.wizard().step, Step::CopyFiles { .. }));
    assert_eq!(b.wizard().draft.run, vec!["corepack enable", "npm install", "make"]);
    b.press(KeyCode::Enter);
    match &b.wizard().step {
        Step::RunCommands { commands, input } => {
            assert_eq!(commands, &vec!["corepack enable", "npm install", "make"]);
            assert_eq!(input.as_str(), "npm t");
        }
        other => panic!("expected the commands question, got {:?}", other.name()),
    }
}

#[test]
fn setup_esc_keeps_the_files_typed_so_far() {
    let mut b = Bench::uninitialized();
    b.repo.suggest_copy = vec![".env".to_string()];
    b.press(KeyCode::Enter);
    b.press(KeyCode::Enter);
    b.type_str(", .env.local");
    b.press(KeyCode::Esc);
    assert!(matches!(b.wizard().step, Step::Location { .. }));
    assert!(b.wizard().draft.copy.is_empty(), "nothing was confirmed yet");
    b.press(KeyCode::Enter);
    match &b.wizard().step {
        Step::CopyFiles { input } => assert_eq!(input.as_str(), ".env, .env.local"),
        other => panic!("expected the copy question, got {:?}", other.name()),
    }
}

#[test]
fn setup_esc_keeps_the_location_typed_so_far() {
    let mut b = Bench::uninitialized();
    b.press(KeyCode::Enter);
    for _ in 0..3 {
        b.press(KeyCode::Down);
    }
    b.press(KeyCode::Enter);
    match &b.wizard().step {
        Step::LocationCustom { input } => assert_eq!(input.as_str(), "sibling"),
        other => panic!("expected the typed location, got {:?}", other.name()),
    }
    b.type_str("/trees");
    b.press(KeyCode::Esc);
    assert!(matches!(b.wizard().step, Step::Location { selected: 3 }));
    assert_eq!(b.wizard().draft.worktree_dir, "sibling", "nothing was confirmed yet");
    b.press(KeyCode::Enter);
    match &b.wizard().step {
        Step::LocationCustom { input } => assert_eq!(input.as_str(), "sibling/trees"),
        other => panic!("expected the typed location, got {:?}", other.name()),
    }
    b.press(KeyCode::Esc);
    for _ in 0..2 {
        b.press(KeyCode::Up);
    }
    b.press(KeyCode::Enter);
    assert_eq!(b.wizard().draft.worktree_dir, "inside");
    b.press(KeyCode::Esc);
    for _ in 0..3 {
        b.press(KeyCode::Down);
    }
    b.press(KeyCode::Enter);
    match &b.wizard().step {
        Step::LocationCustom { input } => {
            assert_eq!(input.as_str(), "inside", "a location chosen later is shown")
        }
        other => panic!("expected the typed location, got {:?}", other.name()),
    }
}

#[test]
fn setup_esc_from_a_cloned_review_keeps_the_path() {
    let mut b = Bench::uninitialized();
    let draft = ConfigDraft {
        worktree_dir: "home".to_string(),
        copy: Vec::new(),
        run: Vec::new(),
    };
    b.repo.clones.push(("/tmp/other".to_string(), draft));
    b.press(KeyCode::Char('2'));
    b.type_str("/tmp/other");
    b.press(KeyCode::Enter);
    assert_eq!(b.wizard().progress(), "step 2 of 2");
    b.press(KeyCode::Esc);
    match &b.wizard().step {
        Step::ClonePath { input } => assert_eq!(input.as_str(), "/tmp/other"),
        other => panic!("expected the path question, got {:?}", other.name()),
    }
    b.press(KeyCode::Esc);
    assert!(matches!(b.wizard().step, Step::Welcome { selected: 1 }));
    b.press(KeyCode::Enter);
    match &b.wizard().step {
        Step::ClonePath { input } => assert_eq!(input.as_str(), "/tmp/other"),
        other => panic!("expected the path question, got {:?}", other.name()),
    }
}

#[test]
fn setup_questions_after_a_clone_count_four_steps() {
    let mut b = Bench::uninitialized();
    let draft = ConfigDraft {
        worktree_dir: "home".to_string(),
        copy: Vec::new(),
        run: Vec::new(),
    };
    b.repo.clones.push(("/tmp/other".to_string(), draft));
    b.press(KeyCode::Char('2'));
    b.type_str("/tmp/other");
    b.press(KeyCode::Enter);
    b.press(KeyCode::Esc);
    b.press(KeyCode::Esc);
    b.press(KeyCode::Char('1'));
    assert!(!b.wizard().cloned);
    b.press(KeyCode::Enter);
    b.press(KeyCode::Enter);
    b.press(KeyCode::Enter);
    assert!(matches!(b.wizard().step, Step::Review { .. }));
    assert_eq!(b.wizard().progress(), "step 4 of 4");
    b.press(KeyCode::Esc);
    assert!(matches!(b.wizard().step, Step::RunCommands { .. }));
}

#[test]
fn setup_review_edit_left_unchanged_keeps_the_commands() {
    let mut b = Bench::uninitialized();
    b.press(KeyCode::Enter);
    b.press(KeyCode::Enter);
    b.press(KeyCode::Enter);
    b.type_str("make");
    b.press(KeyCode::Enter);
    b.type_str("npm test");
    b.press(KeyCode::Enter);
    b.press(KeyCode::Enter);
    b.press(KeyCode::Down);
    b.press(KeyCode::Down);
    b.press(KeyCode::Enter);
    b.press(KeyCode::Enter);
    assert_eq!(b.wizard().draft.run, vec!["make", "npm test"]);
}

#[test]
fn setup_does_not_re_suggest_a_cleared_answer() {
    let mut b = Bench::uninitialized();
    b.repo.suggest_copy = vec![".env".to_string()];

    b.press(KeyCode::Enter);
    b.press(KeyCode::Enter);
    for _ in 0..8 {
        b.press(KeyCode::Backspace);
    }
    b.press(KeyCode::Enter);
    b.press(KeyCode::Esc);
    match &b.wizard().step {
        Step::CopyFiles { input } => {
            assert_eq!(input.as_str(), "", "the cleared answer is respected")
        }
        _ => panic!("expected the copy question"),
    }
}

#[test]
fn setup_welcome_options_are_clickable() {
    let mut b = Bench::uninitialized();
    b.draw(100, 30);
    let rl = b.app.row_list.expect("the welcome menu records its geometry");
    b.click(rl.inner.x + 1, rl.inner.y + 1);
    assert!(matches!(b.wizard().step, Step::Welcome { selected: 1 }));
    b.press(KeyCode::Enter);
    assert!(matches!(b.wizard().step, Step::ClonePath { .. }));
    assert_eq!(b.wizard().progress(), "step 1 of 2");
}

#[test]
fn setup_bad_clone_path_stays_on_input_with_error() {
    let mut b = Bench::uninitialized();
    b.press(KeyCode::Char('2'));
    b.type_str("/definitely/not/there");
    b.press(KeyCode::Enter);
    assert!(matches!(b.wizard().step, Step::ClonePath { .. }));
    assert!(b.message().contains("does not exist"));
}

#[test]
fn setup_file_browser_picks_a_config() {
    let mut b = Bench::uninitialized();
    b.repo.dirs = vec![
        (
            "/tmp".to_string(),
            vec![dir_entry("proj", "/tmp/proj", true), dir_entry("other", "/tmp/other", true)],
        ),
        (
            "/tmp/other".to_string(),
            vec![dir_entry(CONFIG_FILE, "/tmp/other/.wtm.toml", false)],
        ),
    ];
    b.repo.clones.push((
        "/tmp/other".to_string(),
        ConfigDraft { worktree_dir: "home".to_string(), copy: Vec::new(), run: Vec::new() },
    ));

    b.press(KeyCode::Char('2'));
    b.press(KeyCode::Tab);
    b.press(KeyCode::Enter);
    b.press(KeyCode::Enter);
    assert!(matches!(b.wizard().step, Step::Review { .. }), "message: {:?}", b.app.message);
    assert_eq!(b.wizard().draft.worktree_dir, "home");
}

#[test]
fn commit_flow_commits_all_changes() {
    let mut b = Bench::new();
    b.dirty_main();
    assert!(b.app.worktrees[0].dirty > 0);
    b.press(KeyCode::Char('c'));
    assert!(matches!(b.app.view, View::Commit { .. }));
    b.type_str("add scratch");
    b.press(KeyCode::Enter);
    b.settle();
    assert!(matches!(b.app.view, View::List), "message: {:?}", b.app.message);
    assert!(b.message().starts_with("committed"));
    assert_eq!(b.message(), "committed abc1234 · add scratch (2 files)");
    b.refresh();
    assert_eq!(b.app.worktrees[0].dirty, 0, "worktree should be clean now");
}

#[test]
fn a_refused_commit_brings_the_dialog_back() {
    let mut b = Bench::new();
    b.dirty_main();
    b.repo.hook = Some("the hook says no".to_string());
    b.press(KeyCode::Char('c'));
    b.type_str("add scratch");
    b.press(KeyCode::Tab);
    b.press(KeyCode::Char(' '));
    b.press(KeyCode::Enter);
    assert!(matches!(b.app.view, View::Busy { .. }));
    b.settle();
    assert_eq!(b.app.error.as_deref(), Some("the hook says no"));
    match &b.app.view {
        View::Commit { input, marked, .. } => {
            assert_eq!(input.as_str(), "add scratch");
            assert_eq!(marked, &vec![false, true]);
        }
        _ => panic!("expected the commit dialog"),
    }
    b.press(KeyCode::Esc);
    assert!(matches!(b.app.view, View::Commit { .. }), "the key closed the error alone");
    b.press(KeyCode::Enter);
    b.settle();
    assert!(matches!(b.app.view, View::List));
    assert_eq!(b.message(), "committed abc1234 · add scratch (1 file)");
}

#[test]
fn esc_leaves_a_commit_dialog_that_came_back() {
    let mut b = Bench::new();
    b.dirty_main();
    b.repo.hook = Some("the hook says no".to_string());
    b.press(KeyCode::Char('c'));
    b.type_str("add scratch");
    b.press(KeyCode::Enter);
    b.settle();
    b.press(KeyCode::Esc);
    b.press(KeyCode::Esc);
    assert!(matches!(b.app.view, View::List));
    assert!(b.app.stack.is_empty());
}

#[test]
fn commit_message_supports_cursor_editing() {
    let mut b = Bench::new();
    b.dirty_main();
    b.press(KeyCode::Char('c'));
    b.type_str("fix bug");
    for _ in 0..3 {
        b.press(KeyCode::Left);
    }
    b.type_str("the ");
    match &b.app.view {
        View::Commit { input, .. } => assert_eq!(input.as_str(), "fix the bug"),
        _ => panic!("expected the commit dialog"),
    }
}

#[test]
fn commit_on_clean_worktree_is_reported() {
    let mut b = Bench::new();
    b.add_and_select_worktree("clean");
    assert_eq!(b.app.worktrees[b.app.selected].dirty, 0);
    b.press(KeyCode::Char('c'));
    assert!(matches!(b.app.view, View::List));
    assert!(b.message().contains("clean"));
}

#[test]
fn commit_empty_message_is_rejected() {
    let mut b = Bench::new();
    b.dirty_main();
    b.press(KeyCode::Char('c'));
    b.press(KeyCode::Enter);
    assert!(matches!(b.app.view, View::Commit { .. }), "stays open");
    assert!(b.message().contains("must not be empty"));
}

#[test]
fn stash_push_then_pop_round_trips() {
    let mut b = Bench::new();
    b.repo.main().write("f.txt", "one\n");
    b.repo.main().commit("f.txt");
    b.repo.main().write("f.txt", "two\n");
    b.refresh();
    b.app.selected = 0;

    b.press(KeyCode::Char('s'));
    assert_eq!(b.app.tab, Tab::Stash);
    b.press(KeyCode::Char('s'));
    b.type_str("wip");
    b.press(KeyCode::Enter);
    b.settle();
    assert_eq!(b.app.tab, Tab::Stash);
    assert_eq!(b.app.stash_entries.len(), 1);
    assert!(b.app.stash_entries[0].message.contains("wip"));
    b.refresh();
    assert_eq!(b.app.worktrees[0].dirty, 0, "stash should clean the tree");

    b.press(KeyCode::Char('p'));
    b.settle();
    assert_eq!(b.app.tab, Tab::Stash);
    assert!(b.app.stash_entries.is_empty());
    b.refresh();
    assert!(b.app.worktrees[0].dirty > 0, "pop restores the change");
}

#[test]
fn conflicting_stash_pop_resolves_back_onto_the_stash_tab() {
    let mut b = Bench::new();
    b.repo.main().write("c.txt", "one\n");
    b.repo.main().commit("c.txt");
    b.repo.main().write("c.txt", "stashed\n");
    b.refresh();
    b.app.selected = 0;

    b.press(KeyCode::Char('s'));
    b.press(KeyCode::Char('s'));
    b.press(KeyCode::Enter);
    b.settle();
    assert_eq!(b.app.stash_entries.len(), 1);

    b.repo.main().write("c.txt", "committed\n");
    b.repo.main().commit("c.txt");
    b.repo.clashes = Some((
        "main".to_string(),
        ConflictFile {
            path: "c.txt".to_string(),
            segments: vec![ConflictSegment::Hunk {
                ours: "committed\n".to_string(),
                theirs: "stashed\n".to_string(),
            }],
            ours_label: "HEAD".to_string(),
            theirs_label: "stash".to_string(),
        },
    ));

    b.press(KeyCode::Char('p'));
    b.settle();
    assert!(
        matches!(b.app.view, View::ConflictResolver { .. }),
        "conflicting pop opens the resolver"
    );

    b.press(KeyCode::Char('t'));
    b.press(KeyCode::Char('w'));
    b.press(KeyCode::Char('c'));

    assert!(matches!(b.app.view, View::List));
    assert_eq!(b.app.tab, Tab::Stash, "back on the tab the pop started from");
    assert!(b.app.stash_entries.is_empty(), "a completed pop drops the stash");
    assert_eq!(b.repo.main().read("c.txt").unwrap(), "stashed\n");
}

#[test]
fn stash_drop_needs_confirmation() {
    let mut b = Bench::new();
    b.repo.main().write("g.txt", "x\n");
    b.repo.main().commit("g.txt");
    b.repo.main().write("g.txt", "y\n");
    b.refresh();
    b.app.selected = 0;

    b.press(KeyCode::Char('s'));
    b.press(KeyCode::Char('s'));
    b.press(KeyCode::Enter);
    b.settle();
    b.press(KeyCode::Char('x'));
    assert!(matches!(
        b.app.modal,
        Some(Modal::Confirm { action: ModalAction::StashDrop { .. }, .. })
    ));
    assert_eq!(b.app.tab, Tab::Stash, "the tab stays up behind the confirm");
    b.press(KeyCode::Char('y'));
    b.settle();
    assert!(b.app.stash_entries.is_empty(), "drop removes the entry");
}

fn to_branches(b: &mut Bench) {
    b.press(KeyCode::Tab);
    b.press(KeyCode::Tab);
    assert_eq!(b.app.tab, Tab::Branches);
}

#[test]
fn branches_tab_creates_and_deletes_branches() {
    let mut b = Bench::new();
    to_branches(&mut b);
    b.press(KeyCode::Char('n'));
    b.type_str("feature");
    b.press(KeyCode::Enter);
    b.settle();
    assert!(b.repo.branch_exists("feature"));
    assert!(b.app.branches.iter().any(|x| x.name == "feature"));
    b.app.branch_selected =
        b.app.branches.iter().position(|x| x.name == "feature").unwrap();
    b.press(KeyCode::Char('d'));
    b.press(KeyCode::Char('y'));
    assert!(!b.repo.branch_exists("feature"));
}

#[test]
fn branches_tab_d_key_opens_confirm_delete() {
    let mut b = Bench::new();
    to_branches(&mut b);
    assert!(!b.app.branches.is_empty());
    b.press(KeyCode::Char('d'));
    assert!(matches!(
        b.app.modal,
        Some(Modal::Confirm { action: ModalAction::BranchDelete { .. }, .. })
    ));
}

#[test]
fn branches_tab_c_opens_prefilled_create() {
    let mut b = Bench::new();
    b.repo.branches.push("spare".to_string());
    to_branches(&mut b);
    b.app.branch_selected = b.app.branches.iter().position(|x| x.name == "spare").unwrap();
    b.press(KeyCode::Char('c'));
    match &b.app.view {
        View::Create { branches, selected, .. } => {
            assert!(*selected >= 1);
            assert_eq!(branches[*selected - 1].branch, "spare");
        }
        _ => panic!("expected the create dialog prefilled with the branch"),
    }
}

#[test]
fn branches_tab_enter_opens_commits_and_marks_for_cherry_pick() {
    let mut b = Bench::new();
    to_branches(&mut b);
    b.press(KeyCode::Enter);
    match &b.app.view {
        View::BranchCommits { lines, .. } => assert!(!lines.is_empty()),
        _ => panic!("expected the branch commits view"),
    }
    b.press(KeyCode::Char(' '));
    b.press(KeyCode::Char('p'));
    match &b.app.view {
        View::CherryPick { commits, targets, .. } => {
            assert_eq!(commits.len(), 1);
            assert!(!targets.is_empty());
        }
        _ => panic!("expected the cherry-pick picker"),
    }
}

#[test]
fn branch_commits_enter_browses_the_commit() {
    let mut b = Bench::new();
    b.press(KeyCode::Tab);
    b.press(KeyCode::Tab);
    b.press(KeyCode::Enter);
    assert!(matches!(b.app.view, View::BranchCommits { .. }));
    b.press(KeyCode::Enter);
    assert!(matches!(b.app.view, View::CommitDiff { .. }));
    b.press(KeyCode::Esc);
    assert!(matches!(b.app.view, View::BranchCommits { .. }));
}

#[test]
fn merge_key_opens_picker_with_worktree_targets() {
    let mut b = Bench::new();
    b.add_and_select_worktree("feature");
    to_branches(&mut b);
    b.app.branch_selected = b.app.branches.iter().position(|x| x.name == "main").unwrap();
    b.press(KeyCode::Char('m'));
    match &b.app.view {
        View::MergePick { source_branch, targets, .. } => {
            assert_eq!(source_branch, "main");
            assert!(targets.iter().any(|t| t.name == "feature"));
        }
        _ => panic!("expected the merge picker"),
    }
}

#[test]
fn merge_conflict_opens_resolver_and_completes() {
    let mut b = Bench::new();
    b.into_conflict_resolver();
    match &b.app.view {
        View::ConflictResolver { target, files, current, .. } => {
            assert_eq!(target, "feature");
            assert_eq!(files, &vec!["shared.txt".to_string()]);
            let rf = current.as_ref().expect("file loaded with a hunk");
            assert_eq!(rf.actions.len(), 1);
            assert!(rf.actions[0].is_none());
        }
        _ => panic!("expected the conflict resolver"),
    }

    b.press(KeyCode::Char('w'));
    assert!(matches!(b.app.view, View::ConflictResolver { .. }));

    b.press(KeyCode::Char('o'));
    b.press(KeyCode::Char('w'));
    b.press(KeyCode::Char('c'));

    assert!(matches!(b.app.view, View::List));
    assert!(b.repo.merging.is_none());
}

#[test]
fn resolver_manual_edit_writes_hand_edited_result() {
    let mut b = Bench::new();
    b.into_conflict_resolver();
    b.press(KeyCode::Char('e'));
    assert!(matches!(b.app.modal, Some(Modal::HunkEditor(_))));
    b.press(KeyCode::Char('Z'));
    b.key(KeyEvent::ctrl(KeyCode::Char('s')));
    assert!(b.app.modal.is_none(), "editor closes on save");
    assert!(matches!(b.first_choice(), Some(ResolutionAction::Manual(_))));

    b.press(KeyCode::Char('w'));
    b.press(KeyCode::Char('c'));
    assert!(matches!(b.app.view, View::List));
    assert!(b.repo.merging.is_none());
    assert_eq!(
        b.repo.tree("feature").unwrap().read("shared.txt").unwrap(),
        "Zfeature version\nmain version\n"
    );
}

#[test]
fn resolver_manual_edit_esc_discards() {
    let mut b = Bench::new();
    b.into_conflict_resolver();
    b.press(KeyCode::Char('e'));
    b.press(KeyCode::Char('Z'));
    b.press(KeyCode::Esc);
    assert!(b.app.modal.is_none());
    assert!(b.first_choice().is_none(), "discarded edit leaves hunk undecided");
}

#[test]
fn create_dialog_lists_remote_only_branches() {
    let mut b = Bench::new();
    b.repo.remotes.push(("teammate".to_string(), "origin/teammate".to_string()));
    b.press(KeyCode::Char('n'));
    b.type_str("teammate");
    match &b.app.view {
        View::Create { branches, .. } => {
            let c = branches
                .iter()
                .find(|c| c.branch == "teammate")
                .expect("remote-only branch is offered for checkout");
            assert_eq!(c.remote.as_deref(), Some("origin/teammate"));
        }
        _ => panic!("expected create dialog"),
    }
    b.press(KeyCode::Down);
    b.press(KeyCode::Enter);
    b.wait_creating(|_, done| done);
    b.press(KeyCode::Enter);
    assert!(b.repo.branch_exists("teammate"));
    assert!(b.has("teammate"));
}

#[test]
fn create_dialog_filters_checkout_list_by_typed_text() {
    let mut b = Bench::new();
    for name in ["alpha", "beta", "alpine"] {
        b.repo.branches.push(name.to_string());
    }
    b.press(KeyCode::Char('n'));
    b.type_str("alp");
    let names: Vec<String> = match &b.app.view {
        View::Create { branches, name, .. } => filtered_candidates(branches, name.as_str())
            .iter()
            .map(|&i| branches[i].branch.clone())
            .collect(),
        _ => panic!("expected create dialog"),
    };
    assert_eq!(names.len(), 2);
    assert!(names.contains(&"alpha".to_string()));
    assert!(names.contains(&"alpine".to_string()));
    assert!(!names.contains(&"beta".to_string()));

    b.press(KeyCode::Down);
    let expected = match &b.app.view {
        View::Create { branches, name, selected, .. } => {
            let f = filtered_candidates(branches, name.as_str());
            branches[f[*selected - 1]].branch.clone()
        }
        _ => panic!("expected create dialog"),
    };
    assert!(expected == "alpha" || expected == "alpine");
}

#[test]
fn resolver_abort_recovers_the_worktree() {
    let mut b = Bench::new();
    b.into_conflict_resolver();
    assert!(b.repo.merging.is_some());

    b.press(KeyCode::Char('x'));
    assert!(matches!(
        b.app.modal,
        Some(Modal::Confirm { action: ModalAction::ResolverAbort, .. })
    ));
    assert!(matches!(b.app.view, View::ConflictResolver { .. }));
    b.press(KeyCode::Esc);
    assert!(b.app.modal.is_none());
    assert!(matches!(b.app.view, View::ConflictResolver { .. }));
    assert!(b.repo.merging.is_some());

    b.press(KeyCode::Char('x'));
    b.press(KeyCode::Char('y'));
    assert!(matches!(b.app.view, View::List));
    assert!(b.repo.merging.is_none());
    assert_eq!(
        b.repo.tree("feature").unwrap().read("shared.txt").unwrap(),
        "feature version\n"
    );
}

#[test]
fn resolver_hunk_action_selection_updates_state() {
    let mut b = Bench::new();
    b.into_conflict_resolver();
    b.press(KeyCode::Char('t'));
    assert!(matches!(b.first_choice(), Some(ResolutionAction::KeepTheirs)));
    b.press(KeyCode::Char('b'));
    assert!(matches!(b.first_choice(), Some(ResolutionAction::KeepBoth)));
}

#[test]
fn update_key_merges_default_branch_into_worktree() {
    let mut b = Bench::new();
    b.add_and_select_worktree("feature");
    b.repo.main().write("newfile.txt", "x\n");
    b.repo.main().commit("newfile.txt");
    b.app.selected = b.at("feature");
    b.press(KeyCode::Char('u'));
    b.settle();
    assert!(matches!(b.app.view, View::List));
    assert!(b.repo.tree("feature").unwrap().read("newfile.txt").is_some());
}

#[test]
fn update_on_dirty_worktree_offers_to_stash_and_reapplies() {
    let mut b = Bench::new();
    b.add_and_select_worktree("feature");
    b.repo.main().write("newfile.txt", "x\n");
    b.repo.main().commit("newfile.txt");
    b.repo.tree_mut("feature").unwrap().write("wip.txt", "wip\n");
    b.refresh();
    b.app.selected = b.at("feature");

    b.press(KeyCode::Char('u'));
    assert!(matches!(
        b.app.modal,
        Some(Modal::Confirm { action: ModalAction::UpdateStash { .. }, .. })
    ));
    b.press(KeyCode::Enter);
    b.settle();
    assert!(matches!(b.app.view, View::List));
    let t = b.repo.tree("feature").unwrap();
    assert!(t.read("newfile.txt").is_some(), "mainline change merged");
    assert_eq!(t.read("wip.txt").unwrap(), "wip\n", "local edit reapplied after update");
}

#[test]
fn folders_collapse_and_expand_in_the_diff_tree() {
    let mut b = Bench::new();
    b.repo.main().write("src/a.rs", "a\n");
    b.repo.main().write("src/b.rs", "b\n");
    b.refresh();
    b.app.selected = 0;
    b.press(KeyCode::Enter);
    b.select_diff_folder("src/");
    let listed = |b: &Bench| {
        b.app
            .changes
            .rows
            .iter()
            .any(|r| matches!(r, DiffRow::File { label, .. } if label == "a.rs"))
    };

    b.press(KeyCode::Left);
    assert!(b.app.collapsed_folders.contains("src/"));
    assert!(matches!(
        b.app.changes.rows.get(b.app.changes.selected),
        Some(DiffRow::Folder { collapsed: true, .. })
    ));
    assert!(!listed(&b));

    b.press(KeyCode::Right);
    assert!(!b.app.collapsed_folders.contains("src/"));
    assert!(listed(&b));

    b.press(KeyCode::Enter);
    assert!(b.app.collapsed_folders.contains("src/"));
    b.press(KeyCode::Char('r'));
    assert!(!listed(&b));
}

#[test]
fn left_on_a_file_jumps_to_its_parent_folder() {
    let mut b = Bench::new();
    b.repo.main().write("src/a.rs", "a\n");
    b.refresh();
    b.app.selected = 0;
    b.press(KeyCode::Enter);
    b.select_diff_file("src/a.rs");
    b.press(KeyCode::Left);
    let c = &b.app.changes;
    assert!(matches!(
        c.rows.get(c.selected),
        Some(DiffRow::Folder { prefix, .. }) if prefix == "src/"
    ));
}

#[test]
fn wheel_moves_the_file_cursor_over_the_list_and_scrolls_the_diff_elsewhere() {
    let mut b = Bench::new();
    b.repo.main().write("a.txt", "a\n");
    b.repo.main().write("b.txt", "b\n");
    b.refresh();
    b.app.selected = 0;
    b.press(KeyCode::Enter);
    b.settle_diff();
    let len = b.app.changes.rows.len();
    b.app.row_list = Some(RowList {
        inner: Rect { x: 0, y: 1, width: 36, height: 20 },
        header: 0,
        offset: 0,
        len,
    });
    b.mouse(MouseKind::ScrollDown, 5, 5);
    assert_eq!(b.app.changes.selected, 1);
    assert_eq!(b.app.changes.scroll, 0);
    b.mouse(MouseKind::ScrollDown, 60, 5);
    assert_eq!(b.app.changes.selected, 1, "cursor stays put");
    assert_eq!(b.app.changes.scroll, 3);
    b.mouse(MouseKind::ScrollUp, 5, 5);
    assert_eq!(b.app.changes.selected, 0);
}

#[test]
fn switch_picker_lists_available_branches_and_switches() {
    let mut b = Bench::new();
    b.repo.branches.push("spare".to_string());
    b.refresh();
    b.app.selected = 0;
    b.press(KeyCode::Char('b'));
    match &b.app.view {
        View::Switch { branches, .. } => {
            assert!(branches.iter().any(|c| c.branch == "spare"));
            assert!(!branches.iter().any(|c| c.branch == "main" || c.branch == "master"));
        }
        _ => panic!("expected the switch picker"),
    }
    if let View::Switch { branches, selected, .. } = &mut b.app.view {
        *selected = branches.iter().position(|c| c.branch == "spare").unwrap();
    }
    b.press(KeyCode::Enter);
    b.settle();
    assert!(b.on_branch("spare"));
}

#[test]
fn switch_filter_narrows_branch_list_and_enter_targets_match() {
    let mut b = Bench::new();
    for name in ["feature-auth", "feature-billing", "hotfix-1"] {
        b.repo.branches.push(name.to_string());
    }
    b.refresh();
    b.app.selected = 0;
    b.press(KeyCode::Char('b'));
    match &b.app.view {
        View::Switch { branches, .. } => assert_eq!(branches.len(), 3),
        _ => panic!("expected the switch picker"),
    }
    b.type_str("FEATURE");
    assert_eq!(b.switch_matches(), vec!["feature-auth", "feature-billing"]);
    b.type_str("-billing");
    assert_eq!(b.switch_matches(), vec!["feature-billing"]);
    b.press(KeyCode::Enter);
    b.settle();
    assert!(b.on_branch("feature-billing"));
}

#[test]
fn switch_picker_lists_remote_only_branches_and_checks_them_out() {
    let mut b = Bench::new();
    b.repo.remotes.push(("teammate".to_string(), "origin/teammate".to_string()));
    b.refresh();
    b.app.selected = 0;

    b.press(KeyCode::Char('b'));
    match &b.app.view {
        View::Switch { branches, .. } => {
            let c = branches
                .iter()
                .find(|c| c.branch == "teammate")
                .expect("remote-only branch is offered to switch onto");
            assert_eq!(c.remote.as_deref(), Some("origin/teammate"));
        }
        _ => panic!("expected the switch picker"),
    }
    b.type_str("teammate");
    b.press(KeyCode::Enter);
    b.settle();
    assert!(b.repo.branch_exists("teammate"));
    assert!(b.on_branch("teammate"));
}

#[test]
fn switch_enter_with_no_match_tries_the_typed_branch() {
    let mut b = Bench::new();
    b.refresh();
    b.app.selected = 0;
    b.press(KeyCode::Char('b'));
    b.repo.branches.push("late".to_string());
    b.type_str("late");
    assert!(b.switch_matches().is_empty());
    b.press(KeyCode::Enter);
    b.settle();
    assert!(b.on_branch("late"));
}

#[test]
fn switch_enter_with_unknown_typed_branch_creates_it() {
    let mut b = Bench::new();
    b.refresh();
    b.app.selected = 0;
    b.press(KeyCode::Char('b'));
    b.type_str("brand-new");
    assert!(b.switch_matches().is_empty());
    b.press(KeyCode::Enter);
    b.settle();
    assert_eq!(b.app.error, None, "creating a new branch should not error");
    assert!(b.on_branch("brand-new"), "the worktree switched onto the newly created branch");
}

#[test]
fn switch_esc_clears_filter_before_closing() {
    let mut b = Bench::new();
    b.repo.branches.push("spare".to_string());
    b.refresh();
    b.app.selected = 0;
    b.press(KeyCode::Char('b'));
    b.type_str("sp");
    b.press(KeyCode::Esc);
    match &b.app.view {
        View::Switch { filter, .. } => {
            assert!(filter.as_str().is_empty(), "first Esc clears the filter");
        }
        _ => panic!("expected the switch picker to stay open"),
    }
    b.press(KeyCode::Esc);
    assert!(matches!(b.app.view, View::List), "second Esc closes the picker");
}

#[test]
fn switch_j_and_k_type_into_filter_instead_of_navigating() {
    let mut b = Bench::new();
    b.repo.branches.push("jkbranch".to_string());
    b.refresh();
    b.app.selected = 0;
    b.press(KeyCode::Char('b'));
    b.press(KeyCode::Char('j'));
    b.press(KeyCode::Char('k'));
    match &b.app.view {
        View::Switch { filter, selected, .. } => {
            assert_eq!(filter.as_str(), "jk");
            assert_eq!(*selected, 0);
        }
        _ => panic!("expected the switch picker"),
    }
}

#[test]
fn log_overlay_opens_with_a_commit_cursor() {
    let mut b = Bench::new();
    b.app.selected = 0;
    b.press(KeyCode::Char('l'));
    match &b.app.view {
        View::Log { lines, selected, .. } => {
            assert!(!lines.is_empty());
            assert!(lines[*selected].entry.is_some());
        }
        _ => panic!("expected log overlay"),
    }
    b.press(KeyCode::Esc);
    assert!(matches!(b.app.view, View::List));
}

#[test]
fn log_enter_browses_a_commits_files() {
    let mut b = Bench::new();
    add_commit(&mut b, "hello00", "add hello", "hello.txt", "hi\n");
    b.refresh();
    b.app.selected = 0;
    b.press(KeyCode::Char('l'));
    b.press(KeyCode::Enter);
    b.app.poll_commit_diff_load();
    match &b.app.view {
        View::CommitDiff { files, content, .. } => {
            assert!(files.iter().any(|f| f.path == "hello.txt"), "{files:?}");
            assert!(content.contains("hi"), "diff shows the added line: {content}");
        }
        _ => panic!("expected the commit browser"),
    }
    b.press(KeyCode::Esc);
    assert!(matches!(b.app.view, View::Log { .. }));
}

#[test]
fn log_view_toggles_between_tree_and_flat() {
    let mut b = Bench::new();
    b.press(KeyCode::Char('l'));
    assert_eq!(b.app.log_mode, LogMode::Tree);
    match &b.app.view {
        View::Log { lines, .. } => assert!(lines.iter().any(|l| l.graph.contains('*'))),
        _ => panic!("expected the log overlay"),
    }
    b.press(KeyCode::Char('t'));
    assert_eq!(b.app.log_mode, LogMode::Flat);
    match &b.app.view {
        View::Log { lines, .. } => {
            assert!(!lines.is_empty());
            assert!(lines.iter().all(|l| l.graph.is_empty() && l.entry.is_some()));
        }
        _ => panic!("expected the log overlay"),
    }
    b.press(KeyCode::Esc);
    b.press(KeyCode::Tab);
    b.press(KeyCode::Tab);
    b.press(KeyCode::Enter);
    match &b.app.view {
        View::BranchCommits { lines, .. } => {
            assert!(lines.iter().all(|l| l.graph.is_empty()))
        }
        _ => panic!("expected the branch commits view"),
    }
    b.press(KeyCode::Char('t'));
    assert_eq!(b.app.log_mode, LogMode::Tree);
}

#[test]
fn branch_commits_marks_only_real_commits() {
    let mut b = Bench::new();
    b.press(KeyCode::Tab);
    b.press(KeyCode::Tab);
    b.press(KeyCode::Enter);
    let View::BranchCommits { branch, .. } = &b.app.view else {
        panic!("expected the branch commits view");
    };
    let lines = vec![
        GraphLine { graph: "* ".into(), entry: Some(entry("aaa")) },
        GraphLine { graph: "|\\".into(), entry: None },
    ];
    b.app.view = View::BranchCommits {
        branch: branch.clone(),
        marked: vec![false; lines.len()],
        lines,
        selected: 0,
    };
    b.press(KeyCode::Char('a'));
    match &b.app.view {
        View::BranchCommits { marked, .. } => assert_eq!(marked, &[true, false]),
        _ => panic!("expected the branch commits view"),
    }
    b.press(KeyCode::Char('a'));
    match &b.app.view {
        View::BranchCommits { marked, .. } => assert_eq!(marked, &[false, false]),
        _ => panic!("expected the branch commits view"),
    }
}

#[test]
fn branches_tab_pull_without_upstream_reports_error() {
    let mut b = Bench::new();
    to_branches(&mut b);
    b.press(KeyCode::Char('p'));
    assert!(matches!(b.app.view, View::Busy { .. }));
    b.settle();
    let err = b.app.error.clone().expect("expected an upstream error");
    assert!(err.contains("no upstream"), "unexpected error: {err}");
}

#[test]
fn branches_tab_fetch_reloads_the_branch_list() {
    let mut b = Bench::new();
    b.press(KeyCode::Tab);
    b.press(KeyCode::Tab);
    b.press(KeyCode::Char('f'));
    assert!(matches!(b.app.view, View::Busy { .. }));
    b.settle();
    assert!(b.app.error.is_none(), "unexpected error: {:?}", b.app.error);
    assert_eq!(b.app.tab, Tab::Branches);
    assert!(matches!(b.app.view, View::List));
    assert!(!b.app.branches.is_empty());
}

#[test]
fn auto_refresh_fires_on_the_interval_and_keeps_the_cursor() {
    let mut b = Bench::new();
    b.app.worktrees.clear();
    b.tick();
    assert!(b.app.worktrees.is_empty());

    b.app.last_auto_refresh = b.repo.now - AUTO_REFRESH_INTERVAL;
    b.tick();
    assert!(!b.app.worktrees.is_empty(), "expected the list to reload");

    b.press(KeyCode::Tab);
    b.press(KeyCode::Tab);
    let selected = b.app.branches[b.app.branch_selected].name.clone();
    b.app.last_auto_refresh = b.repo.now - AUTO_REFRESH_INTERVAL;
    b.tick();
    assert_eq!(b.app.branches[b.app.branch_selected].name, selected);
}

#[test]
fn auto_refresh_holds_off_during_overlays_and_prompts() {
    let mut b = Bench::new();
    b.press(KeyCode::Char('l'));
    b.app.last_auto_refresh = b.repo.now - AUTO_REFRESH_INTERVAL;
    b.app.worktrees.clear();
    b.tick();
    assert!(b.app.worktrees.is_empty(), "refreshed under an overlay");

    b.app.view = View::List;
    b.press(KeyCode::Tab);
    b.press(KeyCode::Tab);
    b.press(KeyCode::Char('n'));
    assert!(matches!(
        b.app.modal,
        Some(Modal::Prompt { action: ModalAction::BranchCreate, .. })
    ));
    b.app.last_auto_refresh = b.repo.now - AUTO_REFRESH_INTERVAL;
    b.app.branches.clear();
    b.tick();
    assert!(b.app.branches.is_empty(), "refreshed under a prompt");
}

#[test]
fn pull_without_upstream_reports_error_via_busy() {
    let mut b = Bench::new();
    b.app.selected = 0;
    b.press(KeyCode::Char('p'));
    assert!(matches!(b.app.view, View::Busy { .. }));
    b.settle();
    assert!(matches!(b.app.view, View::List));
    assert!(b.app.error.as_deref().unwrap().contains("no upstream"));
}

#[test]
fn fetch_completes_via_busy() {
    let mut b = Bench::new();
    b.press(KeyCode::Char('f'));
    assert!(matches!(b.app.view, View::Busy { .. }));
    b.settle();
    assert!(matches!(b.app.view, View::List));
    assert!(b.message().contains("no remotes"));
}

#[test]
fn delete_keeps_branch_unless_toggled() {
    let mut b = Bench::new();
    b.add_and_select_worktree("keepme");
    b.press(KeyCode::Char('d'));
    match &b.app.modal {
        Some(Modal::Confirm {
            selected,
            action: ModalAction::DeleteWorktree { branch, .. },
            ..
        }) => {
            assert_eq!(*selected, 0, "folder-only must be the default");
            assert_eq!(branch.as_deref(), Some("keepme"));
        }
        _ => panic!("expected delete dialog"),
    }
    b.press(KeyCode::Enter);
    b.settle();
    assert!(matches!(b.app.view, View::List));
    assert!(!b.has("keepme"));
    assert!(b.repo.branch_exists("keepme"), "branch must survive a folder-only delete");
}

#[test]
fn delete_can_also_remove_the_branch() {
    let mut b = Bench::new();
    b.add_and_select_worktree("dropme");
    b.press(KeyCode::Char('d'));
    b.press(KeyCode::Down);
    match &b.app.modal {
        Some(Modal::Confirm { selected, .. }) => assert_eq!(*selected, 1),
        _ => panic!("expected delete dialog"),
    }
    b.press(KeyCode::Char('y'));
    b.settle();
    assert!(!b.has("dropme"));
    assert!(!b.repo.branch_exists("dropme"));
}

#[test]
fn delete_runs_through_the_busy_overlay() {
    let mut b = Bench::new();
    b.add_and_select_worktree("later");
    b.press(KeyCode::Char('d'));
    b.press(KeyCode::Enter);
    assert!(matches!(b.app.view, View::Busy { .. }), "delete should be backgrounded");
    b.settle();
    assert!(matches!(b.app.view, View::List));
    assert!(!b.has("later"));
}

#[test]
fn deleting_a_dirty_worktree_prompts_then_discards() {
    let mut b = Bench::new();
    b.add_and_select_worktree("messy");
    b.repo.tree_mut("messy").unwrap().write("scratch.txt", "work\n");
    b.refresh();
    b.app.selected = b.at("messy");

    b.press(KeyCode::Char('d'));
    b.press(KeyCode::Enter);
    assert!(
        matches!(
            b.app.modal,
            Some(Modal::Confirm { action: ModalAction::DeleteWorktreeDirty { .. }, .. })
        ),
        "a dirty worktree should open the stash/discard prompt"
    );
    b.press(KeyCode::Down);
    b.press(KeyCode::Enter);
    b.settle();
    assert!(matches!(b.app.view, View::List));
    assert!(!b.has("messy"));
}

#[test]
fn deleting_an_unmerged_branch_prompts_to_force() {
    let mut b = Bench::new();
    b.add_and_select_worktree("feature");
    b.repo.unmerged.push("feature".to_string());

    b.press(KeyCode::Char('d'));
    b.press(KeyCode::Down);
    b.press(KeyCode::Char('y'));
    b.settle();
    match &b.app.modal {
        Some(Modal::Confirm { action: ModalAction::ForceBranch { branch }, .. }) => {
            assert_eq!(branch, "feature");
        }
        _ => panic!("expected the force-branch prompt after an unmerged branch delete"),
    }
    assert!(matches!(b.app.view, View::List));
    assert!(!b.has("feature"));
    assert!(b.repo.branch_exists("feature"));
    b.press(KeyCode::Char('F'));
    assert!(b.app.modal.is_none());
    assert!(matches!(b.app.view, View::List));
    assert!(!b.repo.branch_exists("feature"));
}

#[test]
fn diverged_pull_prompts_to_rebase_and_retries() {
    let mut b = Bench::new();
    b.repo.diverged = true;
    b.press(KeyCode::Char('p'));
    b.settle();
    match &b.app.modal {
        Some(Modal::Confirm { action: ModalAction::PullRebase { name }, .. }) => {
            assert_eq!(name, "main")
        }
        _ => panic!("expected the rebase prompt after a diverged pull"),
    }
    assert!(matches!(b.app.view, View::List));
    assert_eq!(b.app.error, None, "the raw git error should be suppressed");

    b.press(KeyCode::Enter);
    b.settle();
    assert!(matches!(b.app.view, View::List));
    assert_eq!(b.app.error, None);
    assert_eq!(b.app.message.as_deref(), Some("pulled 'main' with rebase"));
    assert!(b.repo.pulled_with_rebase);
}

#[test]
fn diverged_pull_prompt_can_be_dismissed() {
    let mut b = Bench::new();
    b.app.open_pull_rebase_modal("main".into());
    b.press(KeyCode::Esc);
    assert!(b.app.modal.is_none());
    assert!(matches!(b.app.view, View::List));
}

#[test]
fn a_found_update_prompts_once_and_postponing_dismisses_it() {
    let mut b = Bench::new();
    b.app.update_available = Some(newer_release());

    b.tick();
    let Some(Modal::Confirm { title, body, .. }) = &b.app.modal else {
        panic!("an available update should open the prompt");
    };
    assert!(title.contains("99.0.0"), "{title}");
    let text = body.iter().map(|l| l.text()).collect::<Vec<_>>().join("\n");
    assert!(text.contains(VERSION), "current version missing: {text}");
    assert!(
        text.contains("https://example.test/releases/tag/v99.0.0"),
        "release page link missing: {text}"
    );

    b.press(KeyCode::Down);
    b.press(KeyCode::Enter);
    assert!(b.app.modal.is_none());
    assert!(!matches!(b.app.view, View::Busy { .. }), "must not install");

    b.tick();
    b.tick();
    assert!(b.app.modal.is_none(), "postponing must survive later ticks");
    assert!(b.app.update_available.is_some());
}

#[test]
fn the_update_prompt_waits_until_the_screen_is_free() {
    let mut b = Bench::new();
    b.app.update_available = Some(newer_release());
    b.press(KeyCode::Char('n'));
    assert!(matches!(b.app.view, View::Create { .. }));

    b.tick();
    assert!(b.app.modal.is_none(), "no prompt over another screen");

    b.press(KeyCode::Esc);
    assert!(matches!(b.app.view, View::List));
    b.tick();
    assert!(b.app.modal.is_some(), "prompt once back on the list");
}

#[test]
fn a_silent_check_reporting_up_to_date_says_nothing() {
    let mut b = Bench::new();
    b.app.update_check = sent(Ok(CheckOutcome::UpToDate { latest: VERSION.to_string() }));
    b.app.update_check_requested = false;

    b.tick();
    assert!(b.app.modal.is_none());
    assert!(b.app.message.is_none(), "a launch check stays quiet");
    assert!(b.app.error.is_none());
}

#[test]
fn a_failed_launch_check_is_swallowed_but_a_requested_one_reports() {
    let mut b = Bench::new();
    b.app.update_check = sent(Err("no network".to_string()));
    b.app.update_check_requested = false;
    b.tick();
    assert!(b.app.error.is_none(), "an unattended check must not pop up");

    b.app.update_check = sent(Err("no network".to_string()));
    b.app.update_check_requested = true;
    b.tick();
    assert!(
        b.app.error.as_deref().unwrap().contains("no network"),
        "a requested check reports its failure"
    );
}

#[test]
fn check_now_reports_being_up_to_date() {
    let mut b = Bench::new();
    b.press(KeyCode::Char('o'));
    while b.app.settings.selected < CHECK_ROW {
        b.press(KeyCode::Down);
    }
    b.press(KeyCode::Enter);
    assert!(b.message().contains("checking"));
    assert!(b.app.update_check.is_some(), "a check should be in flight");
    assert_eq!(b.repo.checks, 1);

    b.app.update_check = sent(Ok(CheckOutcome::UpToDate { latest: "1.2.3".to_string() }));
    b.tick();
    assert!(
        b.message().contains("1.2.3"),
        "a requested check always reports: {:?}",
        b.app.message
    );
}

#[test]
fn check_now_reoffers_a_previously_postponed_update() {
    let mut b = Bench::new();
    b.app.update_available = Some(newer_release());
    b.tick();
    b.press(KeyCode::Esc);
    assert!(b.app.modal.is_none());

    b.app.start_update_check(true);
    b.serve();
    b.app.update_check = sent(Ok(CheckOutcome::Available(newer_release())));
    b.tick();
    assert!(b.app.modal.is_some(), "check-now re-offers the update");
}

#[test]
fn accepting_the_update_starts_a_background_install() {
    let mut b = Bench::new();
    b.app.update_available = Some(newer_release());
    b.tick();
    b.press(KeyCode::Enter);
    assert!(matches!(b.app.view, View::Busy { .. }), "installing runs off the UI thread");
    b.settle();
    assert!(b.app.error.is_some(), "a failed install must be reported");
    assert!(b.app.restart_exe.is_none(), "nothing to restart");
    assert!(!b.app.quit);
}

#[test]
fn the_settings_tab_toggle_writes_the_global_config() {
    let mut b = Bench::new();
    b.press(KeyCode::Char('o'));
    while b.app.settings.selected < UPDATE_ROW {
        b.press(KeyCode::Down);
    }
    b.press(KeyCode::Enter);
    b.press(KeyCode::Enter);
    assert_eq!(b.app.settings.fields.auto_update_check, "false");
    assert_eq!(b.repo.auto_update_check, "false");
    assert_eq!(b.app.settings.global_config.as_deref(), Some("/tmp/global.toml"));
    assert!(b.repo.global_file.contains("auto_update_check = false"));
    assert!(!b.repo.repo_file.contains("auto_update_check"), "{}", b.repo.repo_file);
    assert_eq!(b.repo.worktree_dir, "", "no setting of the repository was touched");
    assert_eq!(b.repo.copy, "");
}

#[test]
fn config_editor_edits_and_saves_settings() {
    let mut b = Bench::new();
    b.press(KeyCode::Char('o'));
    assert_eq!(b.app.tab, Tab::Settings);
    b.press(KeyCode::Enter);
    b.type_str("inside");
    b.press(KeyCode::Enter);
    assert_eq!(b.repo.worktree_dir, "inside", "an edit is written at once");
    b.press(KeyCode::Down);
    b.press(KeyCode::Down);
    b.press(KeyCode::Enter);
    b.type_str(".env, config/.env.local");
    b.press(KeyCode::Enter);

    assert_eq!(b.app.tab, Tab::Settings, "saving stays on the tab");
    assert!(b.message().contains("saved"));
    assert_eq!(b.repo.saves, 2);
    assert_eq!(b.repo.worktree_dir, "inside");
    assert_eq!(b.repo.copy, ".env, config/.env.local");
}

#[test]
fn config_editor_clearing_a_field_unsets_it() {
    let mut b = Bench::new();
    b.repo.worktree_dir = "home".to_string();
    b.repo.copy = ".env".to_string();

    b.press(KeyCode::Char('o'));
    assert_eq!(b.app.tab, Tab::Settings);
    assert_eq!(b.app.settings.fields.worktree_dir, "home");
    b.press(KeyCode::Enter);
    for _ in 0..4 {
        b.press(KeyCode::Backspace);
    }
    b.press(KeyCode::Enter);

    assert!(matches!(b.app.view, View::List));
    assert_eq!(b.repo.worktree_dir, "");
    assert_eq!(b.repo.copy, ".env");
}

#[test]
fn double_ctrl_c_kills_a_stuck_setup() {
    let mut b = Bench::new();
    b.repo.setup_run = vec!["sleep 30".to_string(), "echo after".to_string()];
    b.press(KeyCode::Char('n'));
    b.type_str("stuck");
    b.press(KeyCode::Enter);
    b.wait_creating(|lines, _| lines.iter().any(|l| l.contains("running: sleep 30")));

    b.ctrl_c();
    assert!(
        b.message().contains("again to kill"),
        "first Ctrl+C should only arm the kill"
    );
    match &b.app.view {
        View::Creating { done, .. } => assert!(!done),
        _ => panic!("expected creating view"),
    }
    b.ctrl_c();
    assert!(b.repo.killed);
    b.wait_creating(|_, done| done);
    match &b.app.view {
        View::Creating { lines, .. } => {
            assert!(lines.iter().any(|l| l.contains("aborted by user")), "lines: {lines:?}");
            assert!(
                lines.iter().any(|l| l.contains("skipped: setup aborted")),
                "lines: {lines:?}"
            );
        }
        _ => panic!("expected creating view"),
    }
    b.press(KeyCode::Enter);
    assert!(b.has("stuck"));
}

#[test]
fn typed_input_reaches_a_prompting_setup_command() {
    let mut b = Bench::new();
    b.repo.setup_run =
        vec!["echo ready && read line && test \"$line\" = hello".to_string()];
    b.press(KeyCode::Char('n'));
    b.type_str("prompted");
    b.press(KeyCode::Enter);
    b.wait_creating(|lines, _| lines.iter().any(|l| l == "ready"));

    b.type_str("hello");
    b.press(KeyCode::Enter);
    b.wait_creating(|_, done| done);
    match &b.app.view {
        View::Creating { lines, .. } => {
            assert!(
                lines.iter().any(|l| l.contains("❯ hello")),
                "input should be echoed: {lines:?}"
            );
            assert!(
                lines.iter().any(|l| l.starts_with("[ok] run ")),
                "setup should succeed with the typed answer: {lines:?}"
            );
        }
        _ => panic!("expected creating view"),
    }
}

#[test]
fn background_create_completes_via_tick() {
    let mut b = Bench::new();
    b.press(KeyCode::Char('n'));
    for c in "feat".chars() {
        b.press(KeyCode::Char(c));
    }
    b.press(KeyCode::Enter);
    assert!(matches!(b.app.view, View::Creating { .. }));
    b.wait_creating(|_, done| done);
    b.press(KeyCode::Enter);
    assert!(matches!(b.app.view, View::List));
    assert_eq!(b.app.worktrees.len(), 2);
    assert!(b.has("feat"));
}

#[test]
fn worktree_preview_lists_every_changed_file() {
    let mut b = Bench::new();
    write_changed_files(&mut b, 30);
    b.refresh();
    b.app.selected = 0;
    b.draw(100, 30);

    let total = b.app.worktree_preview.len();
    assert!(total >= 30, "every change is previewed, got {total}");
    let rl = b.app.preview_list.expect("the preview records its geometry");
    assert_eq!(rl.len, total, "the whole list is clickable, not a capped slice");
    assert!(
        (rl.inner.height as usize) < total,
        "this terminal is too short to show every row, so scrolling matters"
    );
    assert_eq!(rl.offset, 0, "the preview starts at the top");
}

#[test]
fn worktree_preview_scrolls_and_clamps() {
    let mut b = Bench::new();
    write_changed_files(&mut b, 30);
    b.refresh();
    b.app.selected = 0;
    b.draw(100, 30);
    let rl = b.app.preview_list.expect("preview geometry");
    let (col, row) = (rl.inner.x + 1, rl.inner.y + 1);

    b.mouse(MouseKind::ScrollDown, col, row);
    b.draw(100, 30);
    assert_eq!(b.app.preview_scroll, 3, "three rows per wheel notch");
    assert_eq!(
        b.app.preview_list.unwrap().offset,
        3,
        "the drawn rows start at the scroll offset"
    );

    for _ in 0..50 {
        b.press_shift(KeyCode::Down);
    }
    b.draw(100, 30);
    let visible = b.app.preview_list.unwrap().inner.height as usize;
    let last_page = b.app.worktree_preview.len() - visible;
    assert_eq!(b.app.preview_scroll, last_page, "clamped to the last page");

    b.mouse(MouseKind::ScrollUp, col, row);
    assert_eq!(b.app.preview_scroll, last_page - 3, "the wheel scrolls back");
    for _ in 0..50 {
        b.press_shift(KeyCode::Up);
    }
    assert_eq!(b.app.preview_scroll, 0, "back at the top");
}

#[test]
fn selecting_another_worktree_resets_the_preview_scroll() {
    let mut b = Bench::new();
    write_changed_files(&mut b, 30);
    b.add_and_select_worktree("spare");
    b.app.selected = b.app.worktrees.iter().position(|w| w.is_main).unwrap();
    b.draw(100, 30);
    b.app.preview_scroll = 5;
    b.press(KeyCode::Down);
    assert_eq!(b.app.preview_scroll, 0);
}

#[test]
fn clicking_a_tab_switches_to_it() {
    let mut b = Bench::new();
    b.refresh();
    b.app.selected = 0;
    b.draw(100, 30);

    let (rect, _) = *b
        .app
        .tab_hits
        .iter()
        .find(|(_, t)| *t == Tab::Branches)
        .expect("the tab bar records a hit box per tab");
    b.click(rect.x + 1, rect.y);
    assert_eq!(b.app.tab, Tab::Branches);
    assert!(!b.app.branches.is_empty(), "switching to Branches loads the branch list");

    b.draw(100, 30);
    let (rect, _) = *b.app.tab_hits.iter().find(|(_, t)| *t == Tab::Worktrees).unwrap();
    b.click(rect.x + 1, rect.y);
    assert_eq!(b.app.tab, Tab::Worktrees);
}

#[test]
fn tab_clicks_are_ignored_while_a_modal_is_up() {
    let mut b = Bench::new();
    b.add_and_select_worktree("spare");
    b.press(KeyCode::Char('d'));
    assert!(b.app.modal.is_some());
    b.draw(100, 30);
    assert!(b.app.tab_hits.is_empty(), "the modal owns every click");
    b.click(12, 1);
    assert_eq!(b.app.tab, Tab::Worktrees, "the tab did not change");
}

#[test]
fn clicking_a_preview_file_opens_it_on_the_changes_tab() {
    let mut b = Bench::new();
    write_changed_files(&mut b, 12);
    b.refresh();
    b.app.selected = 0;
    b.draw(100, 30);

    b.app.preview_scroll = 4;
    b.draw(100, 30);
    let rl = b.app.preview_list.expect("preview geometry");
    let want = b.app.worktree_preview[rl.offset + 2].path.clone();
    b.click(rl.inner.x + 1, rl.inner.y + 2);
    b.settle_diff();

    assert_eq!(b.app.tab, Tab::Changes);
    assert_eq!(b.app.changes.name, b.app.worktrees[0].name);
    assert_eq!(b.cursor_path().expect("the cursor sits on a file row, not a folder"), want);
}

#[test]
fn clicking_a_preview_file_expands_its_collapsed_folder() {
    let mut b = Bench::new();
    b.repo.main().write("pkg/deep/a.txt", "a\n");
    b.refresh();
    b.app.selected = 0;
    b.app.collapsed_folders.insert("pkg/".to_string());
    b.draw(100, 30);

    let rl = b.app.preview_list.expect("preview geometry");
    let idx = b
        .app
        .worktree_preview
        .iter()
        .position(|e| e.path == "pkg/deep/a.txt")
        .expect("the new file is previewed");
    b.click(rl.inner.x + 1, rl.inner.y + idx as u16);
    b.settle_diff();

    assert_eq!(b.app.tab, Tab::Changes);
    assert_eq!(b.cursor_path().expect("the cursor sits on a file row"), "pkg/deep/a.txt");
}

#[test]
fn enter_on_a_changed_file_opens_it_with_the_default_app() {
    let mut b = Bench::new();
    let path = b.changes_tab_with_one_file();
    b.take_recorded();

    b.press(KeyCode::Enter);
    assert_eq!(b.take_recorded(), vec![format!("open {ROOT}/{path}")]);
    assert_eq!(b.app.message.as_deref(), Some(&*format!("opened '{path}'")));
}

fn on_pkg_folder(b: &mut Bench) {
    b.repo.main().write("pkg/a.txt", "a\n");
    b.refresh();
    b.app.selected = 0;
    b.app.select_tab(Tab::Changes);
    b.serve();
    b.settle_diff();
    b.app.changes.selected = b
        .app
        .changes
        .rows
        .iter()
        .position(|r| matches!(r, DiffRow::Folder { .. }))
        .expect("a folder row exists");
    b.take_recorded();
}

#[test]
fn enter_on_a_folder_row_toggles_it_and_opens_nothing() {
    let mut b = Bench::new();
    on_pkg_folder(&mut b);
    b.press(KeyCode::Enter);
    assert!(b.app.collapsed_folders.contains("pkg/"), "Enter collapsed the folder");
    assert!(b.take_recorded().is_empty(), "a folder is not handed to the OS");
}

#[test]
fn opening_a_deleted_file_reports_it_is_gone() {
    let mut b = Bench::new();
    b.repo.main().write("gone.txt", "x\n");
    b.repo.main().commit("gone.txt");
    b.repo.main().files.iter_mut().find(|f| f.path == "gone.txt").unwrap().work = None;
    b.refresh();
    b.app.selected = 0;
    b.app.select_tab(Tab::Changes);
    b.serve();
    b.select_diff_file("gone.txt");
    b.take_recorded();

    b.press(KeyCode::Enter);
    assert!(b.take_recorded().is_empty(), "nothing was opened");
    assert_eq!(
        b.app.message.as_deref(),
        Some("'gone.txt' no longer exists in the worktree")
    );
}

#[test]
fn double_clicking_a_changed_file_opens_it() {
    let mut b = Bench::new();
    let path = b.changes_tab_with_one_file();
    let rl = b.app.row_list.expect("the file list records its geometry");
    let (col, row) = (rl.inner.x + 1, rl.inner.y);
    b.take_recorded();

    b.click(col, row);
    assert!(b.take_recorded().is_empty(), "one click only moves the cursor");
    b.click(col, row);
    assert_eq!(b.take_recorded().len(), 1, "the pair opened it");
    assert_eq!(b.app.message.as_deref(), Some(&*format!("opened '{path}'")));

    b.click(col, row);
    assert!(b.take_recorded().is_empty(), "the pair was consumed");
    b.click(col + 1, row);
    assert!(b.take_recorded().is_empty(), "different cell");
}

#[test]
fn double_clicking_the_tab_label_acts_on_the_files_read_then() {
    let mut b = Bench::new();
    b.changes_tab_with_one_file();
    b.draw(100, 30);
    let (rect, tab) = b.app.tab_hits[1];
    assert_eq!(tab, Tab::Changes);
    b.click(rect.x, rect.y);
    b.take_recorded();
    // Another file is there by the time of the second click.
    b.repo.main().write("aaa.txt", "new\n");
    b.app.on_mouse(MouseEvent { kind: MouseKind::LeftDown, column: rect.x, row: rect.y });
    assert!(
        !b.app.out.iter().any(|r| matches!(r, Request::OpenFile { .. })),
        "nothing is opened before the files are read"
    );
    assert!(matches!(
        b.app.out.last(),
        Some(Request::Status { activate: true, .. })
    ));
    b.serve();
    assert_eq!(b.take_recorded().len(), 1);
    assert_eq!(b.app.changes.files[0].path, ".wtm.toml");
    assert!(b.app.changes.files.iter().any(|f| f.path == "aaa.txt"));
}

#[test]
fn a_slow_pair_of_clicks_is_two_singles() {
    let mut b = Bench::new();
    b.changes_tab_with_one_file();
    let rl = b.app.row_list.unwrap();
    b.click(rl.inner.x + 1, rl.inner.y);
    b.repo.now += 450;
    b.click(rl.inner.x + 1, rl.inner.y);
    assert!(b.take_recorded().is_empty());
    b.repo.now += 449;
    b.click(rl.inner.x + 1, rl.inner.y);
    assert_eq!(b.take_recorded().len(), 1);
}

#[test]
fn clicking_the_diff_path_copies_it() {
    let mut b = Bench::new();
    let path = b.changes_tab_with_one_file();
    let hit = b.app.diff_path_hit.expect("the diff panel records its path title");
    b.take_recorded();

    b.click(hit.x + 1, hit.y);
    assert_eq!(b.take_recorded(), vec![format!("copy {path}")]);
    assert_eq!(
        b.app.message.as_deref(),
        Some(&*format!("copied '{path}' to the clipboard"))
    );

    b.click(hit.x + 1, hit.y);
    assert_eq!(b.take_recorded(), vec![format!("copy {path}")]);
}

#[test]
fn an_open_error_takes_the_key_and_nothing_else_changes() {
    let mut b = Bench::new();
    b.app.set_error("boom".to_string());
    b.press(KeyCode::Char('q'));
    assert!(b.app.error.is_none());
    assert!(!b.app.quit);
    b.press(KeyCode::Char('q'));
    assert!(b.app.quit);
}

#[test]
fn a_busy_screen_ignores_keys() {
    let mut b = Bench::new();
    b.press(KeyCode::Char('f'));
    b.press(KeyCode::Char('q'));
    b.press(KeyCode::Esc);
    assert!(!b.app.quit);
    assert!(matches!(b.app.view, View::Busy { .. }));
}

#[test]
fn a_message_stays_for_its_time() {
    let mut b = Bench::new();
    b.press(KeyCode::Char('d'));
    b.tick();
    b.repo.now += MESSAGE_TIMEOUT - 1;
    b.tick();
    assert!(b.app.message.is_some());
    b.repo.now += 1;
    b.tick();
    assert!(b.app.message.is_none());
}

#[test]
fn a_diff_of_another_file_is_dropped() {
    let mut b = Bench::new();
    b.repo.main().write("a.txt", "first\n");
    b.repo.main().write("b.txt", "second\n");
    b.refresh();
    b.press(KeyCode::Enter);
    b.settle_diff();
    b.app.on_key(KeyEvent::plain(KeyCode::Down));
    let mut old = b.app.take_requests();
    b.app.on_key(KeyEvent::plain(KeyCode::Down));
    let new = b.app.take_requests();
    let Some(Request::FileDiff { task, token, path, .. }) = old.pop() else {
        panic!("a diff is asked for");
    };
    b.app.deliver_diff(task, token, path, "stale".to_string());
    b.app.poll_diff_load();
    assert_ne!(b.app.changes.content, "stale");
    for r in new {
        b.answer(r);
    }
    b.settle_diff();
    assert!(b.app.changes.content.contains("second"), "{}", b.app.changes.content);
}

#[test]
fn switching_the_layout_keeps_the_file() {
    let mut b = Bench::new();
    b.repo.main().write("src/a.rs", "a\n");
    b.repo.main().write("src/b.rs", "b\n");
    b.refresh();
    b.press(KeyCode::Enter);
    b.select_diff_file("src/b.rs");
    b.press(KeyCode::Char('t'));
    assert!(!b.app.file_tree);
    assert_eq!(b.cursor_path().as_deref(), Some("src/b.rs"));
    b.press(KeyCode::Char('t'));
    assert_eq!(b.cursor_path().as_deref(), Some("src/b.rs"));
}

#[test]
fn the_cursor_follows_a_worktree_through_a_reload() {
    let mut b = Bench::new();
    b.add_and_select_worktree("spare");
    b.repo.trees.insert(
        1,
        Tree {
            name: "earlier".to_string(),
            path: "/tmp/proj-worktrees/earlier".to_string(),
            branch: None,
            is_main: false,
            files: Vec::new(),
        },
    );
    b.app.last_auto_refresh = b.repo.now - AUTO_REFRESH_INTERVAL;
    b.tick();
    assert_eq!(b.app.worktrees[b.app.selected].name, "spare");
}

#[test]
fn a_worktree_is_renamed_through_its_prompt() {
    let mut b = Bench::new();
    b.add_and_select_worktree("spare");
    b.press(KeyCode::Char('R'));
    assert!(matches!(b.app.view, View::RenameWorktree { .. }));
    for _ in 0..5 {
        b.press(KeyCode::Backspace);
    }
    b.type_str("better");
    b.press(KeyCode::Enter);
    assert!(b.has("better"));
    assert!(!b.has("spare"));
}

#[test]
fn a_typed_command_runs_in_the_worktree() {
    let mut b = Bench::new();
    b.press(KeyCode::Char('e'));
    b.type_str("echo hi");
    b.press(KeyCode::Enter);
    assert_eq!(b.take_recorded(), vec![format!("spawn echo hi in {ROOT}")]);
    assert!(matches!(b.app.view, View::List));
}

#[test]
fn whole_file_choices_settle_a_conflict() {
    let mut b = Bench::new();
    b.into_conflict_resolver();
    b.press(KeyCode::Char('O'));
    match &b.app.view {
        View::ConflictResolver { resolved, .. } => assert_eq!(resolved, &[true]),
        _ => panic!("expected the resolver"),
    }
    assert_eq!(b.repo.tree("feature").unwrap().read("shared.txt").unwrap(), "ours");
}

#[test]
fn outcomes_read_as_sentences() {
    let said = |o: OpOutcome| o.message();
    assert_eq!(
        said(OpOutcome::Fetched { remotes: vec!["a".to_string(), "b".to_string()] }),
        "fetched: a, b"
    );
    assert_eq!(
        said(OpOutcome::Pushed {
            name: "x".to_string(),
            set_upstream: true,
            remote: None,
            branch: "y".to_string()
        }),
        "pushed 'x' and set upstream origin/y"
    );
    assert_eq!(
        said(OpOutcome::BranchPulled {
            branch: "y".to_string(),
            already_up_to_date: false,
            worktree: None
        }),
        "fast-forwarded 'y'"
    );
    assert_eq!(
        said(OpOutcome::CherryPicked { target: "x".to_string(), count: 2, committed: false }),
        "loaded 2 commit(s) into 'x' (review, then commit)"
    );
}

#[test]
fn the_loop_waits_as_long_as_nothing_moves() {
    let mut b = Bench::new();
    assert_eq!(b.app.loop_step(true, false), LoopStep::Dispatch);
    assert_eq!(b.app.loop_step(false, false), LoopStep::Redraw { wait: IDLE_POLL });
    assert_eq!(b.app.loop_step(false, true), LoopStep::Redraw { wait: PARKED_POLL });
    b.press(KeyCode::Char('f'));
    assert!(b.app.needs_fast_tick());
    assert_eq!(b.app.loop_step(false, true), LoopStep::Redraw { wait: ACTIVE_POLL });
    b.app.quit = true;
    assert_eq!(b.app.loop_step(true, true), LoopStep::Stop);
}

#[test]
fn a_question_mark_is_typed_into_a_command() {
    let mut b = Bench::new();
    b.press(KeyCode::Char('o'));
    b.press(KeyCode::Down);
    b.press(KeyCode::Enter);
    b.press(KeyCode::Char('?'));
    assert!(b.app.show_help, "the rows of the list take no text");
    b.press(KeyCode::Esc);
    b.press(KeyCode::Char('a'));
    b.type_str("ls?");
    assert!(!b.app.show_help);
    b.press(KeyCode::F(1));
    assert!(b.app.show_help);
    b.press(KeyCode::Esc);
    let list = b.app.settings.open_list.as_ref().unwrap();
    assert_eq!(list.input.as_ref().unwrap().as_str(), "ls?");
}

#[test]
fn a_declined_question_changes_nothing() {
    let mut b = Bench::new();
    b.add_and_select_worktree("spare");
    b.press(KeyCode::Char('d'));
    b.press(KeyCode::Char('n'));
    assert!(b.app.modal.is_none());
    assert!(b.app.message.is_none());
    assert!(b.app.out.is_empty());
    assert!(b.has("spare"));
}

#[test]
fn the_mouse_answers_no_question() {
    let mut b = Bench::new();
    b.add_and_select_worktree("spare");
    b.press(KeyCode::Char('d'));
    b.app.row_list = Some(RowList {
        inner: Rect { x: 0, y: 0, width: 40, height: 4 },
        header: 0,
        offset: 0,
        len: 2,
    });
    b.click(1, 1);
    b.click(1, 1);
    match &b.app.modal {
        Some(Modal::Confirm { selected, .. }) => assert_eq!(*selected, 1),
        _ => panic!("expected the question to stay open"),
    }
    assert!(b.has("spare"));
}

fn two_hunks(b: &mut Bench) {
    b.into_conflict_resolver();
    b.press(KeyCode::Char('x'));
    b.press(KeyCode::Char('y'));
    let hunk = |o: &str, t: &str| ConflictSegment::Hunk { ours: o.to_string(), theirs: t.to_string() };
    b.repo.clashes = Some((
        "feature".to_string(),
        ConflictFile {
            path: "shared.txt".to_string(),
            segments: vec![
                hunk("a\n", "b\n"),
                ConflictSegment::Text("middle\n".to_string()),
                hunk("c\n", "d\n"),
            ],
            ours_label: "HEAD".to_string(),
            theirs_label: "main".to_string(),
        },
    ));
    b.repo.merging = Some("feature".to_string());
    b.app.open_resolver(
        "feature".to_string(),
        "main".to_string(),
        ResolveKind::Merge,
        vec!["shared.txt".to_string()],
    );
    b.serve();
}

#[test]
fn a_choice_touches_one_hunk_and_staging_waits_for_all() {
    let mut b = Bench::new();
    two_hunks(&mut b);
    b.press(KeyCode::Char('t'));
    match &b.app.view {
        View::ConflictResolver { current: Some(rf), .. } => {
            assert!(matches!(rf.actions[0], Some(ResolutionAction::KeepTheirs)));
            assert!(rf.actions[1].is_none());
        }
        _ => panic!("expected the resolver"),
    }
    b.press(KeyCode::Char('w'));
    assert_eq!(
        b.repo.tree("feature").unwrap().read("shared.txt").unwrap(),
        "feature version\n",
        "nothing is written while a hunk is undecided"
    );
    b.app.resolver_move_hunk(true);
    b.press(KeyCode::Char('o'));
    b.press(KeyCode::Char('w'));
    assert_eq!(
        b.repo.tree("feature").unwrap().read("shared.txt").unwrap(),
        "b\nmiddle\nc\n"
    );
}

#[test]
fn an_unedited_hunk_keeps_both_sides() {
    let mut b = Bench::new();
    b.into_conflict_resolver();
    b.press(KeyCode::Char('e'));
    b.key(KeyEvent::ctrl(KeyCode::Char('s')));
    b.press(KeyCode::Char('w'));
    assert_eq!(
        b.repo.tree("feature").unwrap().read("shared.txt").unwrap(),
        "feature version\nmain version\n"
    );
}

#[test]
fn staging_moves_on_to_an_unresolved_file() {
    let mut b = Bench::new();
    b.app.open_resolver(
        "main".to_string(),
        "x".to_string(),
        ResolveKind::CherryPick,
        vec!["a".to_string(), "b".to_string(), "c".to_string()],
    );
    b.app.take_requests();
    b.app.resolver_move_file(true);
    b.app.take_requests();
    b.app.on_resolution_written("b".to_string(), Ok(()));
    match &b.app.view {
        View::ConflictResolver { resolved, file, .. } => {
            assert_eq!(resolved, &[false, true, false]);
            assert_eq!(*file, 2);
        }
        _ => panic!("expected the resolver"),
    }
}

#[test]
fn a_failed_reload_on_the_timer_is_swallowed() {
    let mut b = Bench::new();
    b.app.on_worktrees(ListThen::Auto, Err("locked".to_string()));
    assert!(b.app.error.is_none());
    assert_eq!(b.app.worktrees.len(), 1);
    b.app.on_worktrees(ListThen::Refresh, Err("locked".to_string()));
    assert_eq!(b.app.error.as_deref(), Some("locked"));
}

#[test]
fn a_vanished_preview_file_leaves_the_cursor_at_the_top() {
    let mut b = Bench::new();
    b.repo.main().write("a.txt", "a\n");
    b.refresh();
    b.app.open_changes_tab_at("main".to_string(), "gone.txt".to_string());
    b.serve();
    assert_eq!(b.app.tab, Tab::Changes);
    assert_eq!(b.app.changes.selected, 0);
}

#[test]
fn a_cherry_pick_takes_the_oldest_commit_first() {
    let mut b = Bench::new();
    add_commit(&mut b, "one0000", "one", "a.txt", "x\n");
    add_commit(&mut b, "two0000", "two", "b.txt", "x\n");
    to_branches(&mut b);
    b.press(KeyCode::Enter);
    b.press(KeyCode::Char(' '));
    b.press(KeyCode::Down);
    b.press(KeyCode::Char(' '));
    b.press(KeyCode::Char('p'));
    match &b.app.view {
        View::CherryPick { commits, summaries, .. } => {
            assert_eq!(commits, &vec!["one0000", "two0000"]);
            assert_eq!(summaries, &vec!["one", "two"]);
        }
        _ => panic!("expected the cherry-pick picker"),
    }
    b.press(KeyCode::Enter);
    b.press(KeyCode::Down);
    b.press(KeyCode::Enter);
    b.settle();
    assert_eq!(b.message(), "loaded 2 commit(s) into 'main' (review, then commit)");
}

#[test]
fn a_refused_branch_delete_can_be_forced() {
    let mut b = Bench::new();
    b.repo.branches.push("wild".to_string());
    b.repo.unmerged.push("wild".to_string());
    to_branches(&mut b);
    b.app.branch_selected = 1;
    b.press(KeyCode::Char('d'));
    b.press(KeyCode::Char('y'));
    assert!(b.app.error.as_deref().unwrap().contains("not fully merged"));
    assert!(b.app.modal.is_some(), "the question is open again");
    b.press(KeyCode::Esc);
    b.press(KeyCode::Char('f'));
    assert!(b.repo.branch_exists("wild"), "a bare f forces nothing");
    b.press(KeyCode::Char('F'));
    assert!(!b.repo.branch_exists("wild"));
}

#[test]
fn the_preview_is_read_once_for_each_selection() {
    let mut b = Bench::new();
    assert_eq!(b.app.preview_due().as_deref(), Some("main"));
    b.draw(100, 30);
    assert_eq!(b.app.preview_due(), None);
    b.press(KeyCode::Tab);
    b.refresh();
    assert_eq!(b.app.preview_due(), None, "another tab is shown");
    b.press(KeyCode::BackTab);
    assert_eq!(b.app.preview_due().as_deref(), Some("main"));
}

#[test]
fn a_long_diff_leaves_the_reader_in_place() {
    let mut b = Bench::new();
    b.changes_tab_with_one_file();
    b.app.changes.scroll = 5;
    b.app.load_diff_content(false);
    b.app.take_requests();
    let task = b.app.changes.pending.as_ref().unwrap().id;
    let token = b.app.changes.load_gen;
    let long = "x\n".repeat(65537);
    b.app.deliver_diff(task, token, "long.txt".to_string(), long);
    b.app.poll_diff_load();
    assert_eq!(b.app.changes.scroll, 5);

    b.app.load_diff_content(false);
    b.app.take_requests();
    let task = b.app.changes.pending.as_ref().unwrap().id;
    let token = b.app.changes.load_gen;
    b.app.deliver_diff(task, token, "short.txt".to_string(), "x\ny\n".to_string());
    b.app.poll_diff_load();
    assert_eq!(b.app.changes.scroll, 1);
}

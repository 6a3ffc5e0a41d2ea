//! What holds of the setup wizard on every path through it.

use vstd::prelude::*;

use crate::config;
use crate::config::DraftView;
use crate::input::{KeyCode, TextState};
use crate::setup;
use crate::setup::{OutcomeView, StepView, WizardView};
use crate::text;

verus! {

/// Esc keeps every answer given so far, and what stands in the question it
/// leaves: the path to clone from, the location being typed, the files to copy,
/// or the commands with the line being typed. Nothing else changes but the screen.
pub proof fn esc_keeps_answers(w: WizardView)
    ensures
        ({
            let b = w.press(KeyCode::Esc).0;
            match w.step {
                StepView::ClonePath { input } => b == (WizardView {
                    clone_path: input.value,
                    step: b.step,
                    ..w
                }),
                StepView::LocationCustom { input } => b == (WizardView {
                    typed_location: Some(input.value),
                    step: b.step,
                    ..w
                }),
                StepView::CopyFiles { input } => b == (WizardView {
                    copy_answer: Some(input.value),
                    step: b.step,
                    ..w
                }),
                StepView::RunCommands { commands, input } => b == (WizardView {
                    draft: DraftView { run: commands, ..w.draft },
                    run_answered: true,
                    run_line: input.value,
                    step: b.step,
                    ..w
                }),
                _ => b == w.at(b.step),
            }
        }),
{
}

/// The commands entered, and the line being typed, are there again when the
/// commands question was left with Esc and is reached again through the
/// copy-files question, whether that question was answered before or arrives
/// with suggested files.
pub proof fn left_commands_come_back(
    w: WizardView,
    commands: Seq<Seq<char>>,
    field: TextState,
    files: Seq<Seq<char>>,
)
    requires
        w.step == (StepView::RunCommands { commands, input: field }),
    ensures
        ({
            let (left, outcome) = w.press(KeyCode::Esc);
            let question = match outcome {
                OutcomeView::Continue => left,
                _ => left.copy_suggested(files),
            };
            question.step is CopyFiles && question.press(KeyCode::Enter) == (
                question.press(KeyCode::Enter).0.at(
                    StepView::RunCommands { commands, input: TextState::filled(field.value) },
                ),
                OutcomeView::Continue,
            )
        }),
{
}

/// The location being typed is there again when its question was left with Esc
/// and is reached again, at once or from the welcome screen.
pub proof fn left_location_comes_back(w: WizardView, field: TextState)
    requires
        w.step == (StepView::LocationCustom { input: field }),
    ensures
        ({
            let left = w.press(KeyCode::Esc).0;
            let again = left.press(KeyCode::Esc).0.press(KeyCode::Enter).0;
            let typed = StepView::LocationCustom { input: TextState::filled(field.value) };
            &&& left.press(KeyCode::Enter).0.step == typed
            &&& again.step is Location
            &&& again.at(StepView::Location { selected: 3 }).press(KeyCode::Enter).0.step == typed
        }),
{
}

/// A location chosen later takes the place of one that was only being typed: the
/// typed-location question then opens on it.
pub proof fn chosen_location_is_shown(w: WizardView, preset: int)
    requires
        0 <= preset < 3,
        w.step == (StepView::Location { selected: preset }),
    ensures
        ({
            let chosen = w.press(KeyCode::Enter).0;
            let dir = config::LOCATION_PRESETS[preset].0@;
            &&& chosen.draft.worktree_dir == dir
            &&& chosen.at(StepView::Location { selected: 3 }).press(KeyCode::Enter).0.step == (
            StepView::LocationCustom { input: TextState::filled(dir) })
        }),
{
}

/// The files typed are there again when the copy-files question was left with
/// Esc and is reached again, wherever the worktrees then go.
pub proof fn left_files_come_back(w: WizardView, field: TextState, preset: int)
    requires
        w.step == (StepView::CopyFiles { input: field }),
        0 <= preset < 3,
    ensures
        w.press(KeyCode::Esc).0.at(StepView::Location { selected: preset }).press(
            KeyCode::Enter,
        ).0.step == (StepView::CopyFiles { input: TextState::filled(field.value) }),
{
}

/// The path to clone from is there again when the path question was left with
/// Esc, and when Esc leads back to it from the review of what was cloned.
pub proof fn clone_path_comes_back(w: WizardView, field: TextState, draft: config::ConfigDraft)
    requires
        w.step == (StepView::ClonePath { input: field }),
    ensures
        w.press(KeyCode::Esc).0.press(KeyCode::Enter).0.step == (StepView::ClonePath {
            input: TextState::filled(field.value),
        }),
        w.press(KeyCode::Enter).0.clone_loaded(Ok(draft)).press(KeyCode::Esc).0.step == (
        StepView::ClonePath { input: TextState::filled(field.value) }),
{
}

/// The route taken decides the total of steps and where Esc leads from the
/// review: four steps when the questions were answered, even after settings had
/// been cloned before, and two when the settings were cloned last.
pub proof fn route_decides_the_total(
    w: WizardView,
    commands: Seq<Seq<char>>,
    field: TextState,
    draft: config::ConfigDraft,
)
    requires
        text::trimmed(field.value).len() == 0,
    ensures
        ({
            let answered = w.on_run_commands(commands, field, KeyCode::Enter).0;
            let cloned = w.clone_loaded(Ok(draft));
            &&& answered.step is Review
            &&& answered.progress_label() == "step 4 of 4"@
            &&& answered.press(KeyCode::Esc).0.step is RunCommands
            &&& cloned.step is Review
            &&& cloned.progress_label() == "step 2 of 2"@
            &&& cloned.press(KeyCode::Esc).0.step is ClonePath
        }),
{
}

/// Whoever takes the question route starts over as one who has cloned nothing.
pub proof fn questions_are_no_clone(w: WizardView)
    requires
        w.step == (StepView::Welcome { selected: 0 }),
    ensures
        !w.press(KeyCode::Enter).0.cloned,
        w.press(KeyCode::Char('1')).0 == w.press(KeyCode::Enter).0,
{
}

/// How many questions lie behind a screen of the question route.
pub open spec fn depth(step: StepView) -> int {
    match step {
        StepView::Welcome { .. } => 0,
        StepView::ClonePath { .. } => 1,
        StepView::CloneBrowse { .. } => 2,
        StepView::Location { .. } => 1,
        StepView::LocationCustom { .. } => 2,
        StepView::CopyFiles { .. } => 3,
        StepView::RunCommands { .. } => 4,
        StepView::Review { editing: None, .. } => 5,
        StepView::Review { editing: Some(_), .. } => 6,
    }
}

/// Esc never leads forward: it quits from the welcome screen, asks for the
/// suggestions of a question that lies further back, or shows a screen that
/// lies further back.
pub proof fn esc_steps_back(w: WizardView)
    ensures
        match w.press(KeyCode::Esc).1 {
            OutcomeView::Quit => w.step is Welcome,
            OutcomeView::Ask(ask) => match ask {
                setup::AskView::SuggestCopy => w.step is RunCommands && w.copy_answer is None,
                setup::AskView::SuggestRun => w.step is Review && !w.run_answered,
                _ => false,
            },
            OutcomeView::Continue => depth(w.press(KeyCode::Esc).0.step) < depth(w.step),
            OutcomeView::Done => false,
        },
{
}

/// The wizard ends only from the last row of the review screen, and is left
/// without ending only from the welcome screen.
#[verifier::rlimit(60)]
pub proof fn ends_on_review(w: WizardView, code: KeyCode)
    ensures
        w.press(code).1 is Done ==> w.step == (StepView::Review { selected: 3, editing: None })
            && code is Enter && w.press(code).0 == w,
        w.press(code).1 is Quit ==> w.step is Welcome && w.press(code).0 == w,
{
    match w.step {
        StepView::Welcome { selected } => {
            assert(w.press(code) == w.on_welcome(selected, code));
        },
        StepView::CloneBrowse { browser, prior_input } => {
            assert(w.press(code) == w.on_clone_browse(browser, prior_input, code));
        },
        StepView::Review { selected, editing: None } => {
            assert(w.press(code) == w.on_review(selected, code));
        },
        _ => {},
    }
}

/// The answer to the copy-files question, blank or not, is what the question
/// shows when it is reached again: nothing is suggested over it.
pub proof fn copy_answer_is_kept(w: WizardView, field: TextState)
    ensures
        w.on_copy_files(field, KeyCode::Enter).0.to_copy_files() == (
            w.on_copy_files(field, KeyCode::Enter).0.at(
                StepView::CopyFiles { input: TextState::filled(field.value) },
            ),
            OutcomeView::Continue,
        ),
{
}

/// The commands answered are what the question shows when Esc leads back to it
/// from the review screen: nothing is suggested over them.
pub proof fn run_answer_is_kept(w: WizardView, commands: Seq<Seq<char>>, field: TextState)
    requires
        text::trimmed(field.value).len() == 0,
    ensures
        w.on_run_commands(commands, field, KeyCode::Enter).0.press(KeyCode::Esc).0.step == (
        StepView::RunCommands { commands, input: TextState::filled(Seq::empty()) }),
{
}

/// Whether the items of a list can be written in one line: none is blank, has
/// white space around it, or holds the comma that parts them.
pub open spec fn fits_a_line(items: Seq<Seq<char>>) -> bool {
    forall|i: int|
        0 <= i < items.len() ==> (#[trigger] items[i]).len() > 0 && !items[i].contains(',')
            && text::trimmed(items[i]) == items[i]
}

/// The files, or the commands, opened for editing on the review screen and
/// confirmed unchanged stay as they were, when they can be written in one line.
pub proof fn unchanged_edit_keeps_list(w: WizardView)
    ensures
        fits_a_line(w.draft.copy) ==> w.on_review(1, KeyCode::Enter).0.press(KeyCode::Enter).0.draft
            == w.draft,
        fits_a_line(w.draft.run) ==> w.on_review(2, KeyCode::Enter).0.press(KeyCode::Enter).0.draft
            == w.draft,
{
    reveal_strlit(", ");
    assert(", "@ =~= seq![',', ' ']);
    if fits_a_line(w.draft.copy) {
        config::list_round_trip(w.draft.copy);
    }
    if fits_a_line(w.draft.run) {
        config::list_round_trip(w.draft.run);
    }
}

/// A command taken back with Backspace and entered again is in the list again.
pub proof fn backspace_then_enter(w: WizardView, commands: Seq<Seq<char>>)
    requires
        commands.len() > 0,
        commands.last().len() > 0,
        text::trimmed(commands.last()) == commands.last(),
        w.step == (StepView::RunCommands { commands, input: TextState::filled(Seq::empty()) }),
    ensures
        w.press(KeyCode::Backspace).0.press(KeyCode::Enter).0 == w,
{
    assert(commands.drop_last().push(commands.last()) =~= commands);
}

} // verus!

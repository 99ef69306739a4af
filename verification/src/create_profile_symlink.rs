//! Activating profiles: the selected profile files are linked into the
//! simulator's profile directory, after the user agreed to what that
//! replaces. The application carries out one step at a time and reports what
//! came of it; this module decides the step that follows.

pub mod helpers;

use crate::text::texts;
use helpers::{
    failure_message, failure_prefix, has_actual_files, is_actual_file, Failure, TargetEntry,
};
use vstd::prelude::*;

verus! {

/// How an activation ends.
#[derive(Clone, Copy, Debug, PartialEq, Eq, Structural)]
pub enum Outcome {
    /// At least one profile was linked.
    Activated,
    /// No profile was linked.
    NothingActivated,
    /// The user declined to replace the existing profiles.
    Cancelled,
    /// A dialog gave no answer.
    DialogFailed,
    /// An operation failed.
    Failed(Failure),
}

/// What the application does next.
#[derive(Clone, Copy, Debug, PartialEq, Eq, Structural)]
pub enum Step {
    /// Find the profile directory and create it where it is missing.
    PrepareTarget,
    /// Test whether every selected file exists.
    CheckSources,
    /// Read the profile directory and test whether it holds files.
    ListTarget,
    /// Ask whether the existing profiles may be replaced.
    AskReplace,
    /// Ask whether the existing profiles are to be backed up.
    AskBackup,
    /// Back the existing profiles up.
    Backup,
    /// Remove the existing links.
    RemoveOld,
    /// Link the selected files.
    CreateLinks,
    /// Nothing more: the activation has ended.
    Finish(Outcome),
}

/// What came of a step.
#[derive(Clone, Copy, Debug, PartialEq, Eq, Structural)]
pub enum Event {
    /// The step was carried out.
    Done,
    /// The sources were tested; the index of the first that is missing.
    SourcesChecked(Option<usize>),
    /// The profile directory was read; whether it holds files of its own.
    TargetListed(bool),
    /// The user's answer, or `None` where the dialog gave none.
    Answered(Option<bool>),
    /// The links were made; their number.
    LinksCreated(usize),
    /// An operation failed.
    Failed(Failure),
}

/// The step that follows `step` when `event` is reported. A failure ends the
/// activation; an event that does not answer the step leaves it as it is.
pub open spec fn step_after(step: Step, event: Event) -> Step {
    match (step, event) {
        (Step::Finish(outcome), _) => Step::Finish(outcome),
        (_, Event::Failed(failure)) => Step::Finish(Outcome::Failed(failure)),
        (Step::PrepareTarget, Event::Done) => Step::CheckSources,
        (Step::CheckSources, Event::SourcesChecked(None)) => Step::ListTarget,
        (Step::CheckSources, Event::SourcesChecked(Some(_))) => Step::Finish(
            Outcome::Failed(Failure::SourceMissing),
        ),
        (Step::ListTarget, Event::TargetListed(true)) => Step::AskReplace,
        (Step::ListTarget, Event::TargetListed(false)) => Step::RemoveOld,
        (Step::AskReplace, Event::Answered(None)) => Step::Finish(Outcome::DialogFailed),
        (Step::AskReplace, Event::Answered(Some(false))) => Step::Finish(Outcome::Cancelled),
        (Step::AskReplace, Event::Answered(Some(true))) => Step::AskBackup,
        (Step::AskBackup, Event::Answered(None)) => Step::Finish(Outcome::DialogFailed),
        (Step::AskBackup, Event::Answered(Some(true))) => Step::Backup,
        (Step::AskBackup, Event::Answered(Some(false))) => Step::RemoveOld,
        (Step::Backup, Event::Done) => Step::RemoveOld,
        (Step::RemoveOld, Event::Done) => Step::CreateLinks,
        (Step::CreateLinks, Event::LinksCreated(n)) => Step::Finish(
            if n > 0 {
                Outcome::Activated
            } else {
                Outcome::NothingActivated
            },
        ),
        _ => step,
    }
}

/// Decides the step that follows `step` when `event` is reported. An
/// activation begins with `Step::PrepareTarget`.
pub fn activate_profiles(step: Step, event: Event) -> (r: Step)
    ensures
        r == step_after(step, event),
{
    match (step, event) {
        (Step::Finish(outcome), _) => Step::Finish(outcome),
        (_, Event::Failed(failure)) => Step::Finish(Outcome::Failed(failure)),
        (Step::PrepareTarget, Event::Done) => Step::CheckSources,
        (Step::CheckSources, Event::SourcesChecked(None)) => Step::ListTarget,
        (Step::CheckSources, Event::SourcesChecked(Some(_))) => Step::Finish(
            Outcome::Failed(Failure::SourceMissing),
        ),
        (Step::ListTarget, Event::TargetListed(true)) => Step::AskReplace,
        (Step::ListTarget, Event::TargetListed(false)) => Step::RemoveOld,
        (Step::AskReplace, Event::Answered(None)) => Step::Finish(Outcome::DialogFailed),
        (Step::AskReplace, Event::Answered(Some(false))) => Step::Finish(Outcome::Cancelled),
        (Step::AskReplace, Event::Answered(Some(true))) => Step::AskBackup,
        (Step::AskBackup, Event::Answered(None)) => Step::Finish(Outcome::DialogFailed),
        (Step::AskBackup, Event::Answered(Some(true))) => Step::Backup,
        (Step::AskBackup, Event::Answered(Some(false))) => Step::RemoveOld,
        (Step::Backup, Event::Done) => Step::RemoveOld,
        (Step::RemoveOld, Event::Done) => Step::CreateLinks,
        (Step::CreateLinks, Event::LinksCreated(n)) => {
            if n > 0 {
                Step::Finish(Outcome::Activated)
            } else {
                Step::Finish(Outcome::NothingActivated)
            }
        },
        _ => step,
    }
}

/// The directory names that lead from the user's roaming application data
/// to the simulator's profile directory.
pub fn profile_directory_segments() -> (r: Vec<String>)
    ensures
        texts(r@) == seq!["Virtuali"@, "GSX"@, "MSFS"@],
{
    let mut segments: Vec<String> = Vec::new();
    segments.push(String::from_str("Virtuali"));
    segments.push(String::from_str("GSX"));
    segments.push(String::from_str("MSFS"));
    assert(texts(segments@) =~= seq!["Virtuali"@, "GSX"@, "MSFS"@]);
    segments
}

/// The buttons of a question.
#[derive(Clone, Copy, Debug, PartialEq, Eq, Structural)]
pub enum Buttons {
    OkCancel,
    YesNo,
}

/// A question that is put to the user in a dialog.
pub struct Question {
    pub message: String,
    pub title: String,
    /// Whether the dialog is shown as a warning.
    pub warning: bool,
    pub buttons: Buttons,
}

/// A `Question` as plain values.
pub struct QuestionView {
    pub message: Seq<char>,
    pub title: Seq<char>,
    pub warning: bool,
    pub buttons: Buttons,
}

impl View for Question {
    type V = QuestionView;

    open spec fn view(&self) -> QuestionView {
        QuestionView {
            message: self.message@,
            title: self.title@,
            warning: self.warning,
            buttons: self.buttons,
        }
    }
}

/// The question that a step puts to the user; only the two asking steps
/// have one.
pub open spec fn question_of(step: Step) -> Option<QuestionView> {
    match step {
        Step::AskReplace => Some(
            QuestionView {
                message: "This will replace existing GSX profiles. Would you like to proceed?"@,
                title: "Warning"@,
                warning: true,
                buttons: Buttons::OkCancel,
            },
        ),
        Step::AskBackup => Some(
            QuestionView {
                message: "Would you like to create a backup of your current profiles?"@,
                title: "Backup"@,
                warning: false,
                buttons: Buttons::YesNo,
            },
        ),
        _ => None,
    }
}

/// The view of an optional question.
pub open spec fn question_view(q: Option<Question>) -> Option<QuestionView> {
    match q {
        Some(q) => Some(q@),
        None => None,
    }
}

/// Words the question that a step puts to the user.
pub fn question_for(step: Step) -> (r: Option<Question>)
    ensures
        question_view(r) == question_of(step),
{
    match step {
        Step::AskReplace => Some(
            Question {
                message: String::from_str(
                    "This will replace existing GSX profiles. Would you like to proceed?",
                ),
                title: String::from_str("Warning"),
                warning: true,
                buttons: Buttons::OkCancel,
            },
        ),
        Step::AskBackup => Some(
            Question {
                message: String::from_str(
                    "Would you like to create a backup of your current profiles?",
                ),
                title: String::from_str("Backup"),
                warning: false,
                buttons: Buttons::YesNo,
            },
        ),
        _ => None,
    }
}

/// What is reported after the profile directory was read, or could not be
/// read. A directory that could not be read is a failure, which ends the
/// activation; it is never taken for a directory without files.
pub fn listing_event(listing: Result<&Vec<TargetEntry>, Failure>) -> (r: Event)
    ensures
        match listing {
            Ok(entries) => r == Event::TargetListed(
                exists|i: int| 0 <= i < entries@.len() && is_actual_file(#[trigger] entries@[i]),
            ),
            Err(failure) => r == Event::Failed(failure),
        },
{
    match listing {
        Ok(entries) => Event::TargetListed(has_actual_files(entries)),
        Err(failure) => Event::Failed(failure),
    }
}

/// Finds the first selected file that does not exist, given for each file
/// whether it exists.
pub fn first_missing_source(exists: &Vec<bool>) -> (r: Option<usize>)
    ensures
        match r {
            Some(i) => i < exists@.len() && !exists@[i as int] && forall|j: int|
                0 <= j < i ==> exists@[j],
            None => forall|j: int| 0 <= j < exists@.len() ==> exists@[j],
        },
{
    let mut i: usize = 0;
    while i < exists.len()
        invariant
            i <= exists.len(),
            forall|j: int| 0 <= j < i ==> exists@[j],
        decreases exists.len() - i,
    {
        if !exists[i] {
            return Some(i);
        }
        i = i + 1;
    }
    None
}

/// What the user is told at the end: a message of success, or an error. For
/// a failed operation `detail` is what follows the failure's prefix.
pub open spec fn outcome_text(outcome: Outcome, detail: Seq<char>) -> Result<Seq<char>, Seq<char>> {
    match outcome {
        Outcome::Activated => Ok(
            "GSX profiles activated successfully! Your simulator is ready to use these profiles."@,
        ),
        Outcome::NothingActivated => Ok(
            "No profiles were activated. Please check your selected profiles."@,
        ),
        Outcome::Cancelled => Ok("Operation cancelled by user."@),
        Outcome::DialogFailed => Err("Dialog interaction failed"@),
        Outcome::Failed(failure) => Err(failure_prefix(failure) + detail),
    }
}

/// The view of a message or error.
pub open spec fn result_text(r: Result<String, String>) -> Result<Seq<char>, Seq<char>> {
    match r {
        Ok(s) => Ok(s@),
        Err(e) => Err(e@),
    }
}

/// Words what the user is told at the end of an activation.
pub fn outcome_message(outcome: Outcome, detail: &str) -> (r: Result<String, String>)
    ensures
        result_text(r) == outcome_text(outcome, detail@),
{
    match outcome {
        Outcome::Activated => Ok(
            String::from_str(
                "GSX profiles activated successfully! Your simulator is ready to use these profiles.",
            ),
        ),
        Outcome::NothingActivated => Ok(
            String::from_str("No profiles were activated. Please check your selected profiles."),
        ),
        Outcome::Cancelled => Ok(String::from_str("Operation cancelled by user.")),
        Outcome::DialogFailed => Err(String::from_str("Dialog interaction failed")),
        Outcome::Failed(failure) => Err(failure_message(failure, detail)),
    }
}

/// The step that an activation beginning at `step` has reached after the
/// given events.
pub open spec fn run(step: Step, events: Seq<Event>) -> Step
    decreases events.len(),
{
    if events.len() == 0 {
        step
    } else {
        step_after(run(step, events.drop_last()), events.last())
    }
}

/// The number of questions that the user answered with yes.
pub open spec fn consents(events: Seq<Event>) -> nat
    decreases events.len(),
{
    if events.len() == 0 {
        0
    } else if events.last() == Event::Answered(Some(true)) {
        consents(events.drop_last()) + 1
    } else {
        consents(events.drop_last())
    }
}

/// An activation that has ended stays ended, with the same outcome,
/// whatever is reported afterwards.
pub proof fn lemma_finished_stays(outcome: Outcome, events: Seq<Event>)
    ensures
        run(Step::Finish(outcome), events) == Step::Finish(outcome),
    decreases events.len(),
{
    if events.len() > 0 {
        lemma_finished_stays(outcome, events.drop_last());
    }
}

/// A backup is made only with the user's consent: an activation asks for the
/// backup only after one yes, and makes it only after two.
pub proof fn lemma_backup_needs_consent(events: Seq<Event>)
    ensures
        run(Step::PrepareTarget, events) == Step::AskBackup ==> consents(events) >= 1,
        run(Step::PrepareTarget, events) == Step::Backup ==> consents(events) >= 2,
    decreases events.len(),
{
    if events.len() > 0 {
        lemma_backup_needs_consent(events.drop_last());
    }
}

/// Whether the step comes after the sources were tested.
pub open spec fn past_sources(step: Step) -> bool {
    step == Step::ListTarget || past_listing(step)
}

/// Whether the step comes after the profile directory was read.
pub open spec fn past_listing(step: Step) -> bool {
    step == Step::AskReplace || step == Step::AskBackup || step == Step::Backup || step
        == Step::RemoveOld || step == Step::CreateLinks
}

/// Whether the events tell that the profile directory was read.
pub open spec fn target_listed(events: Seq<Event>) -> bool {
    exists|k: int| 0 <= k < events.len() && (#[trigger] events[k]) is TargetListed
}

/// The checks come first. An activation reads the profile directory only
/// when it has been told that no source is missing; and it asks the user,
/// backs up, removes or links only when it has also been told what the
/// profile directory holds.
pub proof fn lemma_checks_come_first(events: Seq<Event>)
    ensures
        past_sources(run(Step::PrepareTarget, events)) ==> events.contains(
            Event::SourcesChecked(None),
        ),
        past_listing(run(Step::PrepareTarget, events)) ==> target_listed(events),
    decreases events.len(),
{
    if events.len() > 0 {
        let before = events.drop_last();
        lemma_checks_come_first(before);
        let reached = run(Step::PrepareTarget, events);
        let earlier = run(Step::PrepareTarget, before);
        if past_sources(reached) {
            if earlier == Step::CheckSources {
                assert(events[events.len() - 1] == Event::SourcesChecked(None));
            } else {
                let k = choose|k: int|
                    0 <= k < before.len() && before[k] == Event::SourcesChecked(None);
                assert(events[k] == Event::SourcesChecked(None));
            }
        }
        if past_listing(reached) {
            if earlier == Step::ListTarget {
                assert(events[events.len() - 1] is TargetListed);
            } else {
                let k = choose|k: int| 0 <= k < before.len() && (#[trigger] before[k]) is TargetListed;
                assert(events[k] is TargetListed);
            }
        }
    }
}

} // verus!

//! The sequence of one job: detection pass, main pass, moving the result
//! to its place, and marking the original. The decisions are taken here;
//! the caller performs the actions and reports what came of them.

use vstd::prelude::*;
use crate::failure::{Failure, FailureKind};
use crate::models::VideoOptions;

verus! {

/// What of the options decides the sequence of a job.
#[derive(Debug, Clone, Copy, PartialEq, Eq, Structural)]
pub struct JobSettings {
    /// Run the detection pass before the main pass.
    pub stabilize: bool,
    /// Mark the original as processed once the main pass has succeeded.
    pub tag_original: bool,
}

/// Where a job stands.
#[derive(Debug, Clone, Copy, PartialEq, Eq, Structural)]
pub enum JobState {
    /// Nothing was started yet.
    Ready,
    /// The detection pass runs.
    Detecting,
    /// The main pass runs and writes the work file.
    Encoding,
    /// The work file is being moved to the final path.
    Moving,
    /// The file at the final path is being measured.
    Measuring,
    /// The remux that marks the original runs and writes the tagged copy.
    Tagging,
    /// The tagged copy is being moved over the original.
    Replacing,
    /// The job has reported its outcome.
    Finished,
}

/// What came of the action that the job waited for.
#[derive(Debug, Clone, Copy, PartialEq, Eq, Structural)]
pub enum JobEvent {
    /// The job was submitted.
    Submitted,
    /// The external process has ended; the flag tells whether with success.
    Exited(bool),
    /// The move has ended; the flag tells whether the file is in its place.
    Moved(bool),
    /// The file at the final path has been measured.
    Measured,
    /// What the job waited for could not be done at all.
    Broken,
}

/// How a job ends.
#[derive(Debug, Clone, Copy, PartialEq, Eq, Structural)]
pub enum Outcome {
    /// The output is at the final path; the statistics are reported.
    Succeeded,
    /// The detection pass ended without success.
    StabilizationFailed,
    /// The main pass ended without success, or was cancelled.
    EncodingFailed,
    /// A file operation or the start of a process failed.
    IoFailed,
}

/// A line for the log that goes with a step of the job.
#[derive(Debug, Clone, Copy, PartialEq, Eq, Structural)]
pub enum Notice {
    DetectionStarts,
    DetectionComplete,
    TaggingStarts,
    OriginalTagged,
    TaggingFailed,
    ReplacingFailed,
}

/// What the caller is to do next. All but the last action of a step are
/// done without waiting; a failure of `Remove...` and `CopyTimestamps` is
/// passed over. The last action is waited for, and what comes of it is the
/// next event.
#[derive(Debug, Clone, Copy, PartialEq, Eq, Structural)]
pub enum JobAction {
    /// Write a line to the log.
    Note(Notice),
    /// Run the detection pass; it writes the transform data.
    RunDetection,
    /// Run the main pass; it writes the work file.
    RunMain,
    /// Run the remux of the original; it writes the tagged copy.
    RunTagging,
    /// Remove the transform data.
    RemoveTransformData,
    /// Remove the work file.
    RemoveWorkFile,
    /// Remove the tagged copy.
    RemoveTaggedCopy,
    /// Move the work file to the final path.
    MoveToFinalPath,
    /// Give the file at the final path the times of the original.
    CopyTimestamps,
    /// Measure the file at the final path and the time taken so far.
    Measure,
    /// Move the tagged copy over the original.
    ReplaceOriginal,
    /// Report the outcome; the job is over.
    Report(Outcome),
}

/// The removal of the transform data, where there is any.
pub open spec fn transform_cleanup(settings: JobSettings) -> Seq<JobAction> {
    if settings.stabilize {
        seq![JobAction::RemoveTransformData]
    } else {
        Seq::empty()
    }
}

/// The state that follows `state` on `event`, and the actions to take. An
/// event that does not belong to the state changes nothing and asks for
/// nothing.
pub open spec fn step(settings: JobSettings, state: JobState, event: JobEvent) -> (
    JobState,
    Seq<JobAction>,
) {
    match (state, event) {
        (JobState::Ready, JobEvent::Submitted) => if settings.stabilize {
            (
                JobState::Detecting,
                seq![JobAction::Note(Notice::DetectionStarts), JobAction::RunDetection],
            )
        } else {
            (JobState::Encoding, seq![JobAction::RunMain])
        },
        (JobState::Detecting, JobEvent::Exited(true)) => (
            JobState::Encoding,
            seq![JobAction::Note(Notice::DetectionComplete), JobAction::RunMain],
        ),
        (JobState::Detecting, JobEvent::Exited(false)) => (
            JobState::Finished,
            seq![JobAction::RemoveTransformData, JobAction::Report(Outcome::StabilizationFailed)],
        ),
        (JobState::Detecting, JobEvent::Broken) => (
            JobState::Finished,
            seq![JobAction::RemoveTransformData, JobAction::Report(Outcome::IoFailed)],
        ),
        (JobState::Encoding, JobEvent::Exited(true)) => (
            JobState::Moving,
            transform_cleanup(settings) + seq![JobAction::MoveToFinalPath],
        ),
        (JobState::Encoding, JobEvent::Exited(false)) => (
            JobState::Finished,
            transform_cleanup(settings) + seq![
                JobAction::RemoveWorkFile,
                JobAction::Report(Outcome::EncodingFailed),
            ],
        ),
        (JobState::Encoding, JobEvent::Broken) => (
            JobState::Finished,
            transform_cleanup(settings) + seq![
                JobAction::RemoveWorkFile,
                JobAction::Report(Outcome::IoFailed),
            ],
        ),
        (JobState::Moving, JobEvent::Moved(true)) => (
            JobState::Measuring,
            seq![JobAction::CopyTimestamps, JobAction::Measure],
        ),
        (JobState::Moving, JobEvent::Moved(false)) => (
            JobState::Finished,
            seq![JobAction::Report(Outcome::IoFailed)],
        ),
        (JobState::Moving, JobEvent::Broken) => (
            JobState::Finished,
            seq![JobAction::Report(Outcome::IoFailed)],
        ),
        (JobState::Measuring, JobEvent::Measured) => if settings.tag_original {
            (
                JobState::Tagging,
                seq![JobAction::Note(Notice::TaggingStarts), JobAction::RunTagging],
            )
        } else {
            (JobState::Finished, seq![JobAction::Report(Outcome::Succeeded)])
        },
        (JobState::Measuring, JobEvent::Broken) => (
            JobState::Finished,
            seq![JobAction::Report(Outcome::IoFailed)],
        ),
        (JobState::Tagging, JobEvent::Exited(true)) => (
            JobState::Replacing,
            seq![JobAction::ReplaceOriginal],
        ),
        (JobState::Tagging, JobEvent::Exited(false)) => (
            JobState::Finished,
            seq![
                JobAction::Note(Notice::TaggingFailed),
                JobAction::RemoveTaggedCopy,
                JobAction::Report(Outcome::Succeeded),
            ],
        ),
        (JobState::Tagging, JobEvent::Broken) => (
            JobState::Finished,
            seq![
                JobAction::Note(Notice::TaggingFailed),
                JobAction::RemoveTaggedCopy,
                JobAction::Report(Outcome::Succeeded),
            ],
        ),
        (JobState::Replacing, JobEvent::Moved(true)) => (
            JobState::Finished,
            seq![JobAction::Note(Notice::OriginalTagged), JobAction::Report(Outcome::Succeeded)],
        ),
        (JobState::Replacing, JobEvent::Moved(false)) => (
            JobState::Finished,
            seq![
                JobAction::Note(Notice::ReplacingFailed),
                JobAction::RemoveTaggedCopy,
                JobAction::Report(Outcome::Succeeded),
            ],
        ),
        (JobState::Replacing, JobEvent::Broken) => (
            JobState::Finished,
            seq![
                JobAction::Note(Notice::ReplacingFailed),
                JobAction::RemoveTaggedCopy,
                JobAction::Report(Outcome::Succeeded),
            ],
        ),
        _ => (state, Seq::empty()),
    }
}

/// Reads from the options what decides the sequence of the job.
pub fn settings_of(options: &VideoOptions) -> (settings: JobSettings)
    ensures
        settings.stabilize == options.stabilize,
        settings.tag_original == options.tag_original,
{
    JobSettings { stabilize: options.stabilize, tag_original: options.tag_original }
}

fn single(action: JobAction) -> (actions: Vec<JobAction>)
    ensures
        actions@ == seq![action],
{
    let mut actions: Vec<JobAction> = Vec::new();
    actions.push(action);
    actions
}

fn pair(first: JobAction, second: JobAction) -> (actions: Vec<JobAction>)
    ensures
        actions@ == seq![first, second],
{
    let mut actions: Vec<JobAction> = Vec::new();
    actions.push(first);
    actions.push(second);
    actions
}

fn cleanup_then(settings: JobSettings, rest: Vec<JobAction>) -> (actions: Vec<JobAction>)
    ensures
        actions@ == transform_cleanup(settings) + rest@,
{
    let mut actions: Vec<JobAction> = Vec::new();
    if settings.stabilize {
        actions.push(JobAction::RemoveTransformData);
    }
    let mut i: usize = 0;
    assert(actions@ =~= transform_cleanup(settings) + rest@.take(0));
    while i < rest.len()
        invariant
            i <= rest.len(),
            actions@ == transform_cleanup(settings) + rest@.take(i as int),
        decreases rest.len() - i,
    {
        actions.push(rest[i]);
        assert(actions@ =~= transform_cleanup(settings) + rest@.take(i + 1));
        i += 1;
    }
    assert(rest@.take(rest.len() as int) =~= rest@);
    actions
}

fn warned(notice: Notice) -> (actions: Vec<JobAction>)
    ensures
        actions@ == seq![
            JobAction::Note(notice),
            JobAction::RemoveTaggedCopy,
            JobAction::Report(Outcome::Succeeded),
        ],
{
    let mut actions: Vec<JobAction> = Vec::new();
    actions.push(JobAction::Note(notice));
    actions.push(JobAction::RemoveTaggedCopy);
    actions.push(JobAction::Report(Outcome::Succeeded));
    actions
}

/// Takes the job one step on: from the state it is in and what came of the
/// action it waited for, to the next state and the actions to take.
pub fn advance(settings: JobSettings, state: JobState, event: JobEvent) -> (next: (
    JobState,
    Vec<JobAction>,
))
    ensures
        next.0 == step(settings, state, event).0,
        next.1@ == step(settings, state, event).1,
{
    match (state, event) {
        (JobState::Ready, JobEvent::Submitted) => if settings.stabilize {
            (
                JobState::Detecting,
                pair(JobAction::Note(Notice::DetectionStarts), JobAction::RunDetection),
            )
        } else {
            (JobState::Encoding, single(JobAction::RunMain))
        },
        (JobState::Detecting, JobEvent::Exited(true)) => (
            JobState::Encoding,
            pair(JobAction::Note(Notice::DetectionComplete), JobAction::RunMain),
        ),
        (JobState::Detecting, JobEvent::Exited(false)) => (
            JobState::Finished,
            pair(JobAction::RemoveTransformData, JobAction::Report(Outcome::StabilizationFailed)),
        ),
        (JobState::Detecting, JobEvent::Broken) => (
            JobState::Finished,
            pair(JobAction::RemoveTransformData, JobAction::Report(Outcome::IoFailed)),
        ),
        (JobState::Encoding, JobEvent::Exited(true)) => (
            JobState::Moving,
            cleanup_then(settings, single(JobAction::MoveToFinalPath)),
        ),
        (JobState::Encoding, JobEvent::Exited(false)) => (
            JobState::Finished,
            cleanup_then(
                settings,
                pair(JobAction::RemoveWorkFile, JobAction::Report(Outcome::EncodingFailed)),
            ),
        ),
        (JobState::Encoding, JobEvent::Broken) => (
            JobState::Finished,
            cleanup_then(
                settings,
                pair(JobAction::RemoveWorkFile, JobAction::Report(Outcome::IoFailed)),
            ),
        ),
        (JobState::Moving, JobEvent::Moved(true)) => (
            JobState::Measuring,
            pair(JobAction::CopyTimestamps, JobAction::Measure),
        ),
        (JobState::Moving, JobEvent::Moved(false)) => (
            JobState::Finished,
            single(JobAction::Report(Outcome::IoFailed)),
        ),
        (JobState::Moving, JobEvent::Broken) => (
            JobState::Finished,
            single(JobAction::Report(Outcome::IoFailed)),
        ),
        (JobState::Measuring, JobEvent::Measured) => if settings.tag_original {
            (
                JobState::Tagging,
                pair(JobAction::Note(Notice::TaggingStarts), JobAction::RunTagging),
            )
        } else {
            (JobState::Finished, single(JobAction::Report(Outcome::Succeeded)))
        },
        (JobState::Measuring, JobEvent::Broken) => (
            JobState::Finished,
            single(JobAction::Report(Outcome::IoFailed)),
        ),
        (JobState::Tagging, JobEvent::Exited(true)) => (
            JobState::Replacing,
            single(JobAction::ReplaceOriginal),
        ),
        (JobState::Tagging, JobEvent::Exited(false)) => (
            JobState::Finished,
            warned(Notice::TaggingFailed),
        ),
        (JobState::Tagging, JobEvent::Broken) => (
            JobState::Finished,
            warned(Notice::TaggingFailed),
        ),
        (JobState::Replacing, JobEvent::Moved(true)) => (
            JobState::Finished,
            pair(JobAction::Note(Notice::OriginalTagged), JobAction::Report(Outcome::Succeeded)),
        ),
        (JobState::Replacing, JobEvent::Moved(false)) => (
            JobState::Finished,
            warned(Notice::ReplacingFailed),
        ),
        (JobState::Replacing, JobEvent::Broken) => (
            JobState::Finished,
            warned(Notice::ReplacingFailed),
        ),
        _ => (state, Vec::new()),
    }
}

/// The failure that goes with an outcome, where it is one; `detail` is the
/// exit status of the process, or the message of the file operation.
pub open spec fn failure_for(outcome: Outcome, detail: Seq<char>) -> Option<FailureKind> {
    match outcome {
        Outcome::Succeeded => None,
        Outcome::StabilizationFailed => Some(FailureKind::Stabilization(detail)),
        Outcome::EncodingFailed => Some(FailureKind::EncodingFailed(detail)),
        Outcome::IoFailed => Some(FailureKind::Io(detail)),
    }
}

/// The failure to report for an outcome that is one.
pub fn failure_of(outcome: Outcome, detail: &str) -> (failure: Option<Failure>)
    ensures
        match (failure, failure_for(outcome, detail@)) {
            (Some(made), Some(expected)) => made@ == expected,
            (None, None) => true,
            _ => false,
        },
{
    match outcome {
        Outcome::Succeeded => None,
        Outcome::StabilizationFailed => Some(Failure::Stabilization(detail.to_owned())),
        Outcome::EncodingFailed => Some(Failure::EncodingFailed(detail.to_owned())),
        Outcome::IoFailed => Some(Failure::Io(detail.to_owned())),
    }
}

/// The line that a notice writes to the log; `detail` is what the failed
/// step said, and is written only where a step failed.
pub open spec fn notice_line(notice: Notice, detail: Seq<char>) -> Seq<char> {
    match notice {
        Notice::DetectionStarts => "Starting Stabilization Pass 1/2..."@,
        Notice::DetectionComplete => "Stabilization Pass 1 Complete. Starting Pass 2..."@,
        Notice::TaggingStarts => "Tagging original file..."@,
        Notice::OriginalTagged => "Original file successfully tagged."@,
        Notice::TaggingFailed => "Failed to tag original file: "@ + detail,
        Notice::ReplacingFailed => "Failed to replace original file with tagged version: "@
            + detail,
    }
}

/// Writes the line of a notice.
pub fn notice_text(notice: Notice, detail: &str) -> (line: String)
    ensures
        line@ == notice_line(notice, detail@),
{
    match notice {
        Notice::DetectionStarts => "Starting Stabilization Pass 1/2...".to_owned(),
        Notice::DetectionComplete => "Stabilization Pass 1 Complete. Starting Pass 2...".to_owned(),
        Notice::TaggingStarts => "Tagging original file...".to_owned(),
        Notice::OriginalTagged => "Original file successfully tagged.".to_owned(),
        Notice::TaggingFailed => "Failed to tag original file: ".to_owned().concat(detail),
        Notice::ReplacingFailed => "Failed to replace original file with tagged version: ".to_owned().concat(
            detail,
        ),
    }
}

/// The state of a job after `events`, in order, and all the actions it has
/// asked for on the way.
pub open spec fn run_through(settings: JobSettings, events: Seq<JobEvent>) -> (
    JobState,
    Seq<JobAction>,
)
    decreases events.len(),
{
    if events.len() == 0 {
        (JobState::Ready, Seq::empty())
    } else {
        let before = run_through(settings, events.drop_last());
        let taken = step(settings, before.0, events.last());
        (taken.0, before.1 + taken.1)
    }
}

/// True when `actions` holds a report.
pub open spec fn has_reported(actions: Seq<JobAction>) -> bool {
    exists|i: int| 0 <= i < actions.len() && #[trigger] actions[i] is Report
}

/// True when `action` writes to the original or to its tagged copy.
pub open spec fn serves_tagging(action: JobAction) -> bool {
    action is RunTagging || action is ReplaceOriginal || action is RemoveTaggedCopy
}

/// Without the option to mark the original, no job ever asks for an action
/// that writes to the original or makes a tagged copy of it, whatever
/// happens on the way.
pub proof fn lemma_original_untouched_without_tagging(
    settings: JobSettings,
    events: Seq<JobEvent>,
)
    requires
        !settings.tag_original,
    ensures
        !(run_through(settings, events).0 is Tagging),
        !(run_through(settings, events).0 is Replacing),
        forall|i: int|
            0 <= i < run_through(settings, events).1.len() ==> !serves_tagging(
                #[trigger] run_through(settings, events).1[i],
            ),
    decreases events.len(),
{
    if events.len() > 0 {
        lemma_original_untouched_without_tagging(settings, events.drop_last());
    }
}

/// Once the output has been measured the job succeeds: whatever comes of
/// marking the original, the step that ends the job reports success, and
/// the original is replaced only after the remux has succeeded.
pub proof fn lemma_marking_never_fails_the_job(
    settings: JobSettings,
    state: JobState,
    event: JobEvent,
)
    requires
        state is Tagging || state is Replacing || (state is Measuring && event is Measured),
    ensures
        step(settings, state, event).0 is Finished ==> step(settings, state, event).1.last()
            == JobAction::Report(Outcome::Succeeded),
        step(settings, state, event).1.contains(JobAction::ReplaceOriginal) <==> state is Tagging
            && event == JobEvent::Exited(true),
        state is Replacing && event == JobEvent::Moved(true) ==> step(settings, state, event)
            == (
            JobState::Finished,
            seq![JobAction::Note(Notice::OriginalTagged), JobAction::Report(Outcome::Succeeded)],
        ),
{
    let taken = step(settings, state, event).1;
    if state is Tagging && event == JobEvent::Exited(true) {
        assert(taken[0] == JobAction::ReplaceOriginal);
    }
}

/// A main pass that ends without success, as a cancelled one does, ends
/// the job: the work file is removed, the transform data too where there
/// is any, an encoding failure is reported, and nothing is moved.
pub proof fn lemma_failed_main_pass_leaves_no_output(settings: JobSettings)
    ensures
        ({
            let (next, actions) = step(settings, JobState::Encoding, JobEvent::Exited(false));
            &&& next is Finished
            &&& actions.contains(JobAction::RemoveWorkFile)
            &&& settings.stabilize ==> actions.contains(JobAction::RemoveTransformData)
            &&& actions.last() == JobAction::Report(Outcome::EncodingFailed)
            &&& !actions.contains(JobAction::MoveToFinalPath)
        }),
{
    let actions = step(settings, JobState::Encoding, JobEvent::Exited(false)).1;
    if settings.stabilize {
        assert(actions[0] == JobAction::RemoveTransformData);
        assert(actions[1] == JobAction::RemoveWorkFile);
    } else {
        assert(transform_cleanup(settings) + seq![
            JobAction::RemoveWorkFile,
            JobAction::Report(Outcome::EncodingFailed),
        ] =~= seq![JobAction::RemoveWorkFile, JobAction::Report(Outcome::EncodingFailed)]);
        assert(actions[0] == JobAction::RemoveWorkFile);
    }
}

/// A detection pass that ends without success ends the job with a
/// stabilization failure, and a job that has ended asks for nothing more:
/// the main pass is never run.
pub proof fn lemma_failed_detection_stops_the_job(settings: JobSettings, later: JobEvent)
    ensures
        step(settings, JobState::Detecting, JobEvent::Exited(false)) == (
            JobState::Finished,
            seq![JobAction::RemoveTransformData, JobAction::Report(Outcome::StabilizationFailed)],
        ),
        step(settings, JobState::Finished, later) == (JobState::Finished, Seq::<JobAction>::empty()),
{
}

/// A job has reported exactly when it has finished, and it reports once.
pub proof fn lemma_reports_once_when_finished(settings: JobSettings, events: Seq<JobEvent>)
    ensures
        has_reported(run_through(settings, events).1) <==> run_through(settings, events).0
            is Finished,
        forall|i: int, j: int|
            #![trigger run_through(settings, events).1[i], run_through(settings, events).1[j]]
            0 <= i < j < run_through(settings, events).1.len() ==> !(run_through(
                settings,
                events,
            ).1[i] is Report && run_through(settings, events).1[j] is Report),
    decreases events.len(),
{
    if events.len() > 0 {
        let before = run_through(settings, events.drop_last());
        let taken = step(settings, before.0, events.last());
        let all = run_through(settings, events).1;
        lemma_reports_once_when_finished(settings, events.drop_last());
        assert(all == before.1 + taken.1);
        if before.0 is Finished {
            assert(taken.1 =~= Seq::<JobAction>::empty());
            assert(all =~= before.1);
        } else {
            assert forall|i: int| 0 <= i < before.1.len() implies !(#[trigger] before.1[i]
                is Report) by {}
            lemma_step_reports_last(settings, before.0, events.last());
            if taken.0 is Finished {
                assert(all[all.len() - 1] == taken.1.last());
                assert(all[all.len() - 1] is Report);
            }
            assert forall|i: int| 0 <= i < all.len() && #[trigger] all[i] is Report implies i
                == all.len() - 1 && taken.0 is Finished by {
                if i < before.1.len() {
                    assert(all[i] == before.1[i]);
                } else {
                    assert(all[i] == taken.1[i - before.1.len()]);
                }
            }
        }
    }
}

/// A step reports in its last action or not at all, and it reports exactly
/// when it finishes a job that had not finished.
proof fn lemma_step_reports_last(settings: JobSettings, state: JobState, event: JobEvent)
    requires
        !(state is Finished),
    ensures
        forall|i: int|
            0 <= i < step(settings, state, event).1.len() && #[trigger] step(
                settings,
                state,
                event,
            ).1[i] is Report ==> i == step(settings, state, event).1.len() - 1,
        step(settings, state, event).0 is Finished <==> step(settings, state, event).1.len() > 0
            && step(settings, state, event).1.last() is Report,
{
}

} // verus!

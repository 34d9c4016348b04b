use vidreprocess::failure::Failure;
use vidreprocess::job::{
    advance, failure_of, notice_text, settings_of, JobAction, JobEvent, JobSettings, JobState,
    Notice, Outcome,
};
use vidreprocess::models::VideoOptions;
use vidreprocess::transfer::{begin_move, continue_move, MoveAction, MoveState};

fn settings(stabilize: bool, tag_original: bool) -> JobSettings {
    JobSettings { stabilize, tag_original }
}

fn run(settings: JobSettings, events: &[JobEvent]) -> (JobState, Vec<JobAction>) {
    let mut state = JobState::Ready;
    let mut all = Vec::new();
    for event in events {
        let (next, actions) = advance(settings, state, *event);
        state = next;
        all.extend(actions);
    }
    (state, all)
}

#[test]
fn plain_job_that_succeeds() {
    let (state, actions) = run(
        settings(false, false),
        &[JobEvent::Submitted, JobEvent::Exited(true), JobEvent::Moved(true), JobEvent::Measured],
    );
    assert_eq!(state, JobState::Finished);
    assert_eq!(
        actions,
        vec![
            JobAction::RunMain,
            JobAction::MoveToFinalPath,
            JobAction::CopyTimestamps,
            JobAction::Measure,
            JobAction::Report(Outcome::Succeeded),
        ]
    );
}

#[test]
fn original_is_untouched_without_tagging() {
    let (_, actions) = run(
        settings(true, false),
        &[
            JobEvent::Submitted,
            JobEvent::Exited(true),
            JobEvent::Exited(true),
            JobEvent::Moved(true),
            JobEvent::Measured,
            JobEvent::Exited(true),
            JobEvent::Moved(true),
        ],
    );
    assert!(!actions.contains(&JobAction::RunTagging));
    assert!(!actions.contains(&JobAction::ReplaceOriginal));
    assert_eq!(actions.last(), Some(&JobAction::Report(Outcome::Succeeded)));
}

#[test]
fn stabilized_job_with_tagging_that_succeeds() {
    let (state, actions) = run(
        settings(true, true),
        &[
            JobEvent::Submitted,
            JobEvent::Exited(true),
            JobEvent::Exited(true),
            JobEvent::Moved(true),
            JobEvent::Measured,
            JobEvent::Exited(true),
            JobEvent::Moved(true),
        ],
    );
    assert_eq!(state, JobState::Finished);
    assert_eq!(
        actions,
        vec![
            JobAction::Note(Notice::DetectionStarts),
            JobAction::RunDetection,
            JobAction::Note(Notice::DetectionComplete),
            JobAction::RunMain,
            JobAction::RemoveTransformData,
            JobAction::MoveToFinalPath,
            JobAction::CopyTimestamps,
            JobAction::Measure,
            JobAction::Note(Notice::TaggingStarts),
            JobAction::RunTagging,
            JobAction::ReplaceOriginal,
            JobAction::Note(Notice::OriginalTagged),
            JobAction::Report(Outcome::Succeeded),
        ]
    );
}

#[test]
fn failed_tagging_is_a_warning_only() {
    let (state, actions) = run(
        settings(false, true),
        &[
            JobEvent::Submitted,
            JobEvent::Exited(true),
            JobEvent::Moved(true),
            JobEvent::Measured,
            JobEvent::Exited(false),
        ],
    );
    assert_eq!(state, JobState::Finished);
    assert!(!actions.contains(&JobAction::ReplaceOriginal));
    assert_eq!(
        &actions[actions.len() - 3..],
        &[
            JobAction::Note(Notice::TaggingFailed),
            JobAction::RemoveTaggedCopy,
            JobAction::Report(Outcome::Succeeded),
        ]
    );
}

#[test]
fn failed_replacement_is_a_warning_only() {
    let (state, actions) = advance(settings(false, true), JobState::Replacing, JobEvent::Moved(false));
    assert_eq!(state, JobState::Finished);
    assert_eq!(
        actions,
        vec![
            JobAction::Note(Notice::ReplacingFailed),
            JobAction::RemoveTaggedCopy,
            JobAction::Report(Outcome::Succeeded),
        ]
    );
}

#[test]
fn failed_detection_ends_the_job_before_the_main_pass() {
    let (state, actions) = run(
        settings(true, true),
        &[JobEvent::Submitted, JobEvent::Exited(false), JobEvent::Exited(true), JobEvent::Moved(true)],
    );
    assert_eq!(state, JobState::Finished);
    assert_eq!(
        actions,
        vec![
            JobAction::Note(Notice::DetectionStarts),
            JobAction::RunDetection,
            JobAction::RemoveTransformData,
            JobAction::Report(Outcome::StabilizationFailed),
        ]
    );
}

#[test]
fn failed_or_cancelled_main_pass_removes_the_work_file() {
    let (state, actions) = run(settings(false, true), &[JobEvent::Submitted, JobEvent::Exited(false)]);
    assert_eq!(state, JobState::Finished);
    assert_eq!(
        actions,
        vec![
            JobAction::RunMain,
            JobAction::RemoveWorkFile,
            JobAction::Report(Outcome::EncodingFailed),
        ]
    );
    let (_, actions) = advance(settings(true, false), JobState::Encoding, JobEvent::Exited(false));
    assert_eq!(
        actions,
        vec![
            JobAction::RemoveTransformData,
            JobAction::RemoveWorkFile,
            JobAction::Report(Outcome::EncodingFailed),
        ]
    );
}

#[test]
fn failed_move_keeps_the_work_file() {
    let (state, actions) = advance(settings(false, false), JobState::Moving, JobEvent::Moved(false));
    assert_eq!(state, JobState::Finished);
    assert_eq!(actions, vec![JobAction::Report(Outcome::IoFailed)]);
}

#[test]
fn what_cannot_be_done_ends_the_job() {
    let (state, actions) = advance(settings(true, false), JobState::Detecting, JobEvent::Broken);
    assert_eq!(state, JobState::Finished);
    assert_eq!(actions, vec![JobAction::RemoveTransformData, JobAction::Report(Outcome::IoFailed)]);
    let (_, actions) = advance(settings(false, false), JobState::Encoding, JobEvent::Broken);
    assert_eq!(actions, vec![JobAction::RemoveWorkFile, JobAction::Report(Outcome::IoFailed)]);
    let (_, actions) = advance(settings(false, false), JobState::Measuring, JobEvent::Broken);
    assert_eq!(actions, vec![JobAction::Report(Outcome::IoFailed)]);
    let (_, actions) = advance(settings(false, true), JobState::Tagging, JobEvent::Broken);
    assert_eq!(actions.last(), Some(&JobAction::Report(Outcome::Succeeded)));
}

#[test]
fn events_out_of_place_ask_for_nothing() {
    for state in [JobState::Ready, JobState::Finished, JobState::Measuring] {
        let (next, actions) = advance(settings(true, true), state, JobEvent::Exited(true));
        assert_eq!(next, state);
        assert!(actions.is_empty());
    }
    let (next, actions) = advance(settings(true, true), JobState::Encoding, JobEvent::Submitted);
    assert_eq!(next, JobState::Encoding);
    assert!(actions.is_empty());
}

#[test]
fn settings_are_read_from_the_options() {
    let options = VideoOptions {
        filters: Vec::new(),
        modifiers: Vec::new(),
        quality: 30,
        codec: "libx264".to_string(),
        preset: "fast".to_string(),
        hwaccel: "none".to_string(),
        tag_original: true,
        stabilize: false,
    };
    assert_eq!(settings_of(&options), settings(false, true));
}

#[test]
fn outcomes_become_failures() {
    assert!(failure_of(Outcome::Succeeded, "x").is_none());
    match failure_of(Outcome::StabilizationFailed, "exit status: 1") {
        Some(failure @ Failure::Stabilization(_)) => {
            assert_eq!(failure.message(), "Stabilization Pass 1 failed. Status: exit status: 1")
        }
        other => panic!("unexpected: {:?}", other),
    }
    match failure_of(Outcome::EncodingFailed, "signal: 15 (SIGTERM)") {
        Some(failure @ Failure::EncodingFailed(_)) => assert_eq!(
            failure.message(),
            "FFmpeg failed or was aborted. Status: signal: 15 (SIGTERM)"
        ),
        other => panic!("unexpected: {:?}", other),
    }
    match failure_of(Outcome::IoFailed, "disk full") {
        Some(failure @ Failure::Io(_)) => assert_eq!(failure.message(), "disk full"),
        other => panic!("unexpected: {:?}", other),
    }
}

#[test]
fn failure_messages() {
    assert_eq!(Failure::Probe.message(), "Failed to run ffprobe");
    assert_eq!(Failure::Lock.message(), "Failed to lock mutex");
    assert_eq!(Failure::Parse("bad row".to_string()).message(), "bad row");
    assert_eq!(Failure::UnknownModifier("zz".to_string()).message(), "Unknown modifier: zz");
    assert_eq!(
        Failure::ModifierSyntax("ss".to_string()).message(),
        "Failed to parse modifier code: ss"
    );
}

#[test]
fn notices_for_the_log() {
    assert_eq!(notice_text(Notice::DetectionStarts, ""), "Starting Stabilization Pass 1/2...");
    assert_eq!(
        notice_text(Notice::DetectionComplete, "x"),
        "Stabilization Pass 1 Complete. Starting Pass 2..."
    );
    assert_eq!(notice_text(Notice::TaggingStarts, ""), "Tagging original file...");
    assert_eq!(notice_text(Notice::OriginalTagged, ""), "Original file successfully tagged.");
    assert_eq!(notice_text(Notice::TaggingFailed, "boom"), "Failed to tag original file: boom");
    assert_eq!(
        notice_text(Notice::ReplacingFailed, "denied"),
        "Failed to replace original file with tagged version: denied"
    );
}

#[test]
fn move_by_rename() {
    assert_eq!(begin_move(), (MoveState::Renaming, MoveAction::Rename));
    assert_eq!(continue_move(MoveState::Renaming, true), (MoveState::Moved, MoveAction::Stop));
}

#[test]
fn move_by_copy_when_rename_fails() {
    let (state, action) = continue_move(MoveState::Renaming, false);
    assert_eq!((state, action), (MoveState::Copying, MoveAction::Copy));
    let (state, action) = continue_move(state, true);
    assert_eq!((state, action), (MoveState::RemovingSource, MoveAction::RemoveSource));
    assert_eq!(continue_move(state, true), (MoveState::Moved, MoveAction::Stop));
    assert_eq!(continue_move(state, false), (MoveState::Failed, MoveAction::Stop));
}

#[test]
fn failed_copy_leaves_nothing_at_the_destination() {
    assert_eq!(
        continue_move(MoveState::Copying, false),
        (MoveState::Failed, MoveAction::DiscardDestination)
    );
}

#[test]
fn settled_moves_stay_settled() {
    for succeeded in [true, false] {
        assert_eq!(continue_move(MoveState::Moved, succeeded), (MoveState::Moved, MoveAction::Stop));
        assert_eq!(continue_move(MoveState::Failed, succeeded), (MoveState::Failed, MoveAction::Stop));
    }
}

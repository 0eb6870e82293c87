use rawbit::ingest::{accepts_input, destination_plan, is_raw_input, DestinationPlan};
use rawbit::job::{
    choose_artist, conflict_message, overwrite_decision, step, tally, BatchTally, Conflict,
    Failure, JobAction, JobEvent, JobSettings, JobState, OutputEntry, OverwriteDecision,
};

fn run(settings: JobSettings, events: &[JobEvent]) -> (JobState, Vec<JobAction>) {
    let mut state = JobState::Pending;
    let mut actions = Vec::new();
    for e in events {
        let (next, action) = step(settings, state, *e);
        state = next;
        actions.push(action);
    }
    (state, actions)
}

fn happy_events(entry: OutputEntry) -> Vec<JobEvent> {
    vec![
        JobEvent::Start,
        JobEvent::InputRead(true),
        JobEvent::Decoded(true),
        JobEvent::PathRendered,
        JobEvent::OutputProbed(entry),
        JobEvent::Converted(true),
        JobEvent::Written(true),
    ]
}

#[test]
fn overwrite_rules() {
    assert_eq!(overwrite_decision(OutputEntry::Absent, false), OverwriteDecision::Proceed);
    assert_eq!(overwrite_decision(OutputEntry::Absent, true), OverwriteDecision::Proceed);
    assert_eq!(
        overwrite_decision(OutputEntry::File, false),
        OverwriteDecision::Refuse(Conflict::WontOverwrite)
    );
    assert_eq!(overwrite_decision(OutputEntry::File, true), OverwriteDecision::ReplaceExisting);
    assert_eq!(
        overwrite_decision(OutputEntry::Directory, false),
        OverwriteDecision::Refuse(Conflict::WontOverwrite)
    );
    assert_eq!(
        overwrite_decision(OutputEntry::Directory, true),
        OverwriteDecision::Refuse(Conflict::IsDirectory)
    );
}

#[test]
fn job_runs_to_completion() {
    let settings = JobSettings { force: false, dry_run: false };
    let (state, actions) = run(settings, &happy_events(OutputEntry::Absent));
    assert_eq!(state, JobState::Completed);
    assert_eq!(
        actions,
        vec![
            JobAction::ReadInput,
            JobAction::DecodeInput,
            JobAction::RenderPath,
            JobAction::ProbeOutput,
            JobAction::Convert,
            JobAction::WriteOutput,
            JobAction::Finish,
        ]
    );
}

#[test]
fn forced_job_replaces_existing_file() {
    let settings = JobSettings { force: true, dry_run: false };
    let events = [
        JobEvent::Start,
        JobEvent::InputRead(true),
        JobEvent::Decoded(true),
        JobEvent::PathRendered,
        JobEvent::OutputProbed(OutputEntry::File),
        JobEvent::Removed(true),
        JobEvent::Converted(true),
        JobEvent::Written(true),
    ];
    let (state, actions) = run(settings, &events);
    assert_eq!(state, JobState::Completed);
    assert_eq!(actions[4], JobAction::RemoveExisting);
    assert_eq!(actions[5], JobAction::Convert);
}

#[test]
fn job_failures_are_kept() {
    let settings = JobSettings { force: false, dry_run: false };
    let (state, _) = run(settings, &[JobEvent::Start, JobEvent::InputRead(false)]);
    assert_eq!(state, JobState::Failed(Failure::Io));
    let (state, _) = run(settings, &[JobEvent::Start, JobEvent::InputRead(true), JobEvent::Decoded(false)]);
    assert_eq!(state, JobState::Failed(Failure::Decode));
    let (state, actions) = run(settings, &happy_events(OutputEntry::File));
    assert_eq!(state, JobState::Failed(Failure::AlreadyExists(Conflict::WontOverwrite)));
    assert_eq!(actions[4], JobAction::Finish);
    let forced = JobSettings { force: true, dry_run: false };
    let (state, _) = run(forced, &happy_events(OutputEntry::Directory));
    assert_eq!(state, JobState::Failed(Failure::AlreadyExists(Conflict::IsDirectory)));
    let events = [
        JobEvent::Start,
        JobEvent::InputRead(true),
        JobEvent::Decoded(true),
        JobEvent::PathRendered,
        JobEvent::OutputProbed(OutputEntry::Absent),
        JobEvent::Converted(false),
    ];
    assert_eq!(run(settings, &events).0, JobState::Failed(Failure::Encode));
    assert_eq!(
        step(settings, JobState::Pending, JobEvent::Written(true)).0,
        JobState::Failed(Failure::Other)
    );
}

#[test]
fn dry_run_with_force_touches_nothing() {
    let settings = JobSettings { force: true, dry_run: true };
    let (state, actions) = run(settings, &happy_events(OutputEntry::File));
    assert_eq!(state, JobState::Completed);
    assert!(!actions.contains(&JobAction::RemoveExisting));
    assert!(!actions.contains(&JobAction::WriteOutput));
    assert_eq!(
        step(settings, JobState::OverwriteCheck, JobEvent::OutputProbed(OutputEntry::File)),
        (JobState::Completed, JobAction::Finish)
    );
}

#[test]
fn one_conflict_among_successes() {
    let settings = JobSettings { force: false, dry_run: false };
    let entries = [OutputEntry::Absent, OutputEntry::Absent, OutputEntry::File, OutputEntry::Absent];
    let outcomes: Vec<JobState> = entries.iter().map(|e| run(settings, &happy_events(*e)).0).collect();
    assert_eq!(tally(&outcomes), BatchTally { completed: 3, failed: 1, already_exists: 1 });
    let mut reversed = outcomes.clone();
    reversed.reverse();
    assert_eq!(tally(&reversed), BatchTally { completed: 3, failed: 1, already_exists: 1 });
}

#[test]
fn empty_batch_tallies_nothing() {
    assert_eq!(tally(&[]), BatchTally { completed: 0, failed: 0, already_exists: 0 });
}

#[test]
fn conflict_messages() {
    assert_eq!(
        conflict_message(Conflict::WontOverwrite, "/out/a.dng"),
        "won't overwrite existing file: /out/a.dng"
    );
    assert_eq!(
        conflict_message(Conflict::IsDirectory, "/out/a.dng"),
        "computed filepath already exists as a directory: /out/a.dng"
    );
}

#[test]
fn artist_override_wins() {
    let given = Some("Me".to_string());
    let recorded = Some("Camera Owner".to_string());
    assert_eq!(choose_artist(&given, &recorded), given);
    assert_eq!(choose_artist(&None, &recorded), recorded);
    assert_eq!(choose_artist(&None, &None), None);
}

#[test]
fn destination_plans() {
    assert_eq!(destination_plan(false, false), DestinationPlan::Create);
    assert_eq!(destination_plan(true, true), DestinationPlan::UseExisting);
    assert_eq!(destination_plan(true, false), DestinationPlan::NotADirectory);
}

#[test]
fn inputs_are_filtered_by_extension() {
    let supported = vec!["ARW".to_string(), "CR2".to_string()];
    assert!(accepts_input(true, "ARW", &supported));
    assert!(!accepts_input(true, "arw", &supported));
    assert!(!accepts_input(false, "ARW", &supported));
    assert!(!accepts_input(true, "JPG", &supported));
    assert!(is_raw_input(true, "NEF"));
    assert!(!is_raw_input(true, "JPG"));
    assert!(!is_raw_input(false, "NEF"));
}

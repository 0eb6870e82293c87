use vstd::prelude::*;

verus! {

/// What stands at a job's output path before it is written.
#[derive(Clone, Copy, Debug, PartialEq, Eq, Structural)]
pub enum OutputEntry {
    Absent,
    File,
    Directory,
}

/// Why an existing output path is left alone.
#[derive(Clone, Copy, Debug, PartialEq, Eq, Structural)]
pub enum Conflict {
    /// Something exists there and overwriting was not asked for.
    WontOverwrite,
    /// A directory exists there; it is never replaced.
    IsDirectory,
}

/// How a job fails.
#[derive(Clone, Copy, Debug, PartialEq, Eq, Structural)]
pub enum Failure {
    /// Reading the input, removing the old output or writing the new one failed.
    Io,
    /// The input could not be decoded.
    Decode,
    /// The decoded image could not be converted.
    Encode,
    /// The output path is taken.
    AlreadyExists(Conflict),
    /// The job was handed an event that its state does not expect.
    Other,
}

/// Where a job stands.
#[derive(Clone, Copy, Debug, PartialEq, Eq, Structural)]
pub enum JobState {
    Pending,
    Reading,
    Decoding,
    PathResolved,
    OverwriteCheck,
    Converting,
    Writing,
    Completed,
    Failed(Failure),
}

/// The outcome of the outside work that a job asked for.
#[derive(Clone, Copy, Debug, PartialEq, Eq, Structural)]
pub enum JobEvent {
    /// The job is dispatched.
    Start,
    /// The input file was read, or could not be.
    InputRead(bool),
    /// The input was decoded, or could not be.
    Decoded(bool),
    /// The output path was rendered from the template.
    PathRendered,
    /// What stands at the output path.
    OutputProbed(OutputEntry),
    /// The existing output file was removed, or could not be.
    Removed(bool),
    /// The image was converted, or could not be.
    Converted(bool),
    /// The output file was created and written, or could not be.
    Written(bool),
}

/// The outside work that a job asks for next.
#[derive(Clone, Copy, Debug, PartialEq, Eq, Structural)]
pub enum JobAction {
    ReadInput,
    DecodeInput,
    RenderPath,
    ProbeOutput,
    RemoveExisting,
    Convert,
    WriteOutput,
    /// Nothing more: the job has reached its outcome.
    Finish,
}

/// The settings of a batch that steer each job.
#[derive(Clone, Copy, Debug, PartialEq, Eq, Structural)]
pub struct JobSettings {
    /// Replace an existing output file.
    pub force: bool,
    /// Stop once the output path is known, touching no file.
    pub dry_run: bool,
}

/// What to do about the output path, from what stands there.
#[derive(Clone, Copy, Debug, PartialEq, Eq, Structural)]
pub enum OverwriteDecision {
    Proceed,
    ReplaceExisting,
    Refuse(Conflict),
}

/// The overwrite rule: a free path is used; anything there is refused unless
/// overwriting was asked for; a directory is refused even then; a file is
/// replaced when overwriting was asked for.
pub open spec fn overwrite_rule(entry: OutputEntry, force: bool) -> OverwriteDecision {
    match entry {
        OutputEntry::Absent => OverwriteDecision::Proceed,
        OutputEntry::File => if force {
            OverwriteDecision::ReplaceExisting
        } else {
            OverwriteDecision::Refuse(Conflict::WontOverwrite)
        },
        OutputEntry::Directory => if force {
            OverwriteDecision::Refuse(Conflict::IsDirectory)
        } else {
            OverwriteDecision::Refuse(Conflict::WontOverwrite)
        },
    }
}

/// Decides what to do about the output path.
pub fn overwrite_decision(entry: OutputEntry, force: bool) -> (r: OverwriteDecision)
    ensures
        r == overwrite_rule(entry, force),
        r == OverwriteDecision::Proceed <==> entry == OutputEntry::Absent,
        r == OverwriteDecision::ReplaceExisting <==> entry == OutputEntry::File && force,
        r == OverwriteDecision::Refuse(Conflict::IsDirectory) <==> entry == OutputEntry::Directory
            && force,
        r == OverwriteDecision::Refuse(Conflict::WontOverwrite) <==> entry != OutputEntry::Absent
            && !force,
{
    match entry {
        OutputEntry::Absent => OverwriteDecision::Proceed,
        OutputEntry::File => {
            if force {
                OverwriteDecision::ReplaceExisting
            } else {
                OverwriteDecision::Refuse(Conflict::WontOverwrite)
            }
        },
        OutputEntry::Directory => {
            if force {
                OverwriteDecision::Refuse(Conflict::IsDirectory)
            } else {
                OverwriteDecision::Refuse(Conflict::WontOverwrite)
            }
        },
    }
}

/// Whether the state is an outcome.
pub open spec fn is_terminal(s: JobState) -> bool {
    s is Completed || s is Failed
}

/// Whether the action creates, writes or removes a file at the output path.
pub open spec fn touches_output(a: JobAction) -> bool {
    a is RemoveExisting || a is WriteOutput
}

/// The job's transition table: the next state and the work it asks for.
pub open spec fn transition(settings: JobSettings, state: JobState, event: JobEvent) -> (
    JobState,
    JobAction,
) {
    match (state, event) {
        (JobState::Completed, _) => (state, JobAction::Finish),
        (JobState::Failed(_), _) => (state, JobAction::Finish),
        (JobState::Pending, JobEvent::Start) => (JobState::Reading, JobAction::ReadInput),
        (JobState::Reading, JobEvent::InputRead(ok)) => if ok {
            (JobState::Decoding, JobAction::DecodeInput)
        } else {
            (JobState::Failed(Failure::Io), JobAction::Finish)
        },
        (JobState::Decoding, JobEvent::Decoded(ok)) => if ok {
            (JobState::PathResolved, JobAction::RenderPath)
        } else {
            (JobState::Failed(Failure::Decode), JobAction::Finish)
        },
        (JobState::PathResolved, JobEvent::PathRendered) => if settings.dry_run {
            (JobState::Completed, JobAction::Finish)
        } else {
            (JobState::OverwriteCheck, JobAction::ProbeOutput)
        },
        (JobState::OverwriteCheck, _) if settings.dry_run => (JobState::Completed, JobAction::Finish),
        (JobState::Converting, _) if settings.dry_run => (JobState::Completed, JobAction::Finish),
        (JobState::Writing, _) if settings.dry_run => (JobState::Completed, JobAction::Finish),
        (JobState::OverwriteCheck, JobEvent::OutputProbed(entry)) => match overwrite_rule(
            entry,
            settings.force,
        ) {
            OverwriteDecision::Proceed => (JobState::Converting, JobAction::Convert),
            OverwriteDecision::ReplaceExisting => (
                JobState::OverwriteCheck,
                JobAction::RemoveExisting,
            ),
            OverwriteDecision::Refuse(c) => (
                JobState::Failed(Failure::AlreadyExists(c)),
                JobAction::Finish,
            ),
        },
        (JobState::OverwriteCheck, JobEvent::Removed(ok)) => if ok {
            (JobState::Converting, JobAction::Convert)
        } else {
            (JobState::Failed(Failure::Io), JobAction::Finish)
        },
        (JobState::Converting, JobEvent::Converted(ok)) => if ok {
            (JobState::Writing, JobAction::WriteOutput)
        } else {
            (JobState::Failed(Failure::Encode), JobAction::Finish)
        },
        (JobState::Writing, JobEvent::Written(ok)) => if ok {
            (JobState::Completed, JobAction::Finish)
        } else {
            (JobState::Failed(Failure::Io), JobAction::Finish)
        },
        _ => (JobState::Failed(Failure::Other), JobAction::Finish),
    }
}

/// Advances a job by one event: the state it moves to and the work it asks
/// for next. An outcome is final; a dry run never asks to create, write or
/// remove a file.
pub fn step(settings: JobSettings, state: JobState, event: JobEvent) -> (r: (JobState, JobAction))
    ensures
        r == transition(settings, state, event),
        is_terminal(state) ==> r == (state, JobAction::Finish),
        is_terminal(r.0) <==> r.1 == JobAction::Finish,
        settings.dry_run ==> !touches_output(r.1),
{
    let finish = JobAction::Finish;
    match (state, event) {
        (JobState::Completed, _) => (state, finish),
        (JobState::Failed(_), _) => (state, finish),
        (JobState::Pending, JobEvent::Start) => (JobState::Reading, JobAction::ReadInput),
        (JobState::Reading, JobEvent::InputRead(ok)) => {
            if ok {
                (JobState::Decoding, JobAction::DecodeInput)
            } else {
                (JobState::Failed(Failure::Io), finish)
            }
        },
        (JobState::Decoding, JobEvent::Decoded(ok)) => {
            if ok {
                (JobState::PathResolved, JobAction::RenderPath)
            } else {
                (JobState::Failed(Failure::Decode), finish)
            }
        },
        (JobState::PathResolved, JobEvent::PathRendered) => {
            if settings.dry_run {
                (JobState::Completed, finish)
            } else {
                (JobState::OverwriteCheck, JobAction::ProbeOutput)
            }
        },
        (JobState::OverwriteCheck, _) if settings.dry_run => (JobState::Completed, finish),
        (JobState::Converting, _) if settings.dry_run => (JobState::Completed, finish),
        (JobState::Writing, _) if settings.dry_run => (JobState::Completed, finish),
        (JobState::OverwriteCheck, JobEvent::OutputProbed(entry)) => {
            match overwrite_decision(entry, settings.force) {
                OverwriteDecision::Proceed => (JobState::Converting, JobAction::Convert),
                OverwriteDecision::ReplaceExisting => (
                    JobState::OverwriteCheck,
                    JobAction::RemoveExisting,
                ),
                OverwriteDecision::Refuse(c) => (JobState::Failed(Failure::AlreadyExists(c)), finish),
            }
        },
        (JobState::OverwriteCheck, JobEvent::Removed(ok)) => {
            if ok {
                (JobState::Converting, JobAction::Convert)
            } else {
                (JobState::Failed(Failure::Io), finish)
            }
        },
        (JobState::Converting, JobEvent::Converted(ok)) => {
            if ok {
                (JobState::Writing, JobAction::WriteOutput)
            } else {
                (JobState::Failed(Failure::Encode), finish)
            }
        },
        (JobState::Writing, JobEvent::Written(ok)) => {
            if ok {
                (JobState::Completed, finish)
            } else {
                (JobState::Failed(Failure::Io), finish)
            }
        },
        _ => (JobState::Failed(Failure::Other), finish),
    }
}

/// The state a job reaches from `state` through `events`, and the work it asks
/// for on each of them.
pub open spec fn run_events(settings: JobSettings, state: JobState, events: Seq<JobEvent>) -> (
    JobState,
    Seq<JobAction>,
)
    decreases events.len(),
{
    if events.len() == 0 {
        (state, Seq::empty())
    } else {
        let (next, action) = transition(settings, state, events[0]);
        let (last, rest) = run_events(settings, next, events.drop_first());
        (last, seq![action] + rest)
    }
}

/// A dry run never creates, writes or removes a file at the output path,
/// from any state, whatever the events, whether or not overwriting was
/// asked for and whatever stands at the output path.
pub proof fn lemma_dry_run_touches_nothing(
    settings: JobSettings,
    state: JobState,
    events: Seq<JobEvent>,
)
    requires
        settings.dry_run,
    ensures
        forall|i: int|
            0 <= i < run_events(settings, state, events).1.len() ==> !touches_output(
                #[trigger] run_events(settings, state, events).1[i],
            ),
    decreases events.len(),
{
    if events.len() > 0 {
        let (next, action) = transition(settings, state, events[0]);
        lemma_dry_run_touches_nothing(settings, next, events.drop_first());
        let rest = run_events(settings, next, events.drop_first()).1;
        let all = run_events(settings, state, events).1;
        assert(all == seq![action] + rest);
        assert forall|i: int| 0 <= i < all.len() implies !touches_output(#[trigger] all[i]) by {
            if i > 0 {
                assert(all[i] == rest[i - 1]);
            }
        }
    }
}

/// How many of the outcomes are completed jobs.
pub open spec fn completed_count(outcomes: Seq<JobState>) -> nat
    decreases outcomes.len(),
{
    if outcomes.len() == 0 {
        0
    } else {
        completed_count(outcomes.drop_last()) + if outcomes.last() is Completed {
            1nat
        } else {
            0nat
        }
    }
}

/// How many of the outcomes are failed jobs.
pub open spec fn failed_count(outcomes: Seq<JobState>) -> nat
    decreases outcomes.len(),
{
    if outcomes.len() == 0 {
        0
    } else {
        failed_count(outcomes.drop_last()) + if outcomes.last() is Failed {
            1nat
        } else {
            0nat
        }
    }
}

/// Whether the outcome is a job that failed because its output path was taken.
pub open spec fn is_conflict(s: JobState) -> bool {
    s matches JobState::Failed(Failure::AlreadyExists(_))
}

/// How many of the outcomes are jobs whose output path was taken.
pub open spec fn conflict_count(outcomes: Seq<JobState>) -> nat
    decreases outcomes.len(),
{
    if outcomes.len() == 0 {
        0
    } else {
        conflict_count(outcomes.drop_last()) + if is_conflict(outcomes.last()) {
            1nat
        } else {
            0nat
        }
    }
}

/// The counts of a batch's outcomes.
#[derive(Clone, Copy, Debug, PartialEq, Eq, Structural)]
pub struct BatchTally {
    pub completed: usize,
    pub failed: usize,
    pub already_exists: usize,
}

proof fn lemma_counts_bounded(outcomes: Seq<JobState>)
    ensures
        completed_count(outcomes) <= outcomes.len(),
        failed_count(outcomes) <= outcomes.len(),
        conflict_count(outcomes) <= outcomes.len(),
    decreases outcomes.len(),
{
    if outcomes.len() > 0 {
        lemma_counts_bounded(outcomes.drop_last());
    }
}

/// Counts the outcomes of a batch.
pub fn tally(outcomes: &[JobState]) -> (r: BatchTally)
    ensures
        r.completed == completed_count(outcomes@),
        r.failed == failed_count(outcomes@),
        r.already_exists == conflict_count(outcomes@),
{
    let mut r = BatchTally { completed: 0, failed: 0, already_exists: 0 };
    let mut i: usize = 0;
    while i < outcomes.len()
        invariant
            i <= outcomes@.len(),
            r.completed == completed_count(outcomes@.subrange(0, i as int)),
            r.failed == failed_count(outcomes@.subrange(0, i as int)),
            r.already_exists == conflict_count(outcomes@.subrange(0, i as int)),
        decreases outcomes.len() - i,
    {
        let ghost seen = outcomes@.subrange(0, i + 1);
        proof {
            lemma_counts_bounded(outcomes@.subrange(0, i as int));
            assert(seen.drop_last() == outcomes@.subrange(0, i as int));
        }
        match outcomes[i] {
            JobState::Completed => {
                r.completed = r.completed + 1;
            },
            JobState::Failed(f) => {
                r.failed = r.failed + 1;
                if let Failure::AlreadyExists(_) = f {
                    r.already_exists = r.already_exists + 1;
                }
            },
            _ => {},
        }
        i = i + 1;
    }
    assert(outcomes@.subrange(0, outcomes@.len() as int) == outcomes@);
    r
}

/// One job whose output path was taken, at any position of the batch, among
/// jobs that all completed: the batch counts one failure, which is that
/// conflict, and every other job as completed.
pub proof fn lemma_single_conflict(outcomes: Seq<JobState>, k: int)
    requires
        0 <= k < outcomes.len(),
        is_conflict(outcomes[k]),
        forall|i: int| 0 <= i < outcomes.len() && i != k ==> outcomes[i] is Completed,
    ensures
        completed_count(outcomes) == outcomes.len() - 1,
        failed_count(outcomes) == 1,
        conflict_count(outcomes) == 1,
    decreases outcomes.len(),
{
    let n = outcomes.len() as int;
    let front = outcomes.drop_last();
    if k == n - 1 {
        lemma_all_completed(front);
    } else {
        lemma_single_conflict(front, k);
    }
}

proof fn lemma_all_completed(outcomes: Seq<JobState>)
    requires
        forall|i: int| 0 <= i < outcomes.len() ==> outcomes[i] is Completed,
    ensures
        completed_count(outcomes) == outcomes.len(),
        failed_count(outcomes) == 0,
        conflict_count(outcomes) == 0,
    decreases outcomes.len(),
{
    if outcomes.len() > 0 {
        lemma_all_completed(outcomes.drop_last());
    }
}

/// The text that opens the message of a conflict at the output path.
pub open spec fn conflict_prefix(c: Conflict) -> Seq<char> {
    match c {
        Conflict::WontOverwrite => "won't overwrite existing file: "@,
        Conflict::IsDirectory => "computed filepath already exists as a directory: "@,
    }
}

/// The message that reports a conflict at the output path `path`.
pub fn conflict_message(c: Conflict, path: &str) -> (r: String)
    ensures
        r@ == conflict_prefix(c) + path@,
{
    let prefix = match c {
        Conflict::WontOverwrite => "won't overwrite existing file: ",
        Conflict::IsDirectory => "computed filepath already exists as a directory: ",
    };
    String::from_str(prefix).concat(path)
}

/// The artist recorded in a converted image: the one given for the batch,
/// else the one that the image itself records.
pub fn choose_artist(explicit: &Option<String>, recorded: &Option<String>) -> (r: Option<String>)
    ensures
        explicit matches Some(a) ==> r matches Some(x) && x@ == a@,
        explicit is None ==> (r is Some <==> recorded is Some),
        explicit is None ==> (recorded matches Some(a) ==> r matches Some(x) && x@ == a@),
{
    match explicit {
        Some(a) => Some(a.clone()),
        None => match recorded {
            Some(a) => Some(a.clone()),
            None => None,
        },
    }
}

} // verus!

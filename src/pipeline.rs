use vstd::prelude::*;
use vstd::string::StringExecFns;
use crate::config::{advanced, as_of, AppConfig, Checkpoint};
use crate::filter::{
    distinct_numbers, eligible, eligible_changes, select_eligible, sorted_by_merge,
    strictly_sorted_by_merge,
};
use crate::pr_template::text_or;
use crate::record::ChangeRecord;
use crate::source::{dedup_by_number, deduplicated_from};
use crate::time::{before, not_after, Instant};

verus! {

/// Why a run stopped before it attempted its records.
#[derive(Clone, Copy, Debug, PartialEq, Eq, Structural)]
pub enum RunError {
    /// The first page of the listing could not be read.
    SourceUnavailable,
    /// The working copy could not be brought up to date.
    SyncConflict,
}

/// What replaying one change onto its isolated branch came to.
#[derive(Clone, Debug)]
pub enum ReplayOutcome {
    Replayed { commit_id: String },
    Conflict { reason: String },
    TransportFailure { reason: String },
}

/// Where the work on one record stands.
#[derive(Clone, Copy, Debug, PartialEq, Eq, Structural)]
pub enum Stage {
    Start,
    Branching,
    Replaying,
    Pushing,
    Publishing,
    Reporting,
    Resetting,
    Done,
    Aborted,
}

/// What came of the last action.
#[derive(Clone, Debug)]
pub enum Event {
    Succeeded,
    Failed { reason: String },
}

/// What is to be done next for a record.
#[derive(Clone, Debug)]
pub enum Action {
    CreateBranch { name: String },
    Replay { sha: String },
    Push { branch: String },
    OpenProposal { branch: String, sha: String },
    OpenFailureReport { number: u64, reason: String },
    Reset,
    Next,
    AbortRun,
}

/// The work on one record: its number, its merge artifact, its isolated branch and
/// its stage.
#[derive(Clone, Debug)]
pub struct RecordTask {
    pub number: u64,
    pub sha: Option<String>,
    pub branch: String,
    pub stage: Stage,
}

/// How the base branch of the working copy is brought up to date.
#[derive(Clone, Copy, Debug, PartialEq, Eq, Structural)]
pub enum SyncStep {
    /// Nothing to do: the base branch is at the upstream tip.
    UpToDate,
    /// The base branch moves forward to the upstream tip.
    FastForward,
}

/// Brings the base branch up to date where that is possible without rewriting local
/// history: a base branch that has diverged from upstream needs an operator.
pub fn sync_step(up_to_date: bool, fast_forward: bool) -> (r: Result<SyncStep, RunError>)
    ensures
        up_to_date ==> r == Ok::<SyncStep, RunError>(SyncStep::UpToDate),
        !up_to_date && fast_forward ==> r == Ok::<SyncStep, RunError>(SyncStep::FastForward),
        !up_to_date && !fast_forward ==> r == Err::<SyncStep, RunError>(RunError::SyncConflict),
{
    if up_to_date {
        Ok(SyncStep::UpToDate)
    } else if fast_forward {
        Ok(SyncStep::FastForward)
    } else {
        Err(RunError::SyncConflict)
    }
}

/// All the records of the pages, in order.
pub open spec fn concat_pages(pages: Seq<Vec<ChangeRecord>>) -> Seq<ChangeRecord>
    decreases pages.len(),
{
    if pages.len() == 0 {
        Seq::empty()
    } else {
        concat_pages(pages.drop_last()) + pages.last()@
    }
}

/// The candidates of a run from the pages of the listing: the first page, where it
/// could be read, and the later pages, without duplicates by number.
pub fn gather(first_page: Option<Vec<ChangeRecord>>, later_pages: Vec<Vec<ChangeRecord>>) -> (r:
    Result<Vec<ChangeRecord>, RunError>)
    ensures
        first_page is None ==> r == Err::<Vec<ChangeRecord>, RunError>(RunError::SourceUnavailable),
        first_page matches Some(f) ==> r matches Ok(c) && deduplicated_from(
            c@,
            f@ + concat_pages(later_pages@),
            0,
        ),
        r matches Ok(c) ==> forall|i: int, j: int|
            0 <= i < c.len() && 0 <= j < c.len() && i != j ==> c@[i].number != c@[j].number,
{
    let mut first = match first_page {
        Some(f) => f,
        None => return Err(RunError::SourceUnavailable),
    };
    let ghost pages = later_pages@;
    let mut rest = later_pages;
    let mut tail: Vec<ChangeRecord> = Vec::new();
    while rest.len() > 0
        invariant
            rest@ == pages.take(rest.len() as int),
            rest.len() <= pages.len(),
            concat_pages(pages) == concat_pages(rest@) + tail@,
        decreases rest.len(),
    {
        let ghost before_tail = tail@;
        let ghost before_rest = rest@;
        let mut page = rest.pop().unwrap();
        proof {
            assert(before_rest.drop_last() =~= rest@);
            assert(concat_pages(before_rest) == concat_pages(rest@) + page@);
        }
        page.append(&mut tail);
        tail = page;
        proof {
            assert(rest@ =~= pages.take(rest.len() as int));
            assert(concat_pages(pages) =~= concat_pages(rest@) + tail@);
        }
    }
    proof {
        assert(rest@ =~= Seq::<Vec<ChangeRecord>>::empty());
        assert(concat_pages(pages) =~= tail@);
    }
    first.append(&mut tail);
    Ok(dedup_by_number(first))
}

/// The records a run attempts, in order: the eligible candidates under the settings,
/// oldest merge first.
pub fn plan_run(config: &AppConfig, candidates: Vec<ChangeRecord>) -> (r: Vec<ChangeRecord>)
    ensures
        r@.to_multiset() == eligible_changes(
            candidates@,
            as_of(config.checkpoint_spec()),
            config.ignored_users@,
            config.ignored_labels@,
        ).to_multiset(),
        sorted_by_merge(r@),
        distinct_numbers(candidates@) ==> strictly_sorted_by_merge(r@),
        forall|i: int|
            0 <= i < r.len() ==> eligible(
                #[trigger] r@[i],
                as_of(config.checkpoint_spec()),
                config.ignored_users@,
                config.ignored_labels@,
            ),
{
    let cutoff = config.date_from_with_time();
    select_eligible(candidates, &cutoff, &config.ignored_users, &config.ignored_labels)
}

/// The checkpoint after a run that began at `started`: advanced to that instant where
/// the run completed, and left as it was where it stopped early.
pub open spec fn after_run(before: Checkpoint, started: Instant, completed: bool) -> Checkpoint {
    if completed {
        advanced(started)
    } else {
        before
    }
}

/// The checkpoint after a run that began at `started`: advanced to that instant where
/// the run completed, and left as it was where it stopped early.
pub fn checkpoint_after_run(before: Checkpoint, started: Instant, completed: bool) -> (r: Checkpoint)
    ensures
        r == after_run(before, started, completed),
{
    if completed {
        Checkpoint::advance(started)
    } else {
        before
    }
}

/// The checkpoint never moves back: after a run that began no earlier than it, it
/// stands at or after where it stood.
pub proof fn lemma_checkpoint_monotone(before: Checkpoint, started: Instant, completed: bool)
    requires
        not_after(as_of(before), started),
    ensures
        not_after(as_of(before), as_of(after_run(before, started, completed))),
{
}

/// With a remote whose changes were all merged before a completed run began, a
/// second run from the advanced checkpoint has nothing to mirror.
pub proof fn lemma_rerun_mirrors_nothing(
    records: Seq<ChangeRecord>,
    started: Instant,
    ignored_users: Seq<String>,
    ignored_labels: Seq<String>,
)
    requires
        forall|i: int|
            0 <= i < records.len() ==> ((#[trigger] records[i]).merged_at matches Some(m) ==> before(
                m,
                started,
            )),
    ensures
        eligible_changes(records, as_of(advanced(started)), ignored_users, ignored_labels).len()
            == 0,
{
    let cutoff = as_of(advanced(started));
    let p = |r: ChangeRecord| eligible(r, cutoff, ignored_users, ignored_labels);
    assert forall|i: int| 0 <= i < records.len() implies !p(#[trigger] records[i]) by {
        if records[i].merged_at is Some {
            assert(before(records[i].merged_at->0, started));
        }
    }
    records.lemma_all_neg_filter_empty(p);
}

/// What replaying a change came to: a failure to fetch its artifact is a transport
/// failure, a failure to apply it a conflict, and a new commit a success.
pub fn replay_outcome(fetch: Result<(), String>, apply: Result<String, String>) -> (o: ReplayOutcome)
    ensures
        match fetch {
            Err(reason) => o matches ReplayOutcome::TransportFailure { reason: r } && r@ == reason@,
            Ok(()) => match apply {
                Ok(id) => o matches ReplayOutcome::Replayed { commit_id } && commit_id@ == id@,
                Err(reason) => o matches ReplayOutcome::Conflict { reason: r } && r@ == reason@,
            },
        },
{
    match fetch {
        Err(reason) => ReplayOutcome::TransportFailure { reason },
        Ok(()) => match apply {
            Ok(commit_id) => ReplayOutcome::Replayed { commit_id },
            Err(reason) => ReplayOutcome::Conflict { reason },
        },
    }
}

/// The event that a replay's outcome stands for.
pub fn replay_event(outcome: ReplayOutcome) -> (e: Event)
    ensures
        match outcome {
            ReplayOutcome::Replayed { .. } => e is Succeeded,
            ReplayOutcome::Conflict { reason } => e matches Event::Failed { reason: r } && r@ == reason@,
            ReplayOutcome::TransportFailure { reason } => e matches Event::Failed { reason: r } && r@
                == reason@,
        },
{
    match outcome {
        ReplayOutcome::Replayed { .. } => Event::Succeeded,
        ReplayOutcome::Conflict { reason } => Event::Failed { reason },
        ReplayOutcome::TransportFailure { reason } => Event::Failed { reason },
    }
}

/// The stage that follows `stage` on `event`, for a record with or without a merge
/// artifact.
pub open spec fn next_stage(stage: Stage, has_sha: bool, succeeded: bool) -> Stage {
    match stage {
        Stage::Start => if has_sha {
            Stage::Branching
        } else {
            Stage::Reporting
        },
        Stage::Branching => if succeeded {
            Stage::Replaying
        } else {
            Stage::Reporting
        },
        Stage::Replaying => if succeeded {
            Stage::Pushing
        } else {
            Stage::Reporting
        },
        Stage::Pushing => if succeeded {
            Stage::Publishing
        } else {
            Stage::Reporting
        },
        Stage::Publishing => Stage::Resetting,
        Stage::Reporting => Stage::Resetting,
        Stage::Resetting => if succeeded {
            Stage::Done
        } else {
            Stage::Aborted
        },
        Stage::Done => Stage::Done,
        Stage::Aborted => Stage::Aborted,
    }
}

/// The stages that work on a record passes through from `stage`, one per event, where
/// `events` says of each event whether it was a success.
pub open spec fn stages_after(stage: Stage, has_sha: bool, events: Seq<bool>) -> Seq<Stage>
    decreases events.len(),
{
    if events.len() == 0 {
        Seq::empty()
    } else {
        let next = next_stage(stage, has_sha, events[0]);
        seq![next] + stages_after(next, has_sha, events.drop_first())
    }
}

/// The stages that open a proposal or a failure report.
pub open spec fn is_outcome(s: Stage) -> bool {
    s == Stage::Publishing || s == Stage::Reporting
}

/// How many proposals and failure reports a sequence of stages opens.
pub open spec fn outcome_count(stages: Seq<Stage>) -> nat
    decreases stages.len(),
{
    if stages.len() == 0 {
        0
    } else {
        (if is_outcome(stages[0]) {
            1nat
        } else {
            0nat
        }) + outcome_count(stages.drop_first())
    }
}

/// The stages before a proposal or report is opened.
pub open spec fn before_outcome(s: Stage) -> bool {
    s == Stage::Start || s == Stage::Branching || s == Stage::Replaying || s == Stage::Pushing
}

proof fn lemma_outcomes_from(stage: Stage, has_sha: bool, events: Seq<bool>)
    ensures
        stages_after(stage, has_sha, events).contains(Stage::Done) ==> outcome_count(
            stages_after(stage, has_sha, events),
        ) == if before_outcome(stage) {
            1nat
        } else {
            0nat
        },
        stage == Stage::Done ==> outcome_count(stages_after(stage, has_sha, events)) == 0,
        stage == Stage::Aborted ==> !stages_after(stage, has_sha, events).contains(Stage::Done),
    decreases events.len(),
{
    if events.len() > 0 {
        let next = next_stage(stage, has_sha, events[0]);
        let rest = stages_after(next, has_sha, events.drop_first());
        let whole = stages_after(stage, has_sha, events);
        lemma_outcomes_from(next, has_sha, events.drop_first());
        assert(whole == seq![next] + rest);
        assert(whole[0] == next);
        assert(whole.drop_first() =~= rest);
        assert(whole.contains(Stage::Done) ==> next == Stage::Done || rest.contains(Stage::Done))
            by {
            if whole.contains(Stage::Done) {
                let i = choose|i: int| 0 <= i < whole.len() && whole[i] == Stage::Done;
                if i > 0 {
                    assert(rest[i - 1] == Stage::Done);
                }
            }
        }
        if stage == Stage::Aborted {
            assert(!whole.contains(Stage::Done)) by {
                if whole.contains(Stage::Done) {
                    assert(rest.contains(Stage::Done));
                }
            }
        }
    }
}

/// Work on a record that runs to its end opens exactly one proposal or failure report
/// for it, whatever succeeds or fails on the way.
pub proof fn lemma_one_outcome_per_record(has_sha: bool, events: Seq<bool>)
    requires
        stages_after(Stage::Start, has_sha, events).contains(Stage::Done),
    ensures
        outcome_count(stages_after(Stage::Start, has_sha, events)) == 1,
{
    lemma_outcomes_from(Stage::Start, has_sha, events);
}

/// The reason a record without a merge artifact is reported with.
pub open spec fn missing_sha_reason() -> Seq<char> {
    "No merge commit SHA."@
}

/// The action that goes with entering stage `next` from `stage`.
pub open spec fn action_ok(a: Action, t: RecordTask, next: Stage, e: Event) -> bool {
    match next {
        Stage::Branching => a matches Action::CreateBranch { name } && name@ == t.branch@,
        Stage::Replaying => a matches Action::Replay { sha } && sha@ == text_or(t.sha, Seq::empty()),
        Stage::Pushing => a matches Action::Push { branch } && branch@ == t.branch@,
        Stage::Publishing => a matches Action::OpenProposal { branch, sha } && branch@ == t.branch@
            && sha@ == text_or(t.sha, Seq::empty()),
        Stage::Reporting => a matches Action::OpenFailureReport { number, reason } && number
            == t.number && reason@ == match e {
            Event::Failed { reason: r } => if t.stage == Stage::Start {
                missing_sha_reason()
            } else {
                r@
            },
            Event::Succeeded => missing_sha_reason(),
        },
        Stage::Resetting => a is Reset,
        Stage::Done => a is Next,
        Stage::Aborted => a is AbortRun,
        Stage::Start => false,
    }
}

impl RecordTask {
    /// The work on record `number`, whose merge artifact is `sha`, on the isolated
    /// branch `branch`.
    pub fn new(number: u64, sha: Option<String>, branch: String) -> (r: RecordTask)
        ensures
            r.number == number,
            r.sha == sha,
            r.branch == branch,
            r.stage == Stage::Start,
    {
        RecordTask { number, sha, branch, stage: Stage::Start }
    }

    /// Moves the work on a record on by what came of the last action, and says what to
    /// do next. A failure before the proposal is reported once; failures of the
    /// proposal or the report itself are not; a failed reset aborts the run.
    pub fn step(&mut self, event: Event) -> (a: Action)
        ensures
            final(self).number == old(self).number,
            final(self).sha == old(self).sha,
            final(self).branch == old(self).branch,
            final(self).stage == next_stage(old(self).stage, old(self).sha is Some, event is Succeeded),
            action_ok(a, *old(self), final(self).stage, event),
    {
        let succeeded = match &event {
            Event::Succeeded => true,
            Event::Failed { .. } => false,
        };
        let has_sha = self.sha.is_some();
        match self.stage {
            Stage::Start => {
                if has_sha {
                    self.stage = Stage::Branching;
                    Action::CreateBranch { name: self.branch.clone() }
                } else {
                    self.stage = Stage::Reporting;
                    Action::OpenFailureReport {
                        number: self.number,
                        reason: String::from_str("No merge commit SHA."),
                    }
                }
            },
            Stage::Branching | Stage::Replaying | Stage::Pushing => {
                if succeeded {
                    let stage = self.stage;
                    if stage == Stage::Branching {
                        self.stage = Stage::Replaying;
                        Action::Replay { sha: self.artifact() }
                    } else if stage == Stage::Replaying {
                        self.stage = Stage::Pushing;
                        Action::Push { branch: self.branch.clone() }
                    } else {
                        self.stage = Stage::Publishing;
                        Action::OpenProposal { branch: self.branch.clone(), sha: self.artifact() }
                    }
                } else {
                    self.stage = Stage::Reporting;
                    let reason = match event {
                        Event::Failed { reason } => reason,
                        Event::Succeeded => String::new(),
                    };
                    Action::OpenFailureReport { number: self.number, reason }
                }
            },
            Stage::Publishing | Stage::Reporting => {
                self.stage = Stage::Resetting;
                Action::Reset
            },
            Stage::Resetting => {
                if succeeded {
                    self.stage = Stage::Done;
                    Action::Next
                } else {
                    self.stage = Stage::Aborted;
                    Action::AbortRun
                }
            },
            Stage::Done => Action::Next,
            Stage::Aborted => Action::AbortRun,
        }
    }

    fn artifact(&self) -> (s: String)
        ensures
            s@ == text_or(self.sha, Seq::empty()),
    {
        match &self.sha {
            Some(x) => x.clone(),
            None => String::new(),
        }
    }
}

} // verus!

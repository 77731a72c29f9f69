use chrono::{Datelike, NaiveDate, NaiveTime, Timelike};
use simple_mirror::config::{AppConfig, Checkpoint};
use simple_mirror::filter::select_eligible;
use simple_mirror::pipeline::{
    checkpoint_after_run, gather, plan_run, replay_event, replay_outcome, Action, Event,
    RecordTask, ReplayOutcome, RunError, Stage,
};
use simple_mirror::record::{ChangeRecord, UserRef};
use simple_mirror::source::{
    dedup_by_number, dedup_keeping_order, page_ranges, page_step, PageEvent, PageStep,
};
use simple_mirror::time::{Instant, TimeOfDay};

fn day(y: i32, m: u32, d: u32) -> i32 {
    NaiveDate::from_ymd_opt(y, m, d).unwrap().num_days_from_ce()
}

fn midnight(y: i32, m: u32, d: u32) -> Instant {
    Instant { day: day(y, m, d), secs: 0, nanos: 0 }
}

fn user(login: &str) -> UserRef {
    UserRef {
        login: login.to_string(),
        html_url: format!("https://github.com/{}", login),
        avatar_url: format!("https://avatars.example/{}", login),
    }
}

fn merged(number: u64, at: Instant, labels: &[&str]) -> ChangeRecord {
    let mut r = ChangeRecord::bare(number);
    r.merged_at = Some(at);
    r.user = Some(user("someone"));
    r.labels = Some(labels.iter().map(|l| l.to_string()).collect());
    r.merge_commit_sha = Some(format!("sha{}", number));
    r
}

fn numbers(records: &[ChangeRecord]) -> Vec<u64> {
    records.iter().map(|r| r.number).collect()
}

#[test]
fn dedup_keeps_each_number_once() {
    let input = vec![
        merged(5, midnight(2024, 1, 2), &[]),
        merged(3, midnight(2024, 1, 3), &[]),
        merged(5, midnight(2024, 1, 4), &["x"]),
        merged(7, midnight(2024, 1, 5), &[]),
        merged(3, midnight(2024, 1, 6), &[]),
    ];
    let out = dedup_by_number(input);
    assert_eq!(numbers(&out), vec![3, 5, 7]);
    // The first record of each number is the one kept.
    assert_eq!(out[0].merged_at, Some(midnight(2024, 1, 3)));
    assert_eq!(out[1].merged_at, Some(midnight(2024, 1, 2)));
}

#[test]
fn gather_merges_overlapping_pages() {
    let first = vec![merged(10, midnight(2024, 1, 2), &[]), merged(9, midnight(2024, 1, 2), &[])];
    let later = vec![
        vec![merged(9, midnight(2024, 1, 2), &[]), merged(8, midnight(2024, 1, 2), &[])],
        vec![merged(8, midnight(2024, 1, 2), &[]), merged(7, midnight(2024, 1, 2), &[])],
    ];
    let out = gather(Some(first), later).unwrap();
    assert_eq!(numbers(&out), vec![7, 8, 9, 10]);
}

#[test]
fn filter_sorted_and_after_cutoff() {
    let cutoff = midnight(2024, 1, 1);
    let input = vec![
        merged(4, midnight(2024, 1, 5), &[]),
        merged(1, midnight(2023, 12, 31), &[]),
        merged(3, midnight(2024, 1, 2), &[]),
        merged(2, midnight(2024, 1, 2), &[]),
        merged(6, Instant { day: day(2024, 1, 1), secs: 0, nanos: 0 }, &[]),
    ];
    let out = select_eligible(input, &cutoff, &vec![], &vec![]);
    assert_eq!(numbers(&out), vec![6, 2, 3, 4]);
    for pair in out.windows(2) {
        assert!(!pair[1].merged_at.unwrap().is_before(&pair[0].merged_at.unwrap()));
    }
    for r in &out {
        assert!(!r.merged_at.unwrap().is_before(&cutoff));
    }
}

#[test]
fn filter_keeps_unknown_authors_and_missing_label_lists() {
    let cutoff = midnight(2024, 1, 1);
    let mut unmerged = merged(1, midnight(2024, 1, 2), &[]);
    unmerged.merged_at = None;
    let mut bot = merged(2, midnight(2024, 1, 2), &[]);
    bot.user = Some(user("github-actions[bot]"));
    let mut anonymous = merged(3, midnight(2024, 1, 2), &[]);
    anonymous.user = None;
    let mut unlabelled = merged(4, midnight(2024, 1, 2), &[]);
    unlabelled.labels = None;
    let kept = merged(5, midnight(2024, 1, 2), &["docs"]);
    let skipped = merged(6, midnight(2024, 1, 2), &["docs", "skip"]);
    let input = vec![unmerged, bot, anonymous, unlabelled, kept, skipped];
    let out = select_eligible(
        input,
        &cutoff,
        &vec!["github-actions[bot]".to_string()],
        &vec!["skip".to_string()],
    );
    assert_eq!(numbers(&out), vec![3, 4, 5]);
}

#[test]
fn scenario_cutoff_three_records() {
    let mut config = AppConfig::default();
    config.date_from = day(2024, 1, 1);
    config.time_offset = Some(TimeOfDay { secs: 0, nanos: 0 });
    config.ignored_labels = vec!["No cherry-pick".to_string()];
    let input = vec![
        merged(1, midnight(2023, 12, 31), &[]),
        merged(2, midnight(2024, 1, 2), &[]),
        merged(3, midnight(2024, 1, 3), &["No cherry-pick"]),
        merged(4, midnight(2024, 1, 3), &["Feature"]),
    ];
    let out = plan_run(&config, input);
    assert_eq!(numbers(&out), vec![2, 4]);
}

#[test]
fn rerun_after_advance_mirrors_nothing() {
    let mut config = AppConfig::default();
    config.date_from = day(2024, 1, 1);
    let remote = || {
        vec![
            merged(1, midnight(2024, 1, 2), &[]),
            merged(2, midnight(2024, 1, 3), &[]),
        ]
    };
    let first = plan_run(&config, remote());
    assert_eq!(numbers(&first), vec![1, 2]);
    let started = Instant { day: day(2024, 1, 4), secs: 3600, nanos: 5 };
    config.advance_checkpoint(started);
    let second = plan_run(&config, remote());
    assert!(second.is_empty());
}

#[test]
fn scenario_conflict_for_42() {
    let before = Checkpoint { date_from: day(2024, 1, 1), time_offset: None };
    let started = Instant { day: day(2024, 1, 10), secs: 120, nanos: 0 };
    let mut task = RecordTask::new(42, Some("abc123".to_string()), "o_n_42_2024-01-10".to_string());
    let mut actions = Vec::new();
    actions.push(task.step(Event::Succeeded));
    actions.push(task.step(Event::Succeeded));
    let outcome = ReplayOutcome::Conflict { reason: "conflict in a.txt".to_string() };
    actions.push(task.step(replay_event(outcome)));
    actions.push(task.step(Event::Succeeded));
    actions.push(task.step(Event::Succeeded));
    let reports: Vec<&Action> =
        actions.iter().filter(|a| matches!(a, Action::OpenFailureReport { .. })).collect();
    assert_eq!(reports.len(), 1);
    match reports[0] {
        Action::OpenFailureReport { number, reason } => {
            assert_eq!(*number, 42);
            assert_eq!(reason, "conflict in a.txt");
        }
        _ => unreachable!(),
    }
    assert!(!actions.iter().any(|a| matches!(a, Action::OpenProposal { .. })));
    assert!(matches!(actions[3], Action::Reset));
    assert!(matches!(actions[4], Action::Next));
    assert_eq!(task.stage, Stage::Done);
    let after = checkpoint_after_run(before, started, true);
    assert_eq!(after.as_of(), started);
    assert!(midnight(2024, 1, 5).is_before(&after.as_of()));
}

#[test]
fn scenario_first_page_fails() {
    let before = Checkpoint {
        date_from: day(2024, 1, 1),
        time_offset: Some(TimeOfDay { secs: 10, nanos: 0 }),
    };
    let later = vec![vec![merged(1, midnight(2024, 1, 2), &[])]];
    let gathered = gather(None, later);
    assert_eq!(gathered.err(), Some(RunError::SourceUnavailable));
    let started = Instant { day: day(2024, 1, 10), secs: 0, nanos: 0 };
    let after = checkpoint_after_run(before, started, false);
    assert_eq!(after, before);
}

#[test]
fn successful_record_opens_one_proposal() {
    let mut task = RecordTask::new(7, Some("beef".to_string()), "b".to_string());
    match task.step(Event::Succeeded) {
        Action::CreateBranch { name } => assert_eq!(name, "b"),
        _ => panic!("expected a branch"),
    }
    match task.step(Event::Succeeded) {
        Action::Replay { sha } => assert_eq!(sha, "beef"),
        _ => panic!("expected a replay"),
    }
    let replayed = ReplayOutcome::Replayed { commit_id: "c0ffee".to_string() };
    match task.step(replay_event(replayed)) {
        Action::Push { branch } => assert_eq!(branch, "b"),
        _ => panic!("expected a push"),
    }
    match task.step(Event::Succeeded) {
        Action::OpenProposal { branch, sha } => {
            assert_eq!(branch, "b");
            assert_eq!(sha, "beef");
        }
        _ => panic!("expected a proposal"),
    }
    // A failed proposal is logged only: the record still moves on to the reset.
    assert!(matches!(task.step(Event::Failed { reason: "denied".to_string() }), Action::Reset));
    assert!(matches!(task.step(Event::Succeeded), Action::Next));
}

#[test]
fn record_without_artifact_is_reported() {
    let mut task = RecordTask::new(9, None, "b".to_string());
    match task.step(Event::Succeeded) {
        Action::OpenFailureReport { number, reason } => {
            assert_eq!(number, 9);
            assert_eq!(reason, "No merge commit SHA.");
        }
        _ => panic!("expected a report"),
    }
    assert_eq!(task.stage, Stage::Reporting);
}

#[test]
fn rejected_push_is_reported_and_failed_reset_aborts() {
    let mut task = RecordTask::new(3, Some("s".to_string()), "b".to_string());
    task.step(Event::Succeeded);
    task.step(Event::Succeeded);
    task.step(Event::Succeeded);
    match task.step(Event::Failed { reason: "rejected".to_string() }) {
        Action::OpenFailureReport { number, reason } => {
            assert_eq!(number, 3);
            assert_eq!(reason, "rejected");
        }
        _ => panic!("expected a report"),
    }
    assert!(matches!(task.step(Event::Succeeded), Action::Reset));
    assert!(matches!(task.step(Event::Failed { reason: "stuck".to_string() }), Action::AbortRun));
    assert_eq!(task.stage, Stage::Aborted);
}

#[test]
fn transport_failure_is_reported() {
    let e = replay_event(ReplayOutcome::TransportFailure { reason: "timeout".to_string() });
    match e {
        Event::Failed { reason } => assert_eq!(reason, "timeout"),
        Event::Succeeded => panic!("expected a failure"),
    }
}

#[test]
fn page_ranges_cover_each_page_once() {
    assert_eq!(page_ranges(10, None, None), vec![(2, 7), (8, 10)]);
    assert_eq!(page_ranges(10, Some(4), None), vec![(2, 4)]);
    assert_eq!(page_ranges(1, None, None), vec![]);
    assert_eq!(page_ranges(10, Some(0), None), vec![]);
    assert_eq!(page_ranges(3, None, Some(4)), vec![(2, 2), (3, 3)]);
    assert_eq!(page_ranges(10, None, Some(0)), vec![(2, 10)]);
    for total in 0..40u32 {
        for workers in 1..6u32 {
            let ranges = page_ranges(total, None, Some(workers));
            let mut pages = Vec::new();
            for (a, b) in ranges {
                pages.extend(a..=b);
            }
            let expected: Vec<u32> = (2..=total).collect();
            assert_eq!(pages, expected);
        }
    }
}

#[test]
fn checkpoint_persisted_and_reloaded_is_equal() {
    let mut config = AppConfig::default();
    config.advance_checkpoint(Instant { day: day(2024, 3, 9), secs: 45_296, nanos: 123_456_789 });
    let before = config.checkpoint();
    let date = NaiveDate::from_num_days_from_ce_opt(before.date_from).unwrap();
    let t = before.time_offset.unwrap();
    let time = NaiveTime::from_num_seconds_from_midnight_opt(t.secs, t.nanos).unwrap();
    let text = serde_yaml::to_string(&(date, Some(time))).unwrap();
    let (date2, time2): (NaiveDate, Option<NaiveTime>) = serde_yaml::from_str(&text).unwrap();
    let time2 = time2.unwrap();
    let after = Checkpoint {
        date_from: date2.num_days_from_ce(),
        time_offset: Some(TimeOfDay { secs: time2.num_seconds_from_midnight(), nanos: time2.nanosecond() }),
    };
    assert_eq!(after, before);
}

#[test]
fn replay_failures_are_told_apart() {
    match replay_outcome(Err("timed out".to_string()), Err(String::new())) {
        ReplayOutcome::TransportFailure { reason } => assert_eq!(reason, "timed out"),
        _ => panic!("expected a transport failure"),
    }
    match replay_outcome(Ok(()), Err("conflict".to_string())) {
        ReplayOutcome::Conflict { reason } => assert_eq!(reason, "conflict"),
        _ => panic!("expected a conflict"),
    }
    match replay_outcome(Ok(()), Ok("c0ffee".to_string())) {
        ReplayOutcome::Replayed { commit_id } => assert_eq!(commit_id, "c0ffee"),
        _ => panic!("expected a replay"),
    }
}

#[test]
fn explicit_list_keeps_its_order() {
    let input = vec![
        merged(5, midnight(2024, 1, 2), &[]),
        merged(3, midnight(2024, 1, 3), &[]),
        merged(5, midnight(2024, 1, 4), &["x"]),
        merged(9, midnight(2024, 1, 5), &[]),
    ];
    let out = dedup_keeping_order(input);
    assert_eq!(numbers(&out), vec![5, 3, 9]);
    assert_eq!(out[0].merged_at, Some(midnight(2024, 1, 2)));
    assert!(dedup_keeping_order(vec![]).is_empty());
}

#[test]
fn page_reading_stops_at_range_end_listing_end_or_failure() {
    assert_eq!(page_step(2, 5, PageEvent::Read { has_next: true }), PageStep::Fetch { page: 3 });
    assert_eq!(page_step(5, 5, PageEvent::Read { has_next: true }), PageStep::Stop);
    assert_eq!(page_step(2, 5, PageEvent::Read { has_next: false }), PageStep::Stop);
    assert_eq!(page_step(2, 5, PageEvent::Failed), PageStep::Stop);
    assert_eq!(page_step(u32::MAX, u32::MAX, PageEvent::Read { has_next: true }), PageStep::Stop);
}

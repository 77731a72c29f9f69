use chrono::{Datelike, NaiveDate};
use simple_mirror::config::{AppConfig, DEFAULT_DATE_FROM};
use simple_mirror::config::RepoInfo;
use simple_mirror::naming::{branch_name, branch_name_on, commit_message, push_refspec, url_from_name};
use simple_mirror::pipeline::{sync_step, RunError, SyncStep};
use simple_mirror::pr_template::{label_list, quote_lines, PrTemplate};
use simple_mirror::publish::{issue_body, issue_title, proposal_head, proposal_title};
use simple_mirror::record::{ChangeRecord, LineStats, MergeStats, RepoRef, UserRef};
use simple_mirror::schedule::{schedule_plan, SchedulePlan};
use simple_mirror::text::decimal_digits;
use simple_mirror::time::{Instant, FIRST_DAY, LAST_DAY};
use std::collections::HashSet;

fn day(y: i32, m: u32, d: u32) -> i32 {
    NaiveDate::from_ymd_opt(y, m, d).unwrap().num_days_from_ce()
}

fn user(login: &str) -> UserRef {
    UserRef {
        login: login.to_string(),
        html_url: format!("https://github.com/{}", login),
        avatar_url: format!("https://avatars.example/{}", login),
    }
}

#[test]
fn decimal_digits_of_numbers() {
    let s = |n: u64| decimal_digits(n).into_iter().collect::<String>();
    assert_eq!(s(0), "0");
    assert_eq!(s(7), "7");
    assert_eq!(s(42), "42");
    assert_eq!(s(1000), "1000");
    assert_eq!(s(u64::MAX), u64::MAX.to_string());
}

#[test]
fn branch_name_joins_its_parts() {
    assert_eq!(branch_name("space-wizards", "space-station-14", 42, "2024-01-02"), "space-wizards_space-station-14_42_2024-01-02");
}

#[test]
fn branch_name_on_writes_the_calendar_date() {
    let b = branch_name_on("o", "n", 7, day(2024, 1, 2)).unwrap();
    assert_eq!(b, "o_n_7_2024-01-02");
}

#[test]
fn ten_thousand_branch_names_are_distinct() {
    let today = day(2024, 6, 1);
    let mut seen = HashSet::new();
    for n in 0..10_000u64 {
        let b = branch_name_on("space-wizards", "space-station-14", n * 7 + 1, today).unwrap();
        assert!(seen.insert(b));
    }
    assert_eq!(seen.len(), 10_000);
}

#[test]
fn repo_path_names_both_repositories() {
    let config = AppConfig::default();
    assert_eq!(config.get_repo_path(), "space-wizards_space-station-14_into_Simple-Station_Parkstation");
}

#[test]
fn default_settings() {
    let config = AppConfig::default();
    assert_eq!(DEFAULT_DATE_FROM, day(2006, 6, 17));
    assert_eq!(config.date_from, DEFAULT_DATE_FROM);
    assert_eq!(config.days_between, 7);
    assert_eq!(config.clone_repo.branch, "master");
    assert_eq!(config.into_repo.owner, "Simple-Station");
    assert!(config.time_offset.is_none());
    let start = config.date_from_with_time();
    assert_eq!(start, Instant { day: DEFAULT_DATE_FROM, secs: 0, nanos: 0 });
}

#[test]
fn quote_lines_quotes_every_line() {
    assert_eq!(quote_lines(&"a\nb".to_string()), "> a\n> b\n");
    assert_eq!(quote_lines(&String::new()), "> \n");
    assert_eq!(quote_lines(&"x\n".to_string()), "> x\n> \n");
}

#[test]
fn label_list_puts_each_label_on_a_line() {
    assert_eq!(label_list(&vec!["A".to_string(), "B c".to_string()]), "- A\n- B c\n");
    assert_eq!(label_list(&vec![]), "");
}

fn sample_record() -> ChangeRecord {
    let mut r = ChangeRecord::bare(1234);
    r.title = Some("Fix the thing".to_string());
    r.body = Some("Line one\nLine two".to_string());
    r.labels = Some(vec!["Bug".to_string(), "Size: S".to_string()]);
    r.merge_commit_sha = Some("abcdef".to_string());
    r.html_url = Some("https://github.com/o/n/pull/1234".to_string());
    r.user = Some(user("alice"));
    r.created_at = Some(Instant { day: day(2024, 1, 2), secs: 3723, nanos: 0 });
    r.merged_at = Some(Instant { day: day(2024, 1, 3), secs: 0, nanos: 0 });
    r.base_repo = Some(RepoRef {
        name: "n".to_string(),
        owner: Some(user("o")),
        html_url: Some("https://github.com/o/n".to_string()),
        license: Some("MIT".to_string()),
    });
    r
}

#[test]
fn template_of_a_record() {
    let stats = MergeStats {
        committer: Some(user("web-flow")),
        changed_files: Some(3),
        stats: Some(LineStats { additions: Some(10), deletions: None }),
    };
    let t = PrTemplate::new(&sample_record(), Some(stats));
    assert_eq!(t.number, "1234");
    assert_eq!(t.title, "Fix the thing");
    assert_eq!(t.labels, vec!["Bug".to_string(), "Size: S".to_string()]);
    assert_eq!(t.open_user_name, "alice");
    assert_eq!(t.owner_name, "o");
    assert_eq!(t.license, "MIT");
    assert_eq!(t.merge_user_name, "web-flow");
    assert_eq!(t.changed_files, "3");
    assert_eq!(t.additions, "10");
    assert_eq!(t.deletions, "0");
    assert_eq!(t.open_date, "2024-01-02 01:02:03 UTC");
    assert_eq!(t.merge_date, "2024-01-03 00:00:00 UTC");
}

#[test]
fn template_of_an_empty_record() {
    let t = PrTemplate::new(&ChangeRecord::bare(5), None);
    assert_eq!(t.number, "5");
    assert_eq!(t.title, "");
    assert_eq!(t.open_user_name, "Unknown");
    assert_eq!(t.merge_user_name, "Unknown");
    assert_eq!(t.open_date, "");
    assert_eq!(t.additions, "");
    let d = PrTemplate::default();
    assert_eq!(d.number, "???");
}

#[test]
fn markdown_of_a_template() {
    let t = PrTemplate::new(&sample_record(), None);
    let expected = "## Mirror of  PR #1234: [Fix the thing](https://github.com/o/n/pull/1234) from <img src=\"https://avatars.example/o\" alt=\"o\" width=\"22\"/> [o](https://github.com/o)/[n](https://github.com/o/n)\n\n###### `abcdef`\n\nPR opened by <img src=\"https://avatars.example/alice\" width=\"16\"/><a href=\"https://github.com/alice\"> alice</a> at 2024-01-02 01:02:03 UTC - merged at 2024-01-03 00:00:00 UTC\n\nMerge committed by <img src=\"\" width=\"16\"/><a href=\"\"> Unknown</a>\n\n---\n\nPR changed  files with  additions and  deletions.\n\nThe PR had the following labels:\n- Bug\n- Size: S\n\n\n---\n\n<details open=\"true\"><summary><h1>Original Body</h1></summary>\n\n> Line one\n> Line two\n\n\n</details>";
    assert_eq!(t.to_markdown(), expected);
}

#[test]
fn proposal_and_report_texts() {
    assert_eq!(proposal_title(&Some("Fix".to_string())), "Mirror: Fix");
    assert_eq!(proposal_title(&None), "Mirror: ");
    assert_eq!(proposal_head("bot", "o_n_1_2024-01-02"), "bot:o_n_1_2024-01-02");
    assert_eq!(issue_title(42, &Some("Fix".to_string())), "Failed to cherry-pick PR #42: Fix");
    assert_eq!(issue_body("conflict", "BODY"), "## Failed to cherry-pick PR: conflict\nPR body below\n\nBODY");
}

#[test]
fn schedule_decisions() {
    let start = Instant { day: day(2024, 1, 10), secs: 5, nanos: 0 };
    let earlier = Instant { day: day(2024, 1, 1), secs: 0, nanos: 0 };
    assert_eq!(schedule_plan(0, start, earlier), Some(SchedulePlan::RunOnce));
    assert_eq!(schedule_plan(7, earlier, start), Some(SchedulePlan::Recurring));
    assert_eq!(
        schedule_plan(7, start, earlier),
        Some(SchedulePlan::Delayed { first_run: Instant { day: day(2024, 1, 17), secs: 5, nanos: 0 } })
    );
    let far = Instant { day: i32::MAX - 1, secs: 0, nanos: 0 };
    assert_eq!(schedule_plan(7, far, earlier), None);
}

#[test]
fn repository_texts() {
    assert_eq!(url_from_name("o", "n"), "https://github.com/o/n");
    assert_eq!(push_refspec("b_1"), "refs/heads/b_1:refs/heads/b_1");
    let from = RepoInfo { owner: "o".to_string(), name: "n".to_string(), branch: "master".to_string() };
    assert_eq!(commit_message("abc", 42, &from), "Cherry-picked commit abc of PR #42 from o/n/master");
}

#[test]
fn sync_needs_a_fast_forward() {
    assert_eq!(sync_step(true, false), Ok(SyncStep::UpToDate));
    assert_eq!(sync_step(false, true), Ok(SyncStep::FastForward));
    assert_eq!(sync_step(false, false), Err(RunError::SyncConflict));
}

#[test]
fn calendar_bounds_are_chronos() {
    assert_eq!(FIRST_DAY, NaiveDate::MIN.num_days_from_ce());
    assert_eq!(LAST_DAY, NaiveDate::MAX.num_days_from_ce());
    assert!(branch_name_on("o", "n", 1, FIRST_DAY).is_some());
    assert!(branch_name_on("o", "n", 1, LAST_DAY).is_some());
    assert!(branch_name_on("o", "n", 1, FIRST_DAY - 1).is_none());
    assert!(branch_name_on("o", "n", 1, LAST_DAY + 1).is_none());
}

#[test]
fn dates_past_year_9999_are_written() {
    let mut r = ChangeRecord::bare(1);
    r.merged_at = Some(Instant { day: day(12024, 1, 3), secs: 0, nanos: 0 });
    r.created_at = Some(Instant { day: day(2024, 1, 3), secs: 59, nanos: 1_500_000_000 });
    let t = PrTemplate::new(&r, None);
    assert_eq!(t.merge_date, "+12024-01-03 00:00:00 UTC");
    assert_eq!(t.open_date, "2024-01-03 00:00:60.500 UTC");
    let mut bad = ChangeRecord::bare(2);
    bad.created_at = Some(Instant { day: day(2024, 1, 3), secs: 58, nanos: 1_500_000_000 });
    assert_eq!(PrTemplate::new(&bad, None).open_date, "");
}

use vstd::prelude::*;
use vstd::string::StringExecFns;
use crate::time::{Instant, TimeOfDay};

verus! {

/// A repository on the hosting service and the branch that is watched or targeted.
#[derive(Clone, Debug)]
pub struct RepoInfo {
    pub owner: String,
    pub name: String,
    pub branch: String,
}

/// The cursor between mirrored and not yet mirrored changes: a day and, where it is
/// known, the time of day on it.
#[derive(Clone, Copy, Debug, PartialEq, Eq, Structural)]
pub struct Checkpoint {
    pub date_from: i32,
    pub time_offset: Option<TimeOfDay>,
}

/// The instant a checkpoint stands for: midnight of its day where no time is set.
pub open spec fn as_of(c: Checkpoint) -> Instant {
    match c.time_offset {
        Some(t) => Instant { day: c.date_from, secs: t.secs, nanos: t.nanos },
        None => Instant { day: c.date_from, secs: 0, nanos: 0 },
    }
}

/// The checkpoint of a run that began at `started` and completed.
pub open spec fn advanced(started: Instant) -> Checkpoint {
    Checkpoint {
        date_from: started.day,
        time_offset: Some(TimeOfDay { secs: started.secs, nanos: started.nanos }),
    }
}

impl Checkpoint {
    /// The instant this checkpoint stands for.
    pub fn as_of(&self) -> (r: Instant)
        ensures
            r == as_of(*self),
    {
        match self.time_offset {
            Some(t) => Instant::at(self.date_from, t),
            None => Instant::at(self.date_from, TimeOfDay::midnight()),
        }
    }

    /// The checkpoint after a completed run that began at `started`: the instant the
    /// run began, so that what was merged during the run is picked up next time.
    pub fn advance(started: Instant) -> (r: Checkpoint)
        ensures
            r == advanced(started),
            as_of(r) == started,
    {
        Checkpoint { date_from: started.day, time_offset: Some(started.time_of_day()) }
    }
}

/// The settings and the persisted state of the mirror.
#[derive(Clone, Debug)]
pub struct AppConfig {
    pub org_token: String,
    pub bot_token: String,
    pub clone_repo: RepoInfo,
    pub into_repo: RepoInfo,
    pub date_from: i32,
    pub days_between: u32,
    pub pr_labels: Vec<String>,
    pub issue_labels: Vec<String>,
    pub ignored_labels: Vec<String>,
    pub ignored_users: Vec<String>,
    pub prs_to_pull: Vec<u64>,
    pub time_offset: Option<TimeOfDay>,
    pub hard_cap: Option<u32>,
    pub max_async: Option<u32>,
    pub debug: Option<bool>,
    pub no_write: Option<bool>,
}

/// The day number of 2006-06-17, counted from 0001-01-01 as day 1.
pub const DEFAULT_DATE_FROM: i32 = 732479;

/// The directory name of the working copy: both repositories' owners and names.
pub open spec fn repo_path(c: AppConfig) -> Seq<char> {
    c.clone_repo.owner@ + "_"@ + c.clone_repo.name@ + "_into_"@ + c.into_repo.owner@ + "_"@
        + c.into_repo.name@
}

impl AppConfig {
    /// The checkpoint that the settings hold.
    pub open spec fn checkpoint_spec(self) -> Checkpoint {
        Checkpoint { date_from: self.date_from, time_offset: self.time_offset }
    }

    /// The checkpoint that the settings hold.
    pub fn checkpoint(&self) -> (r: Checkpoint)
        ensures
            r == self.checkpoint_spec(),
    {
        Checkpoint { date_from: self.date_from, time_offset: self.time_offset }
    }

    /// The cutoff instant: changes merged before it are not mirrored.
    pub fn date_from_with_time(&self) -> (r: Instant)
        ensures
            r == as_of(self.checkpoint_spec()),
    {
        self.checkpoint().as_of()
    }

    /// Puts the checkpoint `c` in the settings.
    pub fn set_checkpoint(&mut self, c: Checkpoint)
        ensures
            final(self).checkpoint_spec() == c,
            final(self).days_between == old(self).days_between,
            final(self).clone_repo == old(self).clone_repo,
            final(self).into_repo == old(self).into_repo,
            final(self).org_token == old(self).org_token,
            final(self).bot_token == old(self).bot_token,
            final(self).pr_labels == old(self).pr_labels,
            final(self).issue_labels == old(self).issue_labels,
            final(self).ignored_labels == old(self).ignored_labels,
            final(self).ignored_users == old(self).ignored_users,
            final(self).prs_to_pull == old(self).prs_to_pull,
            final(self).hard_cap == old(self).hard_cap,
            final(self).max_async == old(self).max_async,
            final(self).debug == old(self).debug,
            final(self).no_write == old(self).no_write,
    {
        self.date_from = c.date_from;
        self.time_offset = c.time_offset;
    }

    /// Records that a run which began at `started` has completed.
    pub fn advance_checkpoint(&mut self, started: Instant)
        ensures
            final(self).checkpoint_spec() == advanced(started),
            as_of(final(self).checkpoint_spec()) == started,
            final(self).days_between == old(self).days_between,
            final(self).clone_repo == old(self).clone_repo,
            final(self).into_repo == old(self).into_repo,
            final(self).org_token == old(self).org_token,
            final(self).bot_token == old(self).bot_token,
            final(self).pr_labels == old(self).pr_labels,
            final(self).issue_labels == old(self).issue_labels,
            final(self).ignored_labels == old(self).ignored_labels,
            final(self).ignored_users == old(self).ignored_users,
            final(self).prs_to_pull == old(self).prs_to_pull,
            final(self).hard_cap == old(self).hard_cap,
            final(self).max_async == old(self).max_async,
            final(self).debug == old(self).debug,
            final(self).no_write == old(self).no_write,
    {
        let next = Checkpoint::advance(started);
        self.date_from = next.date_from;
        self.time_offset = next.time_offset;
    }

    /// The directory name of the working copy.
    pub fn get_repo_path(&self) -> (r: String)
        ensures
            r@ == repo_path(*self),
    {
        let mut path = self.clone_repo.owner.clone();
        path.append("_");
        path.append(self.clone_repo.name.as_str());
        path.append("_into_");
        path.append(self.into_repo.owner.as_str());
        path.append("_");
        path.append(self.into_repo.name.as_str());
        path
    }
}

impl Default for AppConfig {
    fn default() -> (r: AppConfig)
        ensures
            r.org_token@ == Seq::<char>::empty() && r.bot_token@ == Seq::<char>::empty(),
            r.clone_repo.owner@ == "space-wizards"@,
            r.clone_repo.name@ == "space-station-14"@,
            r.clone_repo.branch@ == "master"@,
            r.into_repo.owner@ == "Simple-Station"@,
            r.into_repo.name@ == "Parkstation"@,
            r.into_repo.branch@ == "master"@,
            r.date_from == DEFAULT_DATE_FROM,
            r.days_between == 7,
            r.pr_labels@.len() == 0 && r.issue_labels@.len() == 0,
            r.ignored_labels@.len() == 0 && r.ignored_users@.len() == 0,
            r.prs_to_pull@.len() == 0,
            r.time_offset is None && r.hard_cap is None && r.max_async is None,
            r.debug is None && r.no_write is None,
    {
        AppConfig {
            org_token: String::new(),
            bot_token: String::new(),
            clone_repo: RepoInfo {
                owner: String::from_str("space-wizards"),
                name: String::from_str("space-station-14"),
                branch: String::from_str("master"),
            },
            into_repo: RepoInfo {
                owner: String::from_str("Simple-Station"),
                name: String::from_str("Parkstation"),
                branch: String::from_str("master"),
            },
            date_from: DEFAULT_DATE_FROM,
            days_between: 7,
            pr_labels: Vec::new(),
            issue_labels: Vec::new(),
            ignored_labels: Vec::new(),
            ignored_users: Vec::new(),
            prs_to_pull: Vec::new(),
            time_offset: None,
            hard_cap: None,
            max_async: None,
            debug: None,
            no_write: None,
        }
    }
}

} // verus!

use vstd::prelude::*;
use crate::time::Instant;

verus! {

/// An account on the hosting service: its login and the links to its page and avatar.
#[derive(Clone, Debug)]
pub struct UserRef {
    pub login: String,
    pub html_url: String,
    pub avatar_url: String,
}

/// The repository a change was merged into.
#[derive(Clone, Debug)]
pub struct RepoRef {
    pub name: String,
    pub owner: Option<UserRef>,
    pub html_url: Option<String>,
    pub license: Option<String>,
}

/// One merged (or closed) change of the source repository, as the listing reports it.
#[derive(Clone, Debug)]
pub struct ChangeRecord {
    pub number: u64,
    pub title: Option<String>,
    pub body: Option<String>,
    pub labels: Option<Vec<String>>,
    pub merge_commit_sha: Option<String>,
    pub html_url: Option<String>,
    pub diff_url: Option<String>,
    pub commits_url: Option<String>,
    pub comments_url: Option<String>,
    pub user: Option<UserRef>,
    pub created_at: Option<Instant>,
    pub merged_at: Option<Instant>,
    pub base_repo: Option<RepoRef>,
}

/// The line counts of a merge artifact, where the service reports them.
#[derive(Clone, Copy, Debug)]
pub struct LineStats {
    pub additions: Option<u64>,
    pub deletions: Option<u64>,
}

/// What the merge artifact of a change touched, and who committed it.
#[derive(Clone, Debug)]
pub struct MergeStats {
    pub committer: Option<UserRef>,
    pub changed_files: Option<u64>,
    pub stats: Option<LineStats>,
}

impl ChangeRecord {
    /// A record that holds its number alone.
    pub fn bare(number: u64) -> (r: ChangeRecord)
        ensures
            r.number == number,
            r.title is None && r.body is None && r.labels is None,
            r.merge_commit_sha is None && r.user is None,
            r.created_at is None && r.merged_at is None && r.base_repo is None,
            r.html_url is None && r.diff_url is None,
            r.commits_url is None && r.comments_url is None,
    {
        ChangeRecord {
            number,
            title: None,
            body: None,
            labels: None,
            merge_commit_sha: None,
            html_url: None,
            diff_url: None,
            commits_url: None,
            comments_url: None,
            user: None,
            created_at: None,
            merged_at: None,
            base_repo: None,
        }
    }
}

} // verus!

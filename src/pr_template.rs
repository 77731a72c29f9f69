use vstd::prelude::*;
use vstd::string::StringExecFns;
use crate::record::{ChangeRecord, MergeStats, UserRef};
use crate::text::{bullet_list, chars_of, decimal, decimal_digits, quote_inner, quoted, string_of};
use crate::time::{utc_instant_text, utc_text, writable, Instant};

verus! {

/// The values that the body of a mirrored proposal or a failure report is written from.
#[derive(Clone, Debug)]
pub struct PrTemplate {
    pub title: String,
    pub original_desc: String,
    pub number: String,
    pub labels: Vec<String>,
    pub merge_sha: String,
    pub changed_files: String,
    pub additions: String,
    pub deletions: String,
    pub url_pr: String,
    pub url_diff: String,
    pub url_commits: String,
    pub url_comments: String,
    pub owner_name: String,
    pub owner_link: String,
    pub owner_icon: String,
    pub repo_name: String,
    pub repo_link: String,
    pub license: String,
    pub open_user_name: String,
    pub open_user_link: String,
    pub open_user_icon: String,
    pub merge_user_name: String,
    pub merge_user_link: String,
    pub merge_user_icon: String,
    pub open_date: String,
    pub merge_date: String,
}

/// The views of a list of strings.
pub open spec fn views(v: Seq<String>) -> Seq<Seq<char>> {
    v.map_values(|s: String| s@)
}

/// The text of an optional string, or `d` where it is absent.
pub open spec fn text_or(o: Option<String>, d: Seq<char>) -> Seq<char> {
    match o {
        Some(s) => s@,
        None => d,
    }
}

/// The text of an optional count: its digits, or nothing where it is absent.
pub open spec fn count_text(o: Option<u64>) -> Seq<char> {
    match o {
        Some(n) => decimal(n as nat),
        None => Seq::empty(),
    }
}

/// The text of an optional instant: chrono's writing of it where chrono can write it,
/// nothing where it is absent or out of chrono's range.
pub open spec fn date_field_ok(field: Seq<char>, o: Option<Instant>) -> bool {
    match o {
        Some(i) => if writable(i) {
            field == utc_text(i)
        } else {
            field.len() == 0
        },
        None => field.len() == 0,
    }
}

/// The markdown body of a template.
pub open spec fn markdown(t: PrTemplate) -> Seq<char> {
    "## Mirror of  PR #"@ + t.number@ + ": ["@ + t.title@ + "]("@ + t.url_pr@
        + ") from <img src=\""@ + t.owner_icon@ + "\" alt=\""@ + t.owner_name@
        + "\" width=\"22\"/> ["@ + t.owner_name@ + "]("@ + t.owner_link@ + ")/["@
        + t.repo_name@ + "]("@ + t.repo_link@ + ")\n\n###### `"@ + t.merge_sha@
        + "`\n\nPR opened by <img src=\""@ + t.open_user_icon@
        + "\" width=\"16\"/><a href=\""@ + t.open_user_link@ + "\"> "@ + t.open_user_name@
        + "</a> at "@ + t.open_date@ + " - merged at "@ + t.merge_date@
        + "\n\nMerge committed by <img src=\""@ + t.merge_user_icon@
        + "\" width=\"16\"/><a href=\""@ + t.merge_user_link@ + "\"> "@ + t.merge_user_name@
        + "</a>\n\n---\n\nPR changed "@ + t.changed_files@ + " files with "@ + t.additions@
        + " additions and "@ + t.deletions@
        + " deletions.\n\nThe PR had the following labels:\n"@ + bullet_list(views(t.labels@))
        + "\n\n---\n\n<details open=\"true\"><summary><h1>Original Body</h1></summary>\n\n"@
        + quoted(t.original_desc@) + "\n\n</details>"@
}

/// The template of a record before anything is filled in.
pub open spec fn blank(t: PrTemplate) -> bool {
    &&& t.title@ == Seq::<char>::empty() && t.original_desc@ == Seq::<char>::empty()
    &&& t.number@ == "???"@
    &&& t.labels@ == Seq::<String>::empty()
    &&& t.merge_sha@ == Seq::<char>::empty() && t.changed_files@ == Seq::<char>::empty()
    &&& t.additions@ == Seq::<char>::empty() && t.deletions@ == Seq::<char>::empty()
    &&& t.url_pr@ == Seq::<char>::empty() && t.url_diff@ == Seq::<char>::empty()
    &&& t.url_commits@ == Seq::<char>::empty() && t.url_comments@ == Seq::<char>::empty()
    &&& t.owner_name@ == Seq::<char>::empty() && t.owner_link@ == Seq::<char>::empty() && t.owner_icon@ == Seq::<char>::empty()
    &&& t.repo_name@ == Seq::<char>::empty() && t.repo_link@ == Seq::<char>::empty() && t.license@ == Seq::<char>::empty()
    &&& t.open_user_name@ == "Unknown"@
    &&& t.open_user_link@ == Seq::<char>::empty() && t.open_user_icon@ == Seq::<char>::empty()
    &&& t.merge_user_name@ == "Unknown"@
    &&& t.merge_user_link@ == Seq::<char>::empty() && t.merge_user_icon@ == Seq::<char>::empty()
    &&& t.open_date@ == Seq::<char>::empty() && t.merge_date@ == Seq::<char>::empty()
}

/// The fields of `t` that come from the record `pr`.
pub open spec fn from_record(t: PrTemplate, pr: ChangeRecord) -> bool {
    &&& t.title@ == text_or(pr.title, Seq::empty())
    &&& t.original_desc@ == text_or(pr.body, Seq::empty())
    &&& t.number@ == decimal(pr.number as nat)
    &&& views(t.labels@) == match pr.labels {
        Some(l) => views(l@),
        None => Seq::empty(),
    }
    &&& t.merge_sha@ == text_or(pr.merge_commit_sha, Seq::empty())
    &&& t.url_pr@ == text_or(pr.html_url, Seq::empty())
    &&& t.url_diff@ == text_or(pr.diff_url, Seq::empty())
    &&& t.url_commits@ == text_or(pr.commits_url, Seq::empty())
    &&& t.url_comments@ == text_or(pr.comments_url, Seq::empty())
    &&& match pr.user {
        Some(u) => t.open_user_name@ == u.login@ && t.open_user_link@ == u.html_url@
            && t.open_user_icon@ == u.avatar_url@,
        None => t.open_user_name@ == "Unknown"@ && t.open_user_link@.len() == 0
            && t.open_user_icon@.len() == 0,
    }
    &&& date_field_ok(t.open_date@, pr.created_at)
    &&& date_field_ok(t.merge_date@, pr.merged_at)
    &&& match pr.base_repo {
        Some(repo) => {
            &&& t.repo_name@ == repo.name@
            &&& match repo.owner {
                Some(o) => t.owner_name@ == o.login@ && t.owner_link@ == o.html_url@
                    && t.owner_icon@ == o.avatar_url@,
                None => t.owner_name@.len() == 0 && t.owner_link@.len() == 0
                    && t.owner_icon@.len() == 0,
            }
            &&& t.repo_link@ == text_or(repo.html_url, Seq::empty())
            &&& t.license@ == if repo.html_url is Some {
                text_or(repo.license, Seq::empty())
            } else {
                Seq::empty()
            }
        },
        None => t.repo_name@.len() == 0 && t.owner_name@.len() == 0 && t.owner_link@.len() == 0
            && t.owner_icon@.len() == 0 && t.repo_link@.len() == 0 && t.license@.len() == 0,
    }
}

/// The fields of `t` that come from the merge artifact's statistics.
pub open spec fn from_stats(t: PrTemplate, stats: Option<MergeStats>) -> bool {
    match stats {
        Some(c) => {
            &&& match c.committer {
                Some(u) => t.merge_user_name@ == u.login@ && t.merge_user_link@ == u.html_url@
                    && t.merge_user_icon@ == u.avatar_url@,
                None => t.merge_user_name@ == "Unknown"@ && t.merge_user_link@.len() == 0
                    && t.merge_user_icon@.len() == 0,
            }
            &&& t.changed_files@ == count_text(c.changed_files)
            &&& t.additions@ == match c.stats {
                Some(s) => decimal(s.additions.unwrap_or(0) as nat),
                None => Seq::empty(),
            }
            &&& t.deletions@ == match c.stats {
                Some(s) => decimal(s.deletions.unwrap_or(0) as nat),
                None => Seq::empty(),
            }
        },
        None => t.merge_user_name@ == "Unknown"@ && t.merge_user_link@.len() == 0
            && t.merge_user_icon@.len() == 0 && t.changed_files@.len() == 0
            && t.additions@.len() == 0 && t.deletions@.len() == 0,
    }
}

fn number_text(n: u64) -> (r: String)
    ensures
        r@ == decimal(n as nat),
{
    string_of(&decimal_digits(n))
}

fn text_or_empty(o: &Option<String>) -> (r: String)
    ensures
        r@ == text_or(*o, Seq::empty()),
{
    match o {
        Some(s) => s.clone(),
        None => String::new(),
    }
}

fn user_parts(o: &Option<UserRef>, missing: String) -> (r: (String, String, String))
    ensures
        match *o {
            Some(u) => r.0@ == u.login@ && r.1@ == u.html_url@ && r.2@ == u.avatar_url@,
            None => r.0@ == missing@ && r.1@ == Seq::<char>::empty() && r.2@ == Seq::<char>::empty(),
        },
{
    match o {
        Some(u) => (u.login.clone(), u.html_url.clone(), u.avatar_url.clone()),
        None => (missing, String::new(), String::new()),
    }
}

fn repo_parts(pr: &ChangeRecord) -> (r: (String, String, String, String, String, String))
    ensures
        match pr.base_repo {
            Some(repo) => {
                &&& r.0@ == repo.name@
                &&& match repo.owner {
                    Some(o) => r.1@ == o.login@ && r.2@ == o.html_url@ && r.3@ == o.avatar_url@,
                    None => r.1@.len() == 0 && r.2@.len() == 0 && r.3@.len() == 0,
                }
                &&& r.4@ == text_or(repo.html_url, Seq::empty())
                &&& r.5@ == if repo.html_url is Some {
                    text_or(repo.license, Seq::empty())
                } else {
                    Seq::empty()
                }
            },
            None => r.0@.len() == 0 && r.1@.len() == 0 && r.2@.len() == 0 && r.3@.len() == 0
                && r.4@.len() == 0 && r.5@.len() == 0,
        },
{
    match &pr.base_repo {
        Some(repo) => {
            let (owner_name, owner_link, owner_icon) = user_parts(&repo.owner, String::new());
            let license = if repo.html_url.is_some() {
                text_or_empty(&repo.license)
            } else {
                String::new()
            };
            (repo.name.clone(), owner_name, owner_link, owner_icon, text_or_empty(&repo.html_url), license)
        },
        None => (String::new(), String::new(), String::new(), String::new(), String::new(), String::new()),
    }
}

fn stats_parts(stats: Option<MergeStats>) -> (r: (String, String, String, String, String, String))
    ensures
        match stats {
            Some(c) => {
                &&& match c.committer {
                    Some(u) => r.0@ == u.login@ && r.1@ == u.html_url@ && r.2@ == u.avatar_url@,
                    None => r.0@ == "Unknown"@ && r.1@.len() == 0 && r.2@.len() == 0,
                }
                &&& r.3@ == count_text(c.changed_files)
                &&& r.4@ == match c.stats {
                    Some(s) => decimal(s.additions.unwrap_or(0) as nat),
                    None => Seq::empty(),
                }
                &&& r.5@ == match c.stats {
                    Some(s) => decimal(s.deletions.unwrap_or(0) as nat),
                    None => Seq::empty(),
                }
            },
            None => r.0@ == "Unknown"@ && r.1@.len() == 0 && r.2@.len() == 0 && r.3@.len() == 0
                && r.4@.len() == 0 && r.5@.len() == 0,
        },
{
    match stats {
        Some(c) => {
            let (name, link, icon) = user_parts(&c.committer, String::from_str("Unknown"));
            let files = match c.changed_files {
                Some(n) => number_text(n),
                None => String::new(),
            };
            let (additions, deletions) = match c.stats {
                Some(s) => (number_text(s.additions.unwrap_or(0)), number_text(s.deletions.unwrap_or(0))),
                None => (String::new(), String::new()),
            };
            (name, link, icon, files, additions, deletions)
        },
        None => (String::from_str("Unknown"), String::new(), String::new(), String::new(), String::new(), String::new()),
    }
}

fn date_text_of(o: &Option<Instant>) -> (r: String)
    ensures
        date_field_ok(r@, *o),
{
    match o {
        Some(i) => match utc_instant_text(i) {
            Some(s) => s,
            None => String::new(),
        },
        None => String::new(),
    }
}

fn copy_labels(labels: &Vec<String>) -> (r: Vec<String>)
    ensures
        views(r@) == views(labels@),
{
    let mut out: Vec<String> = Vec::new();
    let mut i: usize = 0;
    while i < labels.len()
        invariant
            i <= labels.len(),
            views(out@) =~= views(labels@.take(i as int)),
        decreases labels.len() - i,
    {
        let ghost before = out@;
        out.push(labels[i].clone());
        assert(labels@.take(i + 1) =~= labels@.take(i as int).push(labels@[i as int]));
        assert(views(out@) =~= views(before).push(labels@[i as int]@));
        i = i + 1;
        assert(views(out@) =~= views(labels@.take(i as int)));
    }
    assert(labels@.take(labels.len() as int) =~= labels@);
    out
}

/// The quote of `s`: each of its lines after `> `.
pub fn quote_lines(s: &String) -> (r: String)
    ensures
        r@ == quoted(s@),
{
    let chars = chars_of(s.as_str());
    let mut out: Vec<char> = Vec::new();
    out.push('>');
    out.push(' ');
    let mut i: usize = 0;
    while i < chars.len()
        invariant
            i <= chars.len(),
            chars@ == s@,
            out@ == seq!['>', ' '] + quote_inner(chars@.take(i as int)),
        decreases chars.len() - i,
    {
        let c = chars[i];
        let ghost prev = chars@.take(i as int);
        assert(chars@.take(i + 1).drop_last() =~= prev);
        if c == '\n' {
            out.push('\n');
            out.push('>');
            out.push(' ');
        } else {
            out.push(c);
        }
        i = i + 1;
        assert(out@ =~= seq!['>', ' '] + quote_inner(chars@.take(i as int)));
    }
    out.push('\n');
    assert(chars@.take(chars.len() as int) =~= chars@);
    assert(out@ =~= quoted(s@));
    string_of(&out)
}

/// Each label on a line of its own after `- `.
pub fn label_list(labels: &Vec<String>) -> (r: String)
    ensures
        r@ == bullet_list(views(labels@)),
{
    let mut out: Vec<char> = Vec::new();
    let mut i: usize = 0;
    while i < labels.len()
        invariant
            i <= labels.len(),
            out@ == bullet_list(views(labels@.take(i as int))),
        decreases labels.len() - i,
    {
        let mut line = chars_of(labels[i].as_str());
        out.push('-');
        out.push(' ');
        out.append(&mut line);
        out.push('\n');
        let ghost taken = views(labels@.take(i + 1));
        assert(taken.drop_last() =~= views(labels@.take(i as int)));
        assert(taken.last() == labels@[i as int]@);
        i = i + 1;
        assert(out@ =~= bullet_list(views(labels@.take(i as int))));
    }
    assert(labels@.take(labels.len() as int) =~= labels@);
    string_of(&out)
}

impl PrTemplate {
    /// The template of a merged change and, where it could be fetched, the statistics
    /// of its merge artifact.
    pub fn new(pr: &ChangeRecord, merge_commit: Option<MergeStats>) -> (r: PrTemplate)
        ensures
            from_record(r, *pr),
            from_stats(r, merge_commit),
    {
        let labels = match &pr.labels {
            Some(l) => copy_labels(l),
            None => {
                assert(views(Seq::<String>::empty()) =~= Seq::empty());
                Vec::new()
            },
        };
        let (open_user_name, open_user_link, open_user_icon) = user_parts(
            &pr.user,
            String::from_str("Unknown"),
        );
        let (repo_name, owner_name, owner_link, owner_icon, repo_link, license) = repo_parts(pr);
        let (merge_user_name, merge_user_link, merge_user_icon, changed_files, additions, deletions) =
            stats_parts(merge_commit);
        PrTemplate {
            title: text_or_empty(&pr.title),
            original_desc: text_or_empty(&pr.body),
            number: number_text(pr.number),
            labels,
            merge_sha: text_or_empty(&pr.merge_commit_sha),
            changed_files,
            additions,
            deletions,
            url_pr: text_or_empty(&pr.html_url),
            url_diff: text_or_empty(&pr.diff_url),
            url_commits: text_or_empty(&pr.commits_url),
            url_comments: text_or_empty(&pr.comments_url),
            owner_name,
            owner_link,
            owner_icon,
            repo_name,
            repo_link,
            license,
            open_user_name,
            open_user_link,
            open_user_icon,
            merge_user_name,
            merge_user_link,
            merge_user_icon,
            open_date: date_text_of(&pr.created_at),
            merge_date: date_text_of(&pr.merged_at),
        }
    }

    /// The markdown body of the template.
    pub fn to_markdown(&self) -> (r: String)
        ensures
            r@ == markdown(*self),
    {
        let mut b = String::from_str("## Mirror of  PR #");
        b.append(self.number.as_str());
        b.append(": [");
        b.append(self.title.as_str());
        b.append("](");
        b.append(self.url_pr.as_str());
        b.append(") from <img src=\"");
        b.append(self.owner_icon.as_str());
        b.append("\" alt=\"");
        b.append(self.owner_name.as_str());
        b.append("\" width=\"22\"/> [");
        b.append(self.owner_name.as_str());
        b.append("](");
        b.append(self.owner_link.as_str());
        b.append(")/[");
        b.append(self.repo_name.as_str());
        b.append("](");
        b.append(self.repo_link.as_str());
        b.append(")\n\n###### `");
        b.append(self.merge_sha.as_str());
        b.append("`\n\nPR opened by <img src=\"");
        b.append(self.open_user_icon.as_str());
        b.append("\" width=\"16\"/><a href=\"");
        b.append(self.open_user_link.as_str());
        b.append("\"> ");
        b.append(self.open_user_name.as_str());
        b.append("</a> at ");
        b.append(self.open_date.as_str());
        b.append(" - merged at ");
        b.append(self.merge_date.as_str());
        b.append("\n\nMerge committed by <img src=\"");
        b.append(self.merge_user_icon.as_str());
        b.append("\" width=\"16\"/><a href=\"");
        b.append(self.merge_user_link.as_str());
        b.append("\"> ");
        b.append(self.merge_user_name.as_str());
        b.append("</a>\n\n---\n\nPR changed ");
        b.append(self.changed_files.as_str());
        b.append(" files with ");
        b.append(self.additions.as_str());
        b.append(" additions and ");
        b.append(self.deletions.as_str());
        b.append(" deletions.\n\nThe PR had the following labels:\n");
        let labels = label_list(&self.labels);
        b.append(labels.as_str());
        b.append("\n\n---\n\n<details open=\"true\"><summary><h1>Original Body</h1></summary>\n\n");
        let quote = quote_lines(&self.original_desc);
        b.append(quote.as_str());
        b.append("\n\n</details>");
        b
    }
}

impl Default for PrTemplate {
    fn default() -> (r: PrTemplate)
        ensures
            blank(r),
    {
        PrTemplate {
            title: String::new(),
            original_desc: String::new(),
            number: String::from_str("???"),
            labels: Vec::new(),
            merge_sha: String::new(),
            changed_files: String::new(),
            additions: String::new(),
            deletions: String::new(),
            url_pr: String::new(),
            url_diff: String::new(),
            url_commits: String::new(),
            url_comments: String::new(),
            owner_name: String::new(),
            owner_link: String::new(),
            owner_icon: String::new(),
            repo_name: String::new(),
            repo_link: String::new(),
            license: String::new(),
            open_user_name: String::from_str("Unknown"),
            open_user_link: String::new(),
            open_user_icon: String::new(),
            merge_user_name: String::from_str("Unknown"),
            merge_user_link: String::new(),
            merge_user_icon: String::new(),
            open_date: String::new(),
            merge_date: String::new(),
        }
    }
}

} // verus!

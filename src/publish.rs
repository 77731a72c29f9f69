use vstd::prelude::*;
use vstd::string::StringExecFns;
use crate::pr_template::text_or;
use crate::text::{decimal, decimal_digits, string_of};

verus! {

/// The title of the proposal that mirrors a change titled `title`.
pub open spec fn proposal_title_of(title: Option<String>) -> Seq<char> {
    "Mirror: "@ + text_or(title, Seq::empty())
}

/// The source branch of a proposal: the branch on the publishing account's fork.
pub open spec fn proposal_head_of(login: Seq<char>, branch: Seq<char>) -> Seq<char> {
    login + ":"@ + branch
}

/// The title of the report on change `number`, titled `title`, that could not be
/// mirrored.
pub open spec fn issue_title_of(number: u64, title: Option<String>) -> Seq<char> {
    "Failed to cherry-pick PR #"@ + decimal(number as nat) + ": "@ + text_or(title, Seq::empty())
}

/// The body of a report: the reason, then the body the proposal would have had.
pub open spec fn issue_body_of(reason: Seq<char>, body: Seq<char>) -> Seq<char> {
    "## Failed to cherry-pick PR: "@ + reason + "\nPR body below\n\n"@ + body
}

/// The title of the proposal that mirrors a change titled `title`.
pub fn proposal_title(title: &Option<String>) -> (r: String)
    ensures
        r@ == proposal_title_of(*title),
{
    let mut t = String::from_str("Mirror: ");
    if let Some(s) = title {
        t.append(s.as_str());
    }
    t
}

/// The source branch of a proposal: `login:branch`.
pub fn proposal_head(login: &str, branch: &str) -> (r: String)
    ensures
        r@ == proposal_head_of(login@, branch@),
{
    let mut h = String::from_str(login);
    h.append(":");
    h.append(branch);
    h
}

/// The title of the report on change `number` that could not be mirrored.
pub fn issue_title(number: u64, title: &Option<String>) -> (r: String)
    ensures
        r@ == issue_title_of(number, *title),
{
    let mut t = String::from_str("Failed to cherry-pick PR #");
    let digits = string_of(&decimal_digits(number));
    t.append(digits.as_str());
    t.append(": ");
    if let Some(s) = title {
        t.append(s.as_str());
    }
    t
}

/// The body of a report on a change that could not be mirrored.
pub fn issue_body(reason: &str, body: &str) -> (r: String)
    ensures
        r@ == issue_body_of(reason@, body@),
{
    let mut b = String::from_str("## Failed to cherry-pick PR: ");
    b.append(reason);
    b.append("\nPR body below\n\n");
    b.append(body);
    b
}

} // verus!

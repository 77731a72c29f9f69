use vstd::prelude::*;
use vstd::string::StringExecFns;
use crate::config::RepoInfo;
use crate::text::{decimal, decimal_digits, lemma_decimal_injective, string_of};
use crate::time::{calendar_date_text, calendar_day, date_text};

verus! {

/// The isolated branch of change `number` of `owner/name`, made on the day written
/// `date`.
pub open spec fn branch_name_of(owner: Seq<char>, name: Seq<char>, number: u64, date: Seq<char>) -> Seq<char> {
    owner + "_"@ + name + "_"@ + decimal(number as nat) + "_"@ + date
}

/// The isolated branch of change `number` of `owner/name`, made on the day written
/// `date`.
pub fn branch_name(owner: &str, name: &str, number: u64, date: &str) -> (r: String)
    ensures
        r@ == branch_name_of(owner@, name@, number, date@),
{
    let mut b = String::from_str(owner);
    b.append("_");
    b.append(name);
    b.append("_");
    let digits = string_of(&decimal_digits(number));
    b.append(digits.as_str());
    b.append("_");
    b.append(date);
    b
}

/// The isolated branch of change `number` of `owner/name` made on day `today`, where
/// the calendar can write that day.
pub fn branch_name_on(owner: &str, name: &str, number: u64, today: i32) -> (r: Option<String>)
    ensures
        r matches Some(b) ==> b@ == branch_name_of(owner@, name@, number, date_text(today as int)),
        r is Some <==> calendar_day(today as int),
{
    match calendar_date_text(today) {
        Some(date) => Some(branch_name(owner, name, number, date.as_str())),
        None => None,
    }
}

/// The web address of the repository `owner/name` on the hosting service.
pub open spec fn repo_url_of(owner: Seq<char>, name: Seq<char>) -> Seq<char> {
    "https://github.com/"@ + owner + "/"@ + name
}

/// The message of the commit that replays artifact `sha` of change `number` of the
/// repository `from`.
pub open spec fn commit_message_of(sha: Seq<char>, number: u64, from: RepoInfo) -> Seq<char> {
    "Cherry-picked commit "@ + sha + " of PR #"@ + decimal(number as nat) + " from "@
        + from.owner@ + "/"@ + from.name@ + "/"@ + from.branch@
}

/// The refspec that pushes a local branch to the branch of the same name.
pub open spec fn push_refspec_of(branch: Seq<char>) -> Seq<char> {
    "refs/heads/"@ + branch + ":refs/heads/"@ + branch
}

/// The web address of the repository `owner/name`.
pub fn url_from_name(owner: &str, name: &str) -> (r: String)
    ensures
        r@ == repo_url_of(owner@, name@),
{
    let mut u = String::from_str("https://github.com/");
    u.append(owner);
    u.append("/");
    u.append(name);
    u
}

/// The message of the commit that replays artifact `sha` of change `number` of the
/// repository `from`.
pub fn commit_message(sha: &str, number: u64, from: &RepoInfo) -> (r: String)
    ensures
        r@ == commit_message_of(sha@, number, *from),
{
    let mut m = String::from_str("Cherry-picked commit ");
    m.append(sha);
    m.append(" of PR #");
    let digits = string_of(&decimal_digits(number));
    m.append(digits.as_str());
    m.append(" from ");
    m.append(from.owner.as_str());
    m.append("/");
    m.append(from.name.as_str());
    m.append("/");
    m.append(from.branch.as_str());
    m
}

/// The refspec that pushes `branch` to the branch of the same name.
pub fn push_refspec(branch: &str) -> (r: String)
    ensures
        r@ == push_refspec_of(branch@),
{
    let mut s = String::from_str("refs/heads/");
    s.append(branch);
    s.append(":refs/heads/");
    s.append(branch);
    s
}

/// Changes with distinct numbers of one repository get distinct branches on the same
/// day.
pub proof fn lemma_branch_names_distinct(
    owner: Seq<char>,
    name: Seq<char>,
    a: u64,
    b: u64,
    date: Seq<char>,
)
    requires
        a != b,
    ensures
        branch_name_of(owner, name, a, date) != branch_name_of(owner, name, b, date),
{
    let head = owner + "_"@ + name + "_"@;
    let tail = "_"@ + date;
    let na = branch_name_of(owner, name, a, date);
    let nb = branch_name_of(owner, name, b, date);
    assert(na =~= head + decimal(a as nat) + tail);
    assert(nb =~= head + decimal(b as nat) + tail);
    if na == nb {
        let da = decimal(a as nat);
        let db = decimal(b as nat);
        assert(da.len() == db.len());
        assert(na.subrange(head.len() as int, (head.len() + da.len()) as int) =~= da);
        assert(nb.subrange(head.len() as int, (head.len() + db.len()) as int) =~= db);
        lemma_decimal_injective(a as nat, b as nat);
    }
}

} // verus!

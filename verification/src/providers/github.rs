//! GitHub-style wire formats: the payload values submitted for labels,
//! milestones and issues, the date translation, the label-color
//! normalization, and the dependency comment that stands in for a native
//! issue link.

use vstd::prelude::*;
use vstd::string::StrSliceExecFns;
use vstd::string::StringExecFns;

use crate::models::common::{IssueCreate, Label, Milestone};

verus! {

/// A label as submitted to a GitHub-style API: the color is sent without
/// its `#` prefix.
pub struct GitHubLabel {
    pub name: String,
    pub color: String,
    pub description: Option<String>,
}

/// A milestone as submitted to a GitHub-style API: the due date carries a
/// midnight-UTC time suffix, and the milestone is opened on creation.
pub struct GitHubMilestone {
    pub title: String,
    pub description: String,
    pub due_on: String,
    pub state: String,
}

/// An issue as submitted to a GitHub-style API.
pub struct GitHubIssue {
    pub title: String,
    pub body: String,
    pub milestone: Option<i64>,
    pub labels: Vec<String>,
    pub assignees: Vec<String>,
}

/// The value with every leading `#` removed and nothing else changed.
pub open spec fn strip_leading_hashes(s: Seq<char>) -> Seq<char>
    decreases s.len(),
{
    if s.len() > 0 && s[0] == '#' {
        strip_leading_hashes(s.drop_first())
    } else {
        s
    }
}

/// Stripping the leading `#`s of `s` keeps exactly its suffix from the
/// first character that is not a `#`.
proof fn lemma_strip_is_suffix(s: Seq<char>, i: int)
    requires
        0 <= i <= s.len(),
        forall|k: int| 0 <= k < i ==> s[k] == '#',
        i < s.len() ==> s[i] != '#',
    ensures
        strip_leading_hashes(s) == s.skip(i),
    decreases i,
{
    if i == 0 {
        assert(s.skip(0) =~= s);
    } else {
        lemma_strip_is_suffix(s.drop_first(), i - 1);
        assert(s.drop_first().skip(i - 1) =~= s.skip(i));
    }
}

/// Removes every leading `#` of a color value, as a GitHub-style API
/// expects bare hex colors.
pub fn strip_hash_from_color(color: &str) -> (r: String)
    ensures
        r@ == strip_leading_hashes(color@),
{
    let n = color.unicode_len();
    let mut i: usize = 0;
    while i < n && color.get_char(i) == '#'
        invariant
            i <= n,
            n == color@.len(),
            forall|k: int| 0 <= k < i ==> color@[k] == '#',
        decreases n - i,
    {
        i += 1;
    }
    proof {
        lemma_strip_is_suffix(color@, i as int);
        assert(color@.subrange(i as int, n as int) =~= color@.skip(i as int));
    }
    let tail = color.substring_char(i, n);
    String::from_str(tail)
}

/// Extends a plain date with the midnight-UTC time suffix that a
/// GitHub-style milestone due date requires.
pub fn format_date(due_on: &str) -> (r: String)
    ensures
        r@ == due_on@ + "T00:00:00Z"@,
{
    let mut r = String::from_str(due_on);
    r.append("T00:00:00Z");
    r
}

/// The label payload for a GitHub-style API: name and description
/// verbatim, color with its `#` prefix stripped.
pub fn github_label(label: &Label) -> (r: GitHubLabel)
    ensures
        r.name@ == label.name@,
        r.color@ == strip_leading_hashes(label.color@),
        r.description.deep_view() == label.description.deep_view(),
{
    let description = match &label.description {
        Option::Some(d) => Option::Some(d.clone()),
        Option::None => Option::None,
    };
    GitHubLabel {
        name: label.name.clone(),
        color: strip_hash_from_color(label.color.as_str()),
        description,
    }
}

/// The milestone payload for a GitHub-style API: the declared name becomes
/// the title, the description travels verbatim, the deadline gains the
/// midnight-UTC suffix, and the milestone is created open.
pub fn github_milestone(milestone: &Milestone) -> (r: GitHubMilestone)
    ensures
        r.title@ == milestone.name@,
        r.description@ == milestone.description@,
        r.due_on@ == milestone.deadline@ + "T00:00:00Z"@,
        r.state@ == "open"@,
{
    GitHubMilestone {
        title: milestone.name.clone(),
        description: milestone.description.clone(),
        due_on: format_date(milestone.deadline.as_str()),
        state: String::from_str("open"),
    }
}

/// The payload of the standalone issue-creation primitive: no milestone
/// association and no assignees.
pub fn github_issue(issue: IssueCreate) -> (r: GitHubIssue)
    ensures
        r.title@ == issue.title@,
        r.body@ == issue.description@,
        r.milestone is None,
        r.labels.deep_view() == issue.labels.deep_view(),
        r.assignees@.len() == 0,
{
    GitHubIssue {
        title: issue.title,
        body: issue.description,
        milestone: Option::None,
        labels: issue.labels,
        assignees: Vec::new(),
    }
}

/// The payload of a setup-mode issue creation: the rendered body and the
/// remote id of the milestone the issue belongs to.
pub fn github_setup_issue(title: String, body: String, milestone_id: i64, labels: Vec<String>) -> (r:
    GitHubIssue)
    ensures
        r.title@ == title@,
        r.body@ == body@,
        r.milestone == Option::Some(milestone_id),
        r.labels.deep_view() == labels.deep_view(),
        r.assignees@.len() == 0,
{
    GitHubIssue { title, body, milestone: Option::Some(milestone_id), labels, assignees: Vec::new() }
}

/// The decimal digit character for a value below ten.
pub open spec fn dec_digit(d: nat) -> char {
    if d == 0 {
        '0'
    } else if d == 1 {
        '1'
    } else if d == 2 {
        '2'
    } else if d == 3 {
        '3'
    } else if d == 4 {
        '4'
    } else if d == 5 {
        '5'
    } else if d == 6 {
        '6'
    } else if d == 7 {
        '7'
    } else if d == 8 {
        '8'
    } else {
        '9'
    }
}

/// The usual decimal rendering of a natural number, with no leading zeros
/// except for zero itself.
pub open spec fn dec_digits(n: nat) -> Seq<char>
    decreases n,
{
    if n < 10 {
        seq![dec_digit(n)]
    } else {
        dec_digits(n / 10).push(dec_digit(n % 10))
    }
}

/// The usual decimal rendering of an integer: a `-` sign for negative
/// values, then the digits of the magnitude.
pub open spec fn dec_int(n: int) -> Seq<char> {
    if n < 0 {
        seq!['-'] + dec_digits((-n) as nat)
    } else {
        dec_digits(n as nat)
    }
}

/// The one-character string for a decimal digit.
fn digit_str(d: u64) -> (r: &'static str)
    requires
        d < 10,
    ensures
        r@ == seq![dec_digit(d as nat)],
{
    proof {
        reveal_strlit("0");
        reveal_strlit("1");
        reveal_strlit("2");
        reveal_strlit("3");
        reveal_strlit("4");
        reveal_strlit("5");
        reveal_strlit("6");
        reveal_strlit("7");
        reveal_strlit("8");
        reveal_strlit("9");
    }
    let r = if d == 0 {
        "0"
    } else if d == 1 {
        "1"
    } else if d == 2 {
        "2"
    } else if d == 3 {
        "3"
    } else if d == 4 {
        "4"
    } else if d == 5 {
        "5"
    } else if d == 6 {
        "6"
    } else if d == 7 {
        "7"
    } else if d == 8 {
        "8"
    } else {
        "9"
    };
    proof {
        assert(r@ =~= seq![dec_digit(d as nat)]);
    }
    r
}

/// Renders an unsigned value in decimal.
fn u64_to_dec(n: u64) -> (r: String)
    ensures
        r@ == dec_digits(n as nat),
    decreases n,
{
    if n < 10 {
        String::from_str(digit_str(n))
    } else {
        let mut r = u64_to_dec(n / 10);
        r.append(digit_str(n % 10));
        proof {
            assert(dec_digits((n / 10) as nat).push(dec_digit((n % 10) as nat)) =~= dec_digits(
                (n / 10) as nat,
            ) + seq![dec_digit((n % 10) as nat)]);
        }
        r
    }
}

/// The comment body a GitHub-style provider posts in place of a native
/// issue link: `Depends on #` followed by the decimal id of the issue
/// depended on.
pub fn dependency_comment(to_id: i64) -> (r: String)
    ensures
        r@ == "Depends on #"@ + dec_int(to_id as int),
{
    let mut r = String::from_str("Depends on #");
    if to_id < 0 {
        proof {
            reveal_strlit("-");
        }
        r.append("-");
        let magnitude: u64 = if to_id == i64::MIN {
            9223372036854775808u64
        } else {
            (-to_id) as u64
        };
        let digits = u64_to_dec(magnitude);
        r.append(digits.as_str());
        proof {
            assert("-"@ =~= seq!['-']);
        }
    } else {
        let digits = u64_to_dec(to_id as u64);
        r.append(digits.as_str());
    }
    r
}

} // verus!

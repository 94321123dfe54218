//! GitLab-style wire formats: the payload values submitted for labels,
//! milestones and issues. Unlike the GitHub-style forms, colors and dates
//! travel verbatim, and issue links use a native endpoint, so no comment
//! body is needed.

use vstd::prelude::*;

use crate::models::common::{Label, Milestone};

verus! {

/// A label as submitted to a GitLab-style API: every field verbatim, the
/// color with any `#` prefix kept.
pub struct GitLabLabel {
    pub name: String,
    pub color: String,
    pub description: Option<String>,
}

/// A milestone as submitted to a GitLab-style API: the due date is the
/// declared deadline, unchanged.
pub struct GitLabMilestone {
    pub title: String,
    pub description: String,
    pub due_date: String,
}

/// A setup-mode issue as submitted to a GitLab-style API.
pub struct GitLabIssue {
    pub title: String,
    pub description: String,
    pub milestone_id: i64,
    pub labels: Vec<String>,
}

/// The label payload for a GitLab-style API: name, color and description
/// exactly as declared.
pub fn gitlab_label(label: &Label) -> (r: GitLabLabel)
    ensures
        r.name@ == label.name@,
        r.color@ == label.color@,
        r.description.deep_view() == label.description.deep_view(),
{
    let description = match &label.description {
        Option::Some(d) => Option::Some(d.clone()),
        Option::None => Option::None,
    };
    GitLabLabel { name: label.name.clone(), color: label.color.clone(), description }
}

/// The milestone payload for a GitLab-style API: the declared name becomes
/// the title, description and deadline travel verbatim.
pub fn gitlab_milestone(milestone: &Milestone) -> (r: GitLabMilestone)
    ensures
        r.title@ == milestone.name@,
        r.description@ == milestone.description@,
        r.due_date@ == milestone.deadline@,
{
    GitLabMilestone {
        title: milestone.name.clone(),
        description: milestone.description.clone(),
        due_date: milestone.deadline.clone(),
    }
}

/// The payload of a setup-mode issue creation for a GitLab-style API.
pub fn gitlab_setup_issue(title: String, description: String, milestone_id: i64, labels: Vec<
    String,
>) -> (r: GitLabIssue)
    ensures
        r.title@ == title@,
        r.description@ == description@,
        r.milestone_id == milestone_id,
        r.labels.deep_view() == labels.deep_view(),
{
    GitLabIssue { title, description, milestone_id, labels }
}

} // verus!

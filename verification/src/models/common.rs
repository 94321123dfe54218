//! The project description consumed by the setup orchestrator: milestones,
//! issues with cross-references, labels, and the structured issue
//! descriptions with their markdown rendering rule.

use vstd::prelude::*;
use vstd::string::StringExecFns;

verus! {

/// A repository label: no identity beyond its name; the color is a hex
/// string, optionally `#`-prefixed.
pub struct Label {
    pub name: String,
    pub color: String,
    pub description: Option<String>,
}

/// Spec-level value of a [`Label`].
pub ghost struct LabelView {
    pub name: Seq<char>,
    pub color: Seq<char>,
    pub description: Option<Seq<char>>,
}

impl View for Label {
    type V = LabelView;

    open spec fn view(&self) -> LabelView {
        LabelView {
            name: self.name@,
            color: self.color@,
            description: match self.description {
                Option::Some(d) => Option::Some(d@),
                Option::None => Option::None,
            },
        }
    }
}

impl DeepView for Label {
    type V = LabelView;

    open spec fn deep_view(&self) -> LabelView {
        self.view()
    }
}

/// A milestone declaration. `version` is the local join key that issues use
/// to reference the milestone; it is never sent to the remote API.
pub struct Milestone {
    pub name: String,
    pub version: String,
    pub deadline: String,
    pub description: String,
}

impl Clone for Milestone {
    /// Clones every field of the milestone.
    fn clone(&self) -> (r: Self)
        ensures
            r == *self,
    {
        Milestone {
            name: self.name.clone(),
            version: self.version.clone(),
            deadline: self.deadline.clone(),
            description: self.description.clone(),
        }
    }
}

/// Spec-level value of a [`Milestone`].
pub ghost struct MilestoneView {
    pub name: Seq<char>,
    pub version: Seq<char>,
    pub deadline: Seq<char>,
    pub description: Seq<char>,
}

impl View for Milestone {
    type V = MilestoneView;

    open spec fn view(&self) -> MilestoneView {
        MilestoneView {
            name: self.name@,
            version: self.version@,
            deadline: self.deadline@,
            description: self.description@,
        }
    }
}

impl DeepView for Milestone {
    type V = MilestoneView;

    open spec fn deep_view(&self) -> MilestoneView {
        self.view()
    }
}

/// One titled block of an issue description, with its content lines.
pub struct Section {
    pub title: String,
    pub content: Vec<String>,
}

/// Spec-level value of a [`Section`].
pub ghost struct SectionView {
    pub title: Seq<char>,
    pub content: Seq<Seq<char>>,
}

impl View for Section {
    type V = SectionView;

    open spec fn view(&self) -> SectionView {
        SectionView { title: self.title@, content: self.content.deep_view() }
    }
}

impl DeepView for Section {
    type V = SectionView;

    open spec fn deep_view(&self) -> SectionView {
        self.view()
    }
}

/// A structured issue description: an ordered list of sections.
pub struct IssueDescription {
    pub sections: Vec<Section>,
}

/// Spec-level value of an [`IssueDescription`].
pub ghost struct IssueDescriptionView {
    pub sections: Seq<SectionView>,
}

impl View for IssueDescription {
    type V = IssueDescriptionView;

    open spec fn view(&self) -> IssueDescriptionView {
        IssueDescriptionView { sections: self.sections.deep_view() }
    }
}

impl DeepView for IssueDescription {
    type V = IssueDescriptionView;

    open spec fn deep_view(&self) -> IssueDescriptionView {
        self.view()
    }
}

/// A standalone issue declaration, used by the issue-creation entry point.
pub struct Issue {
    pub title: String,
    pub labels: Vec<String>,
    pub description: IssueDescription,
}

/// Spec-level value of an [`Issue`].
pub ghost struct IssueView {
    pub title: Seq<char>,
    pub labels: Seq<Seq<char>>,
    pub description: IssueDescriptionView,
}

impl View for Issue {
    type V = IssueView;

    open spec fn view(&self) -> IssueView {
        IssueView {
            title: self.title@,
            labels: self.labels.deep_view(),
            description: self.description@,
        }
    }
}

impl DeepView for Issue {
    type V = IssueView;

    open spec fn deep_view(&self) -> IssueView {
        self.view()
    }
}

/// A setup-mode issue: references a milestone by version string and other
/// issues of the same project by title.
pub struct ProjectIssue {
    pub title: String,
    pub milestone: String,
    pub estimate: String,
    pub sprint: u32,
    pub dependencies: Vec<String>,
    pub labels: Vec<String>,
    pub description: IssueDescription,
}

/// Spec-level value of a [`ProjectIssue`].
pub ghost struct ProjectIssueView {
    pub title: Seq<char>,
    pub milestone: Seq<char>,
    pub estimate: Seq<char>,
    pub sprint: u32,
    pub dependencies: Seq<Seq<char>>,
    pub labels: Seq<Seq<char>>,
    pub description: IssueDescriptionView,
}

impl View for ProjectIssue {
    type V = ProjectIssueView;

    open spec fn view(&self) -> ProjectIssueView {
        ProjectIssueView {
            title: self.title@,
            milestone: self.milestone@,
            estimate: self.estimate@,
            sprint: self.sprint,
            dependencies: self.dependencies.deep_view(),
            labels: self.labels.deep_view(),
            description: self.description@,
        }
    }
}

impl DeepView for ProjectIssue {
    type V = ProjectIssueView;

    open spec fn deep_view(&self) -> ProjectIssueView {
        self.view()
    }
}

/// A full declarative project: milestones and issues in declaration order.
pub struct Project {
    pub name: String,
    pub version: String,
    pub milestones: Vec<Milestone>,
    pub issues: Vec<ProjectIssue>,
}

/// Spec-level value of a [`Project`].
pub ghost struct ProjectView {
    pub name: Seq<char>,
    pub version: Seq<char>,
    pub milestones: Seq<MilestoneView>,
    pub issues: Seq<ProjectIssueView>,
}

impl View for Project {
    type V = ProjectView;

    open spec fn view(&self) -> ProjectView {
        ProjectView {
            name: self.name@,
            version: self.version@,
            milestones: self.milestones.deep_view(),
            issues: self.issues.deep_view(),
        }
    }
}

impl DeepView for Project {
    type V = ProjectView;

    open spec fn deep_view(&self) -> ProjectView {
        self.view()
    }
}

/// The top-level input document: one project.
pub struct ProjectFile {
    pub project: Project,
}

impl View for ProjectFile {
    type V = ProjectView;

    open spec fn view(&self) -> ProjectView {
        self.project@
    }
}

/// The payload of the standalone issue-creation primitive: title, rendered
/// markdown body, labels.
pub struct IssueCreate {
    pub title: String,
    pub description: String,
    pub labels: Vec<String>,
}

/// A single newline, the line separator of rendered descriptions.
pub open spec fn nl() -> Seq<char> {
    seq!['\n']
}

/// A blank line: the separator between rendered sections of an issue body.
pub open spec fn blank_line() -> Seq<char> {
    seq!['\n', '\n']
}

/// The parts joined with the separator between consecutive parts and
/// nothing added around them.
pub open spec fn join_with(parts: Seq<Seq<char>>, sep: Seq<char>) -> Seq<char>
    decreases parts.len(),
{
    if parts.len() == 0 {
        Seq::empty()
    } else if parts.len() == 1 {
        parts[0]
    } else {
        join_with(parts.drop_last(), sep) + sep + parts.last()
    }
}

/// One section rendered for [`IssueDescription::to_markdown`]: the title
/// line, the content lines joined by newlines, and a trailing newline.
pub open spec fn section_markdown(s: SectionView) -> Seq<char> {
    s.title + nl() + join_with(s.content, nl()) + nl()
}

/// The whole description rendered for [`IssueDescription::to_markdown`]:
/// the rendered sections joined by single newlines, so that consecutive
/// sections are separated by one blank line.
pub open spec fn description_markdown(d: IssueDescriptionView) -> Seq<char> {
    join_with(d.sections.map_values(|s: SectionView| section_markdown(s)), nl())
}

/// One section rendered for a setup-mode issue body: the title line and the
/// content lines joined by newlines, with no trailing newline.
pub open spec fn section_body(s: SectionView) -> Seq<char> {
    s.title + nl() + join_with(s.content, nl())
}

/// A setup-mode issue body: the rendered sections joined by blank lines.
pub open spec fn issue_body_markdown(d: IssueDescriptionView) -> Seq<char> {
    join_with(d.sections.map_values(|s: SectionView| section_body(s)), blank_line())
}

impl Section {
    /// Renders the title line followed by the content lines, newline-joined.
    fn render_body(&self) -> (r: String)
        ensures
            r@ == section_body(self@),
    {
        proof {
            reveal_strlit("\n");
        }
        let mut r = String::new();
        r.append(self.title.as_str());
        r.append("\n");
        let mut j: usize = 0;
        while j < self.content.len()
            invariant
                j <= self.content.len(),
                r@ == self@.title + nl() + join_with(self@.content.take(j as int), nl()),
                "\n"@ == nl(),
            decreases self.content.len() - j,
        {
            if j > 0 {
                r.append("\n");
            }
            r.append(self.content[j].as_str());
            proof {
                let ghost parts = self@.content;
                assert(parts.take(j + 1).drop_last() =~= parts.take(j as int));
                assert(parts.take(j + 1).last() == parts[j as int]);
                assert(parts[j as int] == self.content@[j as int].deep_view());
            }
            j += 1;
        }
        proof {
            assert(self@.content.take(self.content.len() as int) =~= self@.content);
        }
        r
    }
}

impl IssueDescription {
    /// Renders the description for a standalone issue: each section as its
    /// title line, its content lines newline-joined, and a trailing newline,
    /// with the rendered sections joined by single newlines.
    pub fn to_markdown(&self) -> (r: String)
        ensures
            r@ == description_markdown(self@),
    {
        proof {
            reveal_strlit("\n");
        }
        let ghost rendered = self@.sections.map_values(|s: SectionView| section_markdown(s));
        let mut r = String::new();
        let mut i: usize = 0;
        while i < self.sections.len()
            invariant
                i <= self.sections.len(),
                rendered == self@.sections.map_values(|s: SectionView| section_markdown(s)),
                rendered.len() == self.sections.len(),
                r@ == join_with(rendered.take(i as int), nl()),
                "\n"@ == nl(),
            decreases self.sections.len() - i,
        {
            if i > 0 {
                r.append("\n");
            }
            let part = self.sections[i].render_body();
            r.append(part.as_str());
            r.append("\n");
            proof {
                assert(rendered.take(i + 1).drop_last() =~= rendered.take(i as int));
                assert(self@.sections[i as int] == self.sections@[i as int].deep_view());
                assert(rendered.take(i + 1).last() == section_markdown(self@.sections[i as int]));
            }
            i += 1;
        }
        proof {
            assert(rendered.take(self.sections.len() as int) =~= rendered);
        }
        r
    }

    /// Renders the description for a setup-mode issue: each section as its
    /// title line and newline-joined content lines, with the rendered
    /// sections joined by blank lines.
    pub fn to_issue_body(&self) -> (r: String)
        ensures
            r@ == issue_body_markdown(self@),
    {
        proof {
            reveal_strlit("\n\n");
        }
        let ghost rendered = self@.sections.map_values(|s: SectionView| section_body(s));
        let mut r = String::new();
        let mut i: usize = 0;
        while i < self.sections.len()
            invariant
                i <= self.sections.len(),
                rendered == self@.sections.map_values(|s: SectionView| section_body(s)),
                rendered.len() == self.sections.len(),
                r@ == join_with(rendered.take(i as int), blank_line()),
                "\n\n"@ == blank_line(),
            decreases self.sections.len() - i,
        {
            if i > 0 {
                r.append("\n\n");
            }
            let part = self.sections[i].render_body();
            r.append(part.as_str());
            proof {
                assert(rendered.take(i + 1).drop_last() =~= rendered.take(i as int));
                assert(self@.sections[i as int] == self.sections@[i as int].deep_view());
                assert(rendered.take(i + 1).last() == section_body(self@.sections[i as int]));
            }
            i += 1;
        }
        proof {
            assert(rendered.take(self.sections.len() as int) =~= rendered);
        }
        r
    }
}

impl IssueCreate {
    /// Builds the creation payload for a standalone issue: its title, its
    /// description rendered to markdown, and its labels.
    pub fn from_issue(issue: Issue) -> (r: IssueCreate)
        ensures
            r.title@ == issue.title@,
            r.description@ == description_markdown(issue.description@),
            r.labels.deep_view() == issue.labels.deep_view(),
    {
        let description = issue.description.to_markdown();
        IssueCreate { title: issue.title, description, labels: issue.labels }
    }
}

/// Markdown rendering is deterministic: two renderings of equal description
/// values are the same string, character for character.
pub proof fn lemma_markdown_deterministic(
    d1: IssueDescriptionView,
    d2: IssueDescriptionView,
)
    requires
        d1 == d2,
    ensures
        description_markdown(d1) == description_markdown(d2),
        issue_body_markdown(d1) == issue_body_markdown(d2),
{
}

} // verus!

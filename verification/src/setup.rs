//! The setup orchestrator: drives one declarative project through a
//! provider's primitives in strict phase order — every milestone, then
//! every issue, then every dependency link — translating local join keys
//! (milestone versions, issue titles) into provider-assigned remote ids
//! through two per-run lookup tables.
//!
//! The orchestrator is a state machine. The caller asks [`SetupRun::next_step`]
//! for the next remote call to make, performs it, and records its outcome
//! with [`SetupRun::milestone_created`], [`SetupRun::issue_created`] or
//! [`SetupRun::link_created`]; any remote failure aborts the run by simply
//! not recording further outcomes. The ghost history of the run holds every
//! recorded call, so the phase-order and fail-fast guarantees are stated
//! and proved over it.

use vstd::prelude::*;

use crate::error::ProviderError;
use crate::models::common::{issue_body_markdown, Milestone, Project, ProjectIssueView, ProjectView};
use vstd::pervasive::unreached;
use vstd::string::StringExecFns;

verus! {

/// One remote call of a setup run, as the run's history records it.
pub ghost enum SetupCall {
    /// The milestone-create call for the declared milestone at `index`.
    Milestone { index: int },
    /// The issue-create call for the declared issue at `index`, with the
    /// remote milestone id it was associated to and the body it carried.
    Issue { index: int, milestone_id: i64, body: Seq<char> },
    /// The link call for dependency `dep` of the declared issue at `issue`.
    Link { issue: int, dep: int, from_id: i64, to_id: i64 },
}

/// The spec-level state of a setup run.
pub ghost struct SetupModel {
    /// The project being provisioned, never changed by the run.
    pub project: ProjectView,
    /// The remote ids recorded for the first milestones, in declaration order.
    pub milestone_ids: Seq<i64>,
    /// The remote ids recorded for the first issues, in declaration order.
    pub issue_ids: Seq<i64>,
    /// The link-phase cursor: the declared issue it stands on.
    pub link_issue: int,
    /// The link-phase cursor: the dependency of that issue it stands on.
    pub link_dep: int,
    /// Every call recorded so far, in order.
    pub history: Seq<SetupCall>,
}

/// The version-to-remote-id table after `ids.len()` milestones: pairs in
/// insertion order, one per created milestone.
pub open spec fn version_table(milestones: Seq<crate::models::common::MilestoneView>, ids: Seq<
    i64,
>) -> Seq<(Seq<char>, i64)> {
    Seq::new(ids.len(), |k: int| (milestones[k].version, ids[k]))
}

/// The title-to-remote-id table after `ids.len()` issues: pairs in
/// insertion order, one per created issue.
pub open spec fn title_table(issues: Seq<ProjectIssueView>, ids: Seq<i64>) -> Seq<
    (Seq<char>, i64),
> {
    Seq::new(ids.len(), |k: int| (issues[k].title, ids[k]))
}

/// Looks a key up in an insertion-ordered table, the latest insertion
/// winning, as a map rebuilt by inserting the pairs in order would answer.
pub open spec fn lookup(table: Seq<(Seq<char>, i64)>, key: Seq<char>) -> Option<i64>
    decreases table.len(),
{
    if table.len() == 0 {
        Option::None
    } else if table.last().0 == key {
        Option::Some(table.last().1)
    } else {
        lookup(table.drop_last(), key)
    }
}

/// A key is found exactly when some pair of the table carries it.
pub proof fn lemma_lookup_some(table: Seq<(Seq<char>, i64)>, key: Seq<char>)
    ensures
        lookup(table, key) is Some <==> exists|j: int| 0 <= j < table.len() && table[j].0 == key,
    decreases table.len(),
{
    if table.len() > 0 {
        lemma_lookup_some(table.drop_last(), key);
        if table.last().0 == key {
            assert(table[table.len() - 1].0 == key);
        } else {
            if exists|j: int| 0 <= j < table.len() && table[j].0 == key {
                let j = choose|j: int| 0 <= j < table.len() && table[j].0 == key;
                assert(table.drop_last()[j] == table[j]);
            }
            if exists|j: int| 0 <= j < table.drop_last().len() && table.drop_last()[j].0 == key {
                let j = choose|j: int|
                    0 <= j < table.drop_last().len() && table.drop_last()[j].0 == key;
                assert(table[j] == table.drop_last()[j]);
            }
        }
    }
}

/// The milestone phase's calls: one per created milestone, in order.
pub open spec fn milestone_calls(n: int) -> Seq<SetupCall> {
    Seq::new(n as nat, |k: int| SetupCall::Milestone { index: k })
}

/// The issue-create call for the declared issue at `k`, with the milestone
/// id its version resolves to and its rendered body.
pub open spec fn issue_call(p: ProjectView, vtable: Seq<(Seq<char>, i64)>, k: int) -> SetupCall {
    SetupCall::Issue {
        index: k,
        milestone_id: lookup(vtable, p.issues[k].milestone).unwrap(),
        body: issue_body_markdown(p.issues[k].description),
    }
}

/// The issue phase's calls for the first `n` issues, in order.
pub open spec fn issue_calls(p: ProjectView, vtable: Seq<(Seq<char>, i64)>, n: int) -> Seq<
    SetupCall,
> {
    Seq::new(n as nat, |k: int| issue_call(p, vtable, k))
}

/// The number of dependencies the declared issue at `i` lists.
pub open spec fn dep_count(p: ProjectView, i: int) -> int {
    p.issues[i].dependencies.len() as int
}

/// Whether dependency `d` of issue `i` names the title of some created
/// issue. A dependency that does not is skipped silently.
pub open spec fn link_matches(p: ProjectView, ttable: Seq<(Seq<char>, i64)>, i: int, d: int) -> bool {
    lookup(ttable, p.issues[i].dependencies[d]) is Some
}

/// The link call made for dependency `d` of issue `i`: from the issue's
/// own remote id to the id of the issue the dependency names.
pub open spec fn link_call(p: ProjectView, ttable: Seq<(Seq<char>, i64)>, i: int, d: int) -> SetupCall {
    SetupCall::Link {
        issue: i,
        dep: d,
        from_id: lookup(ttable, p.issues[i].title).unwrap(),
        to_id: lookup(ttable, p.issues[i].dependencies[d]).unwrap(),
    }
}

/// The link phase's calls for every dependency pair lexicographically
/// before `(i, d)`, in declaration order, matching pairs only.
pub open spec fn link_calls_upto(p: ProjectView, ttable: Seq<(Seq<char>, i64)>, i: int, d: int) -> Seq<
    SetupCall,
>
    decreases i, d,
{
    if i < 0 || d < 0 {
        Seq::empty()
    } else if d > 0 {
        link_calls_upto(p, ttable, i, d - 1) + (if link_matches(p, ttable, i, d - 1) {
            seq![link_call(p, ttable, i, d - 1)]
        } else {
            Seq::empty()
        })
    } else if i > 0 {
        link_calls_upto(p, ttable, i - 1, dep_count(p, i - 1))
    } else {
        Seq::empty()
    }
}

/// The link phase's calls for every dependency pair of the project.
pub open spec fn all_link_calls(p: ProjectView, ttable: Seq<(Seq<char>, i64)>) -> Seq<SetupCall> {
    link_calls_upto(p, ttable, p.issues.len() as int, 0)
}

/// The number of dependency pairs lexicographically before `(i, d)` whose
/// title matches a created issue.
pub open spec fn matched_deps_upto(p: ProjectView, ttable: Seq<(Seq<char>, i64)>, i: int, d: int) -> int
    decreases i, d,
{
    if i < 0 || d < 0 {
        0
    } else if d > 0 {
        matched_deps_upto(p, ttable, i, d - 1) + (if link_matches(p, ttable, i, d - 1) {
            1int
        } else {
            0int
        })
    } else if i > 0 {
        matched_deps_upto(p, ttable, i - 1, dep_count(p, i - 1))
    } else {
        0
    }
}

/// The number of valid dependency edges of the project: the dependencies
/// whose title matches a created issue.
pub open spec fn valid_edge_count(p: ProjectView, ttable: Seq<(Seq<char>, i64)>) -> int {
    matched_deps_upto(p, ttable, p.issues.len() as int, 0)
}

/// The link phase makes exactly one call per matching dependency pair.
pub proof fn lemma_link_calls_count(p: ProjectView, ttable: Seq<(Seq<char>, i64)>, i: int, d: int)
    ensures
        link_calls_upto(p, ttable, i, d).len() == matched_deps_upto(p, ttable, i, d),
    decreases i, d,
{
    if i < 0 || d < 0 {
    } else if d > 0 {
        lemma_link_calls_count(p, ttable, i, d - 1);
    } else if i > 0 {
        lemma_link_calls_count(p, ttable, i - 1, dep_count(p, i - 1));
    }
}

impl SetupModel {
    /// The version-to-id table of this run.
    pub open spec fn vtable(self) -> Seq<(Seq<char>, i64)> {
        version_table(self.project.milestones, self.milestone_ids)
    }

    /// The title-to-id table of this run.
    pub open spec fn ttable(self) -> Seq<(Seq<char>, i64)> {
        title_table(self.project.issues, self.issue_ids)
    }

    /// Every declared milestone has been created and recorded.
    pub open spec fn milestones_done(self) -> bool {
        self.milestone_ids.len() == self.project.milestones.len()
    }

    /// Every declared issue has been created and recorded.
    pub open spec fn issues_done(self) -> bool {
        self.issue_ids.len() == self.project.issues.len()
    }

    /// The run is in the issue phase, with the issue at `issue_ids.len()`
    /// next to create.
    pub open spec fn awaiting_issue(self) -> bool {
        self.milestones_done() && !self.issues_done()
    }

    /// The version reference of the next issue to create resolves in the
    /// version table.
    pub open spec fn next_issue_resolves(self) -> bool {
        lookup(self.vtable(), self.project.issues[self.issue_ids.len() as int].milestone) is Some
    }

    /// The link-phase cursor has passed the last dependency pair.
    pub open spec fn cursor_at_end(self) -> bool {
        self.link_issue == self.project.issues.len()
    }

    /// The link-phase cursor stands on a dependency whose title matches a
    /// created issue: the next link call.
    pub open spec fn cursor_at_match(self) -> bool {
        &&& self.link_issue < self.project.issues.len()
        &&& self.link_dep < dep_count(self.project, self.link_issue)
        &&& link_matches(self.project, self.ttable(), self.link_issue, self.link_dep)
    }

    /// The run has completed every phase.
    pub open spec fn setup_done(self) -> bool {
        self.milestones_done() && self.issues_done() && self.cursor_at_end()
    }

    /// The calls a run in this state has made, reconstructed phase by
    /// phase from the recorded ids and the link cursor.
    pub open spec fn trace(self) -> Seq<SetupCall> {
        milestone_calls(self.milestone_ids.len() as int) + issue_calls(
            self.project,
            self.vtable(),
            self.issue_ids.len() as int,
        ) + link_calls_upto(self.project, self.ttable(), self.link_issue, self.link_dep)
    }

    /// Structural well-formedness, except for the link cursor standing on
    /// a match: counters in range, phases strictly ordered, every created
    /// issue's version reference resolved, and the history equal to the
    /// reconstructed trace.
    pub open spec fn wf_base(self) -> bool {
        &&& self.milestone_ids.len() <= self.project.milestones.len()
        &&& self.issue_ids.len() <= self.project.issues.len()
        &&& (self.issue_ids.len() > 0 ==> self.milestones_done())
        &&& (self.link_issue != 0 || self.link_dep != 0) ==> self.issues_done()
        &&& 0 <= self.link_issue <= self.project.issues.len()
        &&& 0 <= self.link_dep
        &&& (self.link_issue < self.project.issues.len() ==> self.link_dep <= dep_count(
            self.project,
            self.link_issue,
        ))
        &&& (self.cursor_at_end() ==> self.link_dep == 0)
        &&& (forall|k: int|
            0 <= k < self.issue_ids.len() ==> lookup(
                self.vtable(),
                (#[trigger] self.project.issues[k]).milestone,
            ) is Some)
        &&& self.history == self.trace()
    }

    /// Full well-formedness: additionally, once the issue phase has
    /// completed, the link cursor stands on a matching dependency or has
    /// passed the last one.
    pub open spec fn wf(self) -> bool {
        &&& self.wf_base()
        &&& (self.issues_done() ==> self.cursor_at_end() || self.cursor_at_match())
    }
}

/// The next remote call a setup run asks its caller to perform.
pub enum SetupStep {
    /// Create the declared milestone at `index` and record the returned
    /// remote id with [`SetupRun::milestone_created`].
    CreateMilestone { index: usize, milestone: Milestone },
    /// Create the declared issue at `index` with the rendered `body`, the
    /// resolved remote `milestone_id` and the declared labels, and record
    /// the returned remote id with [`SetupRun::issue_created`].
    CreateIssue { index: usize, title: String, body: String, milestone_id: i64, labels: Vec<String> },
    /// Link the issue created as `from_id` to its dependency created as
    /// `to_id`, and record the outcome with [`SetupRun::link_created`].
    CreateLink { from_id: i64, to_id: i64 },
    /// Every phase has completed; the run is over.
    Done,
}

/// One setup run over one project: the only cross-phase state is the two
/// lookup tables and the link cursor, all discarded with the run.
pub struct SetupRun {
    project: Project,
    milestone_ids: Vec<i64>,
    issue_ids: Vec<i64>,
    link_issue: usize,
    link_dep: usize,
    history: Ghost<Seq<SetupCall>>,
}

impl View for SetupRun {
    type V = SetupModel;

    closed spec fn view(&self) -> SetupModel {
        SetupModel {
            project: self.project@,
            milestone_ids: self.milestone_ids@,
            issue_ids: self.issue_ids@,
            link_issue: self.link_issue as int,
            link_dep: self.link_dep as int,
            history: self.history@,
        }
    }
}

/// Clones a vector of strings element by element.
fn clone_string_vec(v: &Vec<String>) -> (r: Vec<String>)
    ensures
        r@ == v@,
{
    let mut r: Vec<String> = Vec::new();
    let mut i: usize = 0;
    while i < v.len()
        invariant
            i <= v.len(),
            r@.len() == i,
            forall|j: int| 0 <= j < i ==> r@[j] == v@[j],
        decreases v.len() - i,
    {
        r.push(v[i].clone());
        i += 1;
    }
    proof {
        assert(r@ =~= v@);
    }
    r
}

impl SetupRun {
    /// Starts a setup run over the given project, with empty lookup
    /// tables and an empty history.
    pub fn new(project: Project) -> (r: SetupRun)
        ensures
            r@.project == project@,
            r@.milestone_ids.len() == 0,
            r@.issue_ids.len() == 0,
            r@.history.len() == 0,
            r@.wf(),
    {
        SetupRun {
            project,
            milestone_ids: Vec::new(),
            issue_ids: Vec::new(),
            link_issue: 0,
            link_dep: 0,
            history: Ghost(Seq::empty()),
        }
    }

    /// The remote id recorded for a milestone version, if the version has
    /// been created: the latest creation wins.
    pub fn milestone_id_of(&self, version: &String) -> (r: Option<i64>)
        requires
            self@.milestone_ids.len() <= self@.project.milestones.len(),
        ensures
            r == lookup(self@.vtable(), version@),
    {
        let ghost table = self@.vtable();
        let mut k: usize = self.milestone_ids.len();
        proof {
            assert(table.take(k as int) =~= table);
        }
        while k > 0
            invariant
                k <= self.milestone_ids.len(),
                self.milestone_ids@.len() <= self.project.milestones@.len(),
                table == self@.vtable(),
                lookup(table, version@) == lookup(table.take(k as int), version@),
            decreases k,
        {
            k -= 1;
            proof {
                assert(table.take(k + 1).last() == table[k as int]);
                assert(table[k as int].0 == self@.project.milestones[k as int].version);
                assert(self@.project.milestones[k as int]
                    == self.project.milestones@[k as int].deep_view());
            }
            if self.project.milestones[k].version == *version {
                return Option::Some(self.milestone_ids[k]);
            }
            proof {
                assert(table.take(k + 1).drop_last() =~= table.take(k as int));
            }
        }
        proof {
            assert(table.take(0).len() == 0);
        }
        Option::None
    }

    /// The remote id recorded for an issue title, if the title has been
    /// created: the latest creation wins.
    pub fn issue_id_of(&self, title: &String) -> (r: Option<i64>)
        requires
            self@.issue_ids.len() <= self@.project.issues.len(),
        ensures
            r == lookup(self@.ttable(), title@),
    {
        let ghost table = self@.ttable();
        let mut k: usize = self.issue_ids.len();
        proof {
            assert(table.take(k as int) =~= table);
        }
        while k > 0
            invariant
                k <= self.issue_ids.len(),
                self.issue_ids@.len() <= self.project.issues@.len(),
                table == self@.ttable(),
                lookup(table, title@) == lookup(table.take(k as int), title@),
            decreases k,
        {
            k -= 1;
            proof {
                assert(table.take(k + 1).last() == table[k as int]);
                assert(table[k as int].0 == self@.project.issues[k as int].title);
                assert(self@.project.issues[k as int]
                    == self.project.issues@[k as int].deep_view());
            }
            if self.project.issues[k].title == *title {
                return Option::Some(self.issue_ids[k]);
            }
            proof {
                assert(table.take(k + 1).drop_last() =~= table.take(k as int));
            }
        }
        proof {
            assert(table.take(0).len() == 0);
        }
        Option::None
    }

    /// The next remote call of the run, in strict phase order: the next
    /// milestone while any remains, else the next issue — failing with
    /// `NotFound` when its version reference does not resolve — else the
    /// next matching dependency link, else `Done`.
    pub fn next_step(&self) -> (r: Result<SetupStep, ProviderError>)
        requires
            self@.wf(),
        ensures
            !self@.milestones_done() ==> (r matches Ok(step) && step matches
                SetupStep::CreateMilestone { index, milestone } && index
                == self@.milestone_ids.len() && milestone@ == self@.project.milestones[index as int]),
            self@.awaiting_issue() && self@.next_issue_resolves() ==> (r matches Ok(step)
                && step matches SetupStep::CreateIssue {
                index,
                title,
                body,
                milestone_id,
                labels,
            } && index == self@.issue_ids.len() && title@ == self@.project.issues[index as int].title && body@ == issue_body_markdown(self@.project.issues[index as int].description)
                && Option::Some(milestone_id) == lookup(
                self@.vtable(),
                self@.project.issues[index as int].milestone,
            ) && labels.deep_view() == self@.project.issues[index as int].labels),
            self@.awaiting_issue() && !self@.next_issue_resolves() ==> (r matches Err(e)
                && e matches ProviderError::NotFound(msg) && msg@ == "Milestone not found: "@
                + self@.project.issues[self@.issue_ids.len() as int].milestone),
            self@.milestones_done() && self@.issues_done() && self@.cursor_at_match() ==> (
            r matches Ok(step) && step matches SetupStep::CreateLink { from_id, to_id }
                && Option::Some(from_id) == lookup(
                self@.ttable(),
                self@.project.issues[self@.link_issue].title,
            ) && Option::Some(to_id) == lookup(
                self@.ttable(),
                self@.project.issues[self@.link_issue].dependencies[self@.link_dep],
            )),
            self@.setup_done() ==> (r matches Ok(step) && step matches SetupStep::Done),
            r is Err <==> self@.awaiting_issue() && !self@.next_issue_resolves(),
    {
        if self.milestone_ids.len() < self.project.milestones.len() {
            let index = self.milestone_ids.len();
            let milestone = self.project.milestones[index].clone();
            proof {
                assert(self@.project.milestones[index as int]
                    == self.project.milestones@[index as int].deep_view());
            }
            Result::Ok(SetupStep::CreateMilestone { index, milestone })
        } else if self.issue_ids.len() < self.project.issues.len() {
            let index = self.issue_ids.len();
            proof {
                assert(self@.project.issues[index as int]
                    == self.project.issues@[index as int].deep_view());
            }
            match self.milestone_id_of(&self.project.issues[index].milestone) {
                Option::Some(milestone_id) => {
                    let issue = &self.project.issues[index];
                    let body = issue.description.to_issue_body();
                    let labels = clone_string_vec(&issue.labels);
                    proof {
                        assert(labels.deep_view() =~= issue.labels.deep_view());
                    }
                    Result::Ok(
                        SetupStep::CreateIssue {
                            index,
                            title: issue.title.clone(),
                            body,
                            milestone_id,
                            labels,
                        },
                    )
                },
                Option::None => {
                    let mut msg = String::from_str("Milestone not found: ");
                    msg.append(self.project.issues[index].milestone.as_str());
                    Result::Err(ProviderError::NotFound(msg))
                },
            }
        } else if self.link_issue < self.project.issues.len() {
            let issue = &self.project.issues[self.link_issue];
            proof {
                assert(self@.project.issues[self@.link_issue]
                    == self.project.issues@[self@.link_issue].deep_view());
                lemma_lookup_some(self@.ttable(), issue.title@);
                assert(self@.ttable()[self@.link_issue].0 == issue.title@);
            }
            let from_id = match self.issue_id_of(&issue.title) {
                Option::Some(id) => id,
                Option::None => unreached(),
            };
            proof {
                assert(self@.project.issues[self@.link_issue].dependencies[self@.link_dep]
                    == issue.dependencies@[self.link_dep as int]@);
            }
            let to_id = match self.issue_id_of(&issue.dependencies[self.link_dep]) {
                Option::Some(id) => id,
                Option::None => unreached(),
            };
            Result::Ok(SetupStep::CreateLink { from_id, to_id })
        } else {
            Result::Ok(SetupStep::Done)
        }
    }

    /// Records the remote id a successful milestone creation returned,
    /// appending the call to the history.
    pub fn milestone_created(&mut self, id: i64)
        requires
            old(self)@.wf(),
            !old(self)@.milestones_done(),
        ensures
            final(self)@.wf(),
            final(self)@.project == old(self)@.project,
            final(self)@.milestone_ids == old(self)@.milestone_ids.push(id),
            final(self)@.issue_ids == old(self)@.issue_ids,
            final(self)@.link_issue == old(self)@.link_issue,
            final(self)@.link_dep == old(self)@.link_dep,
            final(self)@.history == old(self)@.history.push(
                (SetupCall::Milestone { index: old(self)@.milestone_ids.len() as int }),
            ),
    {
        let ghost pre = self@;
        self.milestone_ids.push(id);
        self.history = Ghost(
            self.history@.push(SetupCall::Milestone { index: pre.milestone_ids.len() as int }),
        );
        proof {
            let post = self@;
            assert(post.issue_ids.len() == 0);
            assert(milestone_calls(post.milestone_ids.len() as int) =~= milestone_calls(
                pre.milestone_ids.len() as int,
            ).push(SetupCall::Milestone { index: pre.milestone_ids.len() as int }));
            assert(issue_calls(post.project, post.vtable(), 0) =~= Seq::<SetupCall>::empty());
            assert(issue_calls(pre.project, pre.vtable(), 0) =~= Seq::<SetupCall>::empty());
            assert(post.link_issue == 0 && post.link_dep == 0);
            assert(post.history =~= post.trace());
        }
    }

    /// Moves the link cursor forward to the next dependency whose title
    /// matches a created issue, or past the last dependency; the pairs
    /// passed over match nothing and produce no call.
    fn advance_link_cursor(&mut self)
        requires
            old(self)@.wf_base(),
            old(self)@.milestones_done(),
            old(self)@.issues_done(),
        ensures
            final(self)@.wf(),
            final(self)@.project == old(self)@.project,
            final(self)@.milestone_ids == old(self)@.milestone_ids,
            final(self)@.issue_ids == old(self)@.issue_ids,
            final(self)@.history == old(self)@.history,
    {
        let ghost p = self@.project;
        let ghost ttable = self@.ttable();
        let ghost links = link_calls_upto(p, ttable, self@.link_issue, self@.link_dep);
        while self.link_issue < self.project.issues.len()
            invariant
                self@.wf_base(),
                self@.milestones_done(),
                self@.issues_done(),
                p == self@.project,
                ttable == self@.ttable(),
                self@.history == old(self)@.history,
                self@.milestone_ids == old(self)@.milestone_ids,
                self@.issue_ids == old(self)@.issue_ids,
                links == link_calls_upto(p, ttable, self@.link_issue, self@.link_dep),
            ensures
                self@.cursor_at_end() || self@.cursor_at_match(),
            decreases self.project.issues.len() - self.link_issue,
                self.project.issues@[self.link_issue as int].dependencies@.len() - self.link_dep,
        {
            let issue = &self.project.issues[self.link_issue];
            proof {
                assert(self@.project.issues[self@.link_issue]
                    == self.project.issues@[self@.link_issue].deep_view());
            }
            if self.link_dep < issue.dependencies.len() {
                proof {
                    assert(self@.project.issues[self@.link_issue].dependencies[self@.link_dep]
                        == issue.dependencies@[self.link_dep as int]@);
                }
                let found = self.issue_id_of(&issue.dependencies[self.link_dep]);
                if found.is_some() {
                    proof {
                        assert(self@.cursor_at_match());
                    }
                    break ;
                }
                proof {
                    assert(!link_matches(p, ttable, self@.link_issue, self@.link_dep));
                    assert(link_calls_upto(p, ttable, self@.link_issue, self@.link_dep + 1)
                        =~= link_calls_upto(p, ttable, self@.link_issue, self@.link_dep));
                }
                self.link_dep += 1;
            } else {
                proof {
                    assert(self@.link_dep == dep_count(p, self@.link_issue));
                    assert(link_calls_upto(p, ttable, self@.link_issue + 1, 0) == link_calls_upto(
                        p,
                        ttable,
                        self@.link_issue,
                        dep_count(p, self@.link_issue),
                    ));
                }
                self.link_issue += 1;
                self.link_dep = 0;
            }
        }
    }

    /// Records the remote id a successful issue creation returned,
    /// appending the call to the history; after the last issue, moves the
    /// link cursor to the first matching dependency.
    pub fn issue_created(&mut self, id: i64)
        requires
            old(self)@.wf(),
            old(self)@.awaiting_issue(),
            old(self)@.next_issue_resolves(),
        ensures
            final(self)@.wf(),
            final(self)@.project == old(self)@.project,
            final(self)@.milestone_ids == old(self)@.milestone_ids,
            final(self)@.issue_ids == old(self)@.issue_ids.push(id),
            final(self)@.history == old(self)@.history.push(
                issue_call(old(self)@.project, old(self)@.vtable(), old(self)@.issue_ids.len() as int),
            ),
    {
        let ghost pre = self@;
        self.issue_ids.push(id);
        self.history = Ghost(
            self.history@.push(issue_call(pre.project, pre.vtable(), pre.issue_ids.len() as int)),
        );
        proof {
            let post = self@;
            assert(post.vtable() == pre.vtable());
            assert(issue_calls(post.project, post.vtable(), post.issue_ids.len() as int)
                =~= issue_calls(pre.project, pre.vtable(), pre.issue_ids.len() as int).push(
                issue_call(pre.project, pre.vtable(), pre.issue_ids.len() as int),
            ));
            assert(post.link_issue == 0 && post.link_dep == 0);
            assert(link_calls_upto(post.project, post.ttable(), 0, 0) =~= Seq::<SetupCall>::empty());
            assert(link_calls_upto(pre.project, pre.ttable(), 0, 0) =~= Seq::<SetupCall>::empty());
            assert(post.history =~= post.trace());
            assert(post.wf_base());
        }
        if self.issue_ids.len() == self.project.issues.len() {
            self.advance_link_cursor();
        }
    }

    /// Records a successful link creation for the dependency the cursor
    /// stands on, appending the call to the history and moving the cursor
    /// to the next matching dependency.
    pub fn link_created(&mut self)
        requires
            old(self)@.wf(),
            old(self)@.milestones_done(),
            old(self)@.issues_done(),
            old(self)@.cursor_at_match(),
        ensures
            final(self)@.wf(),
            final(self)@.project == old(self)@.project,
            final(self)@.milestone_ids == old(self)@.milestone_ids,
            final(self)@.issue_ids == old(self)@.issue_ids,
            final(self)@.history == old(self)@.history.push(
                link_call(
                    old(self)@.project,
                    old(self)@.ttable(),
                    old(self)@.link_issue,
                    old(self)@.link_dep,
                ),
            ),
    {
        let ghost pre = self@;
        self.history = Ghost(
            self.history@.push(link_call(pre.project, pre.ttable(), pre.link_issue, pre.link_dep)),
        );
        proof {
            assert(pre.project.issues[pre.link_issue]
                == self.project.issues@[self.link_issue as int].deep_view());
        }
        let bound = self.project.issues[self.link_issue].dependencies.len();
        proof {
            assert(self.link_dep < bound);
        }
        self.link_dep += 1;
        proof {
            let post = self@;
            assert(link_calls_upto(post.project, post.ttable(), post.link_issue, post.link_dep)
                =~= link_calls_upto(pre.project, pre.ttable(), pre.link_issue, pre.link_dep).push(
                link_call(pre.project, pre.ttable(), pre.link_issue, pre.link_dep),
            ));
            assert(post.history =~= post.trace());
            assert(post.wf_base());
        }
        self.advance_link_cursor();
    }
}

/// A successful run has performed exactly one milestone-create call per
/// declared milestone, then exactly one issue-create call per declared
/// issue, then exactly one link call per dependency whose title matches an
/// issue of the project, in that phase order and declaration order.
pub proof fn lemma_successful_run_trace(m: SetupModel)
    requires
        m.wf(),
        m.setup_done(),
    ensures
        m.history == milestone_calls(m.project.milestones.len() as int) + issue_calls(
            m.project,
            m.vtable(),
            m.project.issues.len() as int,
        ) + all_link_calls(m.project, m.ttable()),
        m.history.len() == m.project.milestones.len() + m.project.issues.len() + valid_edge_count(
            m.project,
            m.ttable(),
        ),
        forall|j: int|
            0 <= j < m.project.milestones.len() ==> m.history[j] == (SetupCall::Milestone {
                index: j,
            }),
        forall|j: int|
            m.project.milestones.len() <= j < m.project.milestones.len()
                + m.project.issues.len() ==> m.history[j] == issue_call(
                m.project,
                m.vtable(),
                j - m.project.milestones.len(),
            ),
        forall|j: int|
            m.project.milestones.len() + m.project.issues.len() <= j < m.history.len()
                ==> (m.history[j] is Link),
{
    lemma_link_calls_count(m.project, m.ttable(), m.project.issues.len() as int, 0);
    let nm = m.project.milestones.len() as int;
    let ni = m.project.issues.len() as int;
    let links = all_link_calls(m.project, m.ttable());
    lemma_all_titles_present(m);
    lemma_upto_elements(m.project, m.ttable(), ni, 0);
    assert forall|j: int| nm + ni <= j < m.history.len() implies m.history[j] is Link by {
        assert(m.history[j] == links[j - nm - ni]);
    }
}

/// After the issue phase, every declared issue's title resolves in the
/// title table: the issue itself was inserted.
pub proof fn lemma_all_titles_present(m: SetupModel)
    requires
        m.wf_base(),
        m.issues_done(),
    ensures
        forall|ii: int|
            0 <= ii < m.project.issues.len() ==> (lookup(
                m.ttable(),
                (#[trigger] m.project.issues[ii]).title,
            ) is Some),
{
    assert forall|ii: int| 0 <= ii < m.project.issues.len() implies (lookup(
        m.ttable(),
        (#[trigger] m.project.issues[ii]).title,
    ) is Some) by {
        lemma_lookup_some(m.ttable(), m.project.issues[ii].title);
        assert(m.ttable()[ii].0 == m.project.issues[ii].title);
    }
}

/// All calls of the link phase up to a valid cursor position are link
/// calls for in-range, matching dependency pairs, carrying the remote ids
/// their titles resolve to.
pub proof fn lemma_upto_elements(p: ProjectView, ttable: Seq<(Seq<char>, i64)>, i: int, d: int)
    requires
        0 <= i <= p.issues.len(),
        i < p.issues.len() ==> d <= dep_count(p, i),
        i == p.issues.len() ==> d == 0,
        0 <= d,
        forall|ii: int|
            0 <= ii < p.issues.len() ==> (lookup(ttable, (#[trigger] p.issues[ii]).title) is Some),
    ensures
        forall|j: int|
            0 <= j < link_calls_upto(p, ttable, i, d).len() ==> (#[trigger] link_calls_upto(
                p,
                ttable,
                i,
                d,
            )[j] matches SetupCall::Link { issue, dep, from_id, to_id } && 0 <= issue
                < p.issues.len() && 0 <= dep < dep_count(p, issue) && link_matches(
                p,
                ttable,
                issue,
                dep,
            ) && Option::Some(from_id) == lookup(ttable, p.issues[issue].title)
                && Option::Some(to_id) == lookup(ttable, p.issues[issue].dependencies[dep])),
    decreases i, d,
{
    if i < 0 || d < 0 {
    } else if d > 0 {
        lemma_upto_elements(p, ttable, i, d - 1);
    } else if i > 0 {
        lemma_upto_elements(p, ttable, i - 1, dep_count(p, i - 1));
    }
}

/// While the milestone phase has not completed, the run has made milestone
/// calls only — the first failure aborts before any issue or link call.
pub proof fn lemma_fail_fast_before_issues(m: SetupModel)
    requires
        m.wf(),
        !m.milestones_done(),
    ensures
        m.history.len() == m.milestone_ids.len(),
        forall|j: int|
            0 <= j < m.history.len() ==> m.history[j] == (SetupCall::Milestone { index: j }),
{
    assert(m.issue_ids.len() == 0);
    assert(m.link_issue == 0 && m.link_dep == 0);
}

/// When the next issue's version reference does not resolve, the run has
/// made only the milestone calls and the issue calls already recorded;
/// the missing version is one no created milestone declares.
pub proof fn lemma_missing_milestone_fails(m: SetupModel)
    requires
        m.wf(),
        m.awaiting_issue(),
        !m.next_issue_resolves(),
    ensures
        m.history == milestone_calls(m.project.milestones.len() as int) + issue_calls(
            m.project,
            m.vtable(),
            m.issue_ids.len() as int,
        ),
        m.history.len() == m.project.milestones.len() + m.issue_ids.len(),
        forall|k: int|
            0 <= k < m.project.milestones.len() ==> (#[trigger] m.project.milestones[k]).version
                != m.project.issues[m.issue_ids.len() as int].milestone,
{
    assert(m.link_issue == 0 && m.link_dep == 0);
    lemma_lookup_some(m.vtable(), m.project.issues[m.issue_ids.len() as int].milestone);
    assert forall|k: int| 0 <= k < m.project.milestones.len() implies (
    #[trigger] m.project.milestones[k]).version != m.project.issues[m.issue_ids.len() as int].milestone by {
        assert(m.vtable()[k].0 == m.project.milestones[k].version);
    }
}

/// Every link call a well-formed run has made is for a dependency whose
/// title matches a created issue: unmatched dependency titles never
/// produce a call.
pub proof fn lemma_links_only_for_matched_deps(m: SetupModel)
    requires
        m.wf(),
    ensures
        forall|j: int|
            0 <= j < m.history.len() && m.history[j] is Link ==> (#[trigger] m.history[j] matches
                SetupCall::Link { issue, dep, from_id, to_id } && 0 <= issue < m.project.issues.len()
                && 0 <= dep < dep_count(m.project, issue) && link_matches(
                m.project,
                m.ttable(),
                issue,
                dep,
            ) && Option::Some(from_id) == lookup(m.ttable(), m.project.issues[issue].title)
                && Option::Some(to_id) == lookup(
                m.ttable(),
                m.project.issues[issue].dependencies[dep],
            )),
{
    let nm = m.milestone_ids.len() as int;
    let ni = m.issue_ids.len() as int;
    let links = link_calls_upto(m.project, m.ttable(), m.link_issue, m.link_dep);
    if m.issues_done() {
        lemma_all_titles_present(m);
        lemma_upto_elements(m.project, m.ttable(), m.link_issue, m.link_dep);
    } else {
        assert(m.link_issue == 0 && m.link_dep == 0);
    }
    assert forall|j: int| 0 <= j < m.history.len() && m.history[j] is Link implies (
    #[trigger] m.history[j] matches SetupCall::Link { issue, dep, from_id, to_id } && 0 <= issue
        < m.project.issues.len() && 0 <= dep < dep_count(m.project, issue) && link_matches(
        m.project,
        m.ttable(),
        issue,
        dep,
    ) && Option::Some(from_id) == lookup(m.ttable(), m.project.issues[issue].title)
        && Option::Some(to_id) == lookup(m.ttable(), m.project.issues[issue].dependencies[dep])) by {
        if j < nm {
            assert(m.history[j] == milestone_calls(nm)[j]);
            assert(m.history[j] is Milestone);
        } else if j < nm + ni {
            assert(m.history[j] == issue_calls(m.project, m.vtable(), ni)[j - nm]);
            assert(m.history[j] is Issue);
        } else {
            assert(m.history[j] == links[j - nm - ni]);
        }
    }
}

} // verus!

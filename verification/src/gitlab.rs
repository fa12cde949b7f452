//! Wrapper types for the GitLab webhook payload and the CI event validator:
//! the decision whether a reported pipeline run justifies a redeploy.

use vstd::prelude::*;

verus! {

/// Outcome reported for one CI build within a pipeline event.
#[derive(Clone, Copy, Debug, PartialEq, Eq, Structural)]
pub enum Status {
    Skipped,
    Success,
    Created,
    Failed,
}

/// A build's status counts toward a redeploy only when it finished well or
/// was skipped; `Created` (still pending) and `Failed` both veto.
pub open spec fn status_passed_or_skipped(s: Status) -> bool {
    s is Success || s is Skipped
}

/// One build entry of a pipeline-completion event.
#[derive(Clone, Copy, Debug, PartialEq, Eq, Structural)]
pub struct Build {
    pub status: Status,
}

/// The attributes of a pipeline event that the validator reads.
#[derive(Debug)]
pub struct ObjectAttributes {
    pub object_ref: String,
}

/// A pipeline-completion event: the branch it ran on and its build outcomes.
#[derive(Debug)]
pub struct Pipeline {
    pub builds: Vec<Build>,
    pub object_attributes: ObjectAttributes,
}

pub open spec fn all_passed_or_skipped(builds: Seq<Build>) -> bool {
    forall|i: int| 0 <= i < builds.len() ==> status_passed_or_skipped(builds[i].status)
}

impl Pipeline {
    /// The full decision predicate over a pipeline event: the branch matches,
    /// at least one build was reported, and every build passed or was skipped.
    pub open spec fn spec_should_redeploy(&self, branch: Seq<char>) -> bool {
        &&& self.object_attributes.object_ref@ == branch
        &&& self.builds@.len() > 0
        &&& all_passed_or_skipped(self.builds@)
    }

    /// The decision against the default branch name `master`.
    pub open spec fn spec_should_rerun(&self) -> bool {
        self.spec_should_redeploy("master"@)
    }

    /// Decide whether this pipeline run justifies a redeploy of the
    /// configured branch.
    pub fn should_redeploy(&self, branch: &str) -> (r: bool)
        ensures
            r == self.spec_should_redeploy(branch@),
    {
        self.matches_branch(branch) && self.has_builds() && self.all_builds_passed_or_skipped()
    }

    /// The decision against the default branch name `master`.
    pub fn should_rerun_pipeline(&self) -> (r: bool)
        ensures
            r == self.spec_should_rerun(),
    {
        self.is_master() && self.has_builds() && self.all_builds_passed_or_skipped()
    }

    /// Exact, case-sensitive comparison of the event's branch reference
    /// against a configured branch name.
    pub fn matches_branch(&self, branch: &str) -> (r: bool)
        ensures
            r == (self.object_attributes.object_ref@ == branch@),
    {
        let b: String = branch.to_owned();
        self.object_attributes.object_ref == b
    }

    pub fn is_master(&self) -> (r: bool)
        ensures
            r == (self.object_attributes.object_ref@ == "master"@),
    {
        let m: String = "master".to_owned();
        self.object_attributes.object_ref == m
    }

    pub fn has_builds(&self) -> (r: bool)
        ensures
            r == (self.builds@.len() > 0),
    {
        self.builds.len() > 0
    }

    pub fn all_builds_passed_or_skipped(&self) -> (r: bool)
        ensures
            r == all_passed_or_skipped(self.builds@),
    {
        let mut i: usize = 0;
        while i < self.builds.len()
            invariant
                i <= self.builds@.len(),
                forall|j: int| 0 <= j < i ==> status_passed_or_skipped(self.builds@[j].status),
            decreases self.builds@.len() - i,
        {
            let s = self.builds[i].status;
            if !(s == Status::Success || s == Status::Skipped) {
                return false;
            }
            i += 1;
        }
        true
    }
}

/// The closed set of webhook payload kinds. Only `Pipeline` is actionable;
/// the others are accepted but never trigger a redeploy.
#[derive(Debug)]
pub enum Event {
    Pipeline(Pipeline),
    Push,
    TagPush,
    Build,
    Issue,
    Note,
    MergeRequest,
    WikiPage,
}

/// The event-level decision: only a pipeline-completion event can justify a
/// redeploy, and then only when its own predicate holds.
pub open spec fn spec_event_should_redeploy(event: &Event, branch: Seq<char>) -> bool {
    match event {
        Event::Pipeline(p) => p.spec_should_redeploy(branch),
        _ => false,
    }
}

pub fn event_should_redeploy(event: &Event, branch: &str) -> (r: bool)
    ensures
        r == spec_event_should_redeploy(event, branch@),
{
    match event {
        Event::Pipeline(p) => p.should_redeploy(branch),
        _ => false,
    }
}

/// Law: an event that is not a pipeline completion never triggers a redeploy,
/// whatever branch is configured.
pub proof fn lemma_non_pipeline_never_redeploys(event: &Event, branch: Seq<char>)
    requires
        !(event is Pipeline),
    ensures
        !spec_event_should_redeploy(event, branch),
{
}

/// Law: the redeploy decision holds exactly when the branch matches, the
/// build list is non-empty, and every build's status is success or skipped.
pub proof fn lemma_redeploy_decision(p: &Pipeline, branch: Seq<char>)
    ensures
        p.spec_should_redeploy(branch) <==> {
            &&& p.object_attributes.object_ref@ == branch
            &&& p.builds@.len() > 0
            &&& forall|i: int|
                0 <= i < p.builds@.len() ==> (p.builds@[i].status is Success
                    || p.builds@[i].status is Skipped)
        },
{
}

} // verus!

//! From a request to the two endpoints that are to be compared.
//!
//! Nothing is read here. The plan names the comparison; whoever holds the
//! repository carries it out and reports whether the endpoints exist.

use vstd::prelude::*;
use vstd::string::*;
use crate::git::types::{DiffMode, GitRequest};

verus! {

/// One side of a comparison of two commits.
#[derive(Debug, Clone, PartialEq, Eq)]
pub enum Endpoint {
    /// The commit that `HEAD` points to.
    Head,
    /// The commit that a revision string names.
    Revision(String),
}

/// Mathematical value of an [`Endpoint`].
pub enum EndpointView {
    Head,
    Revision(Seq<char>),
}

impl View for Endpoint {
    type V = EndpointView;

    open spec fn view(&self) -> EndpointView {
        match *self {
            Endpoint::Head => EndpointView::Head,
            Endpoint::Revision(name) => EndpointView::Revision(name@),
        }
    }
}

/// A comparison to carry out.
#[derive(Debug, Clone, PartialEq, Eq)]
pub enum DiffPlan {
    /// The working directory against the index.
    IndexToWorkdir,
    /// The index against the tree of the head commit.
    HeadToIndex,
    /// The tree of one commit against the tree of another. `from` is
    /// resolved first.
    TreeToTree { from: Endpoint, to: Endpoint },
}

/// Mathematical value of a [`DiffPlan`].
pub enum DiffPlanView {
    IndexToWorkdir,
    HeadToIndex,
    TreeToTree { from: EndpointView, to: EndpointView },
}

impl View for DiffPlan {
    type V = DiffPlanView;

    open spec fn view(&self) -> DiffPlanView {
        match *self {
            DiffPlan::IndexToWorkdir => DiffPlanView::IndexToWorkdir,
            DiffPlan::HeadToIndex => DiffPlanView::HeadToIndex,
            DiffPlan::TreeToTree { from, to } => DiffPlanView::TreeToTree { from: from@, to: to@ },
        }
    }
}

/// Why a request yields no diff.
#[derive(Debug, Clone, Copy, PartialEq, Eq, Structural)]
pub enum ResolveError {
    /// The commit-range mode was asked for without its two revisions.
    RangeRequired,
    /// An endpoint of the comparison does not exist in the repository.
    Unresolvable,
}

/// The name of the branch that the branch comparison measures against.
pub open spec fn default_branch() -> Seq<char> {
    seq!['m', 'a', 'i', 'n']
}

/// The comparison that a mode stands for, for the modes that need no
/// parameters.
pub open spec fn plan_of_mode(mode: DiffMode) -> Result<DiffPlanView, ResolveError> {
    match mode {
        DiffMode::Unstaged => Ok(DiffPlanView::IndexToWorkdir),
        DiffMode::Staged => Ok(DiffPlanView::HeadToIndex),
        DiffMode::BranchComparison => Ok(
            DiffPlanView::TreeToTree {
                from: EndpointView::Revision(default_branch()),
                to: EndpointView::Head,
            },
        ),
        DiffMode::CommitRange => Err(ResolveError::RangeRequired),
    }
}

/// The comparison of two explicit revisions.
pub open spec fn plan_of_range(from: Seq<char>, to: Seq<char>) -> DiffPlanView {
    DiffPlanView::TreeToTree { from: EndpointView::Revision(from), to: EndpointView::Revision(to) }
}

/// The mode that the result of a request is tagged with.
pub open spec fn request_mode(request: GitRequest) -> DiffMode {
    match request {
        GitRequest::LoadDiff(mode) => mode,
        GitRequest::LoadDiffRange { .. } => DiffMode::CommitRange,
    }
}

/// The comparison that a request stands for.
pub open spec fn plan_of_request(request: GitRequest) -> Result<DiffPlanView, ResolveError> {
    match request {
        GitRequest::LoadDiff(mode) => plan_of_mode(mode),
        GitRequest::LoadDiffRange { from, to } => Ok(plan_of_range(from@, to@)),
    }
}

/// The value of a planning result.
pub open spec fn plan_result_view(
    r: Result<DiffPlan, ResolveError>,
) -> Result<DiffPlanView, ResolveError> {
    match r {
        Ok(plan) => Ok(plan@),
        Err(e) => Err(e),
    }
}

/// The comparison for a mode that needs no parameters. The commit-range
/// mode needs its two revisions and is refused here.
pub fn get_diff_for_mode(mode: DiffMode) -> (r: Result<DiffPlan, ResolveError>)
    ensures
        plan_result_view(r) == plan_of_mode(mode),
        r is Err <==> mode == DiffMode::CommitRange,
{
    match mode {
        DiffMode::Unstaged => Ok(DiffPlan::IndexToWorkdir),
        DiffMode::Staged => Ok(DiffPlan::HeadToIndex),
        DiffMode::BranchComparison => {
            proof {
                reveal_strlit("main");
            }
            let base = String::from_str("main");
            assert(base@ =~= default_branch());
            Ok(DiffPlan::TreeToTree { from: Endpoint::Revision(base), to: Endpoint::Head })
        },
        DiffMode::CommitRange => Err(ResolveError::RangeRequired),
    }
}

/// The comparison of two explicit revisions.
pub fn get_diff_for_range(from: String, to: String) -> (r: DiffPlan)
    ensures
        r@ == plan_of_range(from@, to@),
{
    DiffPlan::TreeToTree { from: Endpoint::Revision(from), to: Endpoint::Revision(to) }
}

/// The mode a request's result is tagged with, and the comparison to carry
/// out for it, if there is one.
pub fn plan_request(request: GitRequest) -> (r: (DiffMode, Result<DiffPlan, ResolveError>))
    ensures
        r.0 == request_mode(request),
        plan_result_view(r.1) == plan_of_request(request),
        r.1 is Err <==> request == GitRequest::LoadDiff(DiffMode::CommitRange),
{
    match request {
        GitRequest::LoadDiff(mode) => (mode, get_diff_for_mode(mode)),
        GitRequest::LoadDiffRange { from, to } => (
            DiffMode::CommitRange,
            Ok(get_diff_for_range(from, to)),
        ),
    }
}

} // verus!

use crate::failure::Failure;
use crate::git;
use vstd::prelude::*;

verus! {

/// What probing the upstream-tracking chain found: one variant per way the
/// chain can stop early, or the two ancestry counts when it ran through.
#[derive(Clone, Copy, PartialEq, Eq, Structural, Debug)]
pub enum DivergenceProbe {
    /// HEAD could not be resolved (for instance, no commits yet).
    NoHead,
    /// HEAD's branch has no configured upstream.
    NoUpstream,
    /// The upstream reference carries no commit identifier.
    UpstreamUnborn,
    /// The ancestry-count query itself failed.
    GraphUnavailable,
    /// Commits reachable from the local target but not the upstream target,
    /// and the other way round.
    Graph { ahead: usize, behind: usize },
}

/// The divergence a probe outcome stands for. Every early stop degrades to
/// `(0, 0)`: divergence is informational, so the absence of a HEAD, of a
/// configured upstream, of an upstream commit, or of an answer from the
/// ancestry query are all shown as no divergence.
pub fn divergence_of(probe: DivergenceProbe) -> (r: (usize, usize))
    ensures
        probe is NoHead ==> r == (0usize, 0usize),
        probe is NoUpstream ==> r == (0usize, 0usize),
        probe is UpstreamUnborn ==> r == (0usize, 0usize),
        probe is GraphUnavailable ==> r == (0usize, 0usize),
        probe matches DivergenceProbe::Graph { ahead, behind } ==> r == (ahead, behind),
{
    match probe {
        DivergenceProbe::Graph { ahead, behind } => (ahead, behind),
        _ => (0, 0),
    }
}

/// Walks the chain HEAD, HEAD's target, the branch's upstream, the
/// upstream's target, the ancestry counts, and records where it stopped.
/// Only a resolvable HEAD without a commit identifier is fatal; every
/// other stop is an expected probe outcome.
pub fn probe_divergence(repo: &git2::Repository) -> (r: Result<DivergenceProbe, Failure>)
    ensures
        r matches Err(f) ==> f is HeadTarget,
{
    let head = match git::repo_head(repo) {
        Ok(h) => h,
        Err(_) => {
            return Ok(DivergenceProbe::NoHead);
        },
    };
    let local = match git::reference_target_bytes(&head) {
        Some(o) => o,
        None => {
            return Err(Failure::HeadTarget);
        },
    };
    let upstream = match git::upstream_reference(head) {
        Ok(u) => u,
        Err(_) => {
            return Ok(DivergenceProbe::NoUpstream);
        },
    };
    let upstream_oid = match git::reference_target_bytes(&upstream) {
        Some(o) => o,
        None => {
            return Ok(DivergenceProbe::UpstreamUnborn);
        },
    };
    match git::graph_ahead_behind(repo, &local, &upstream_oid) {
        Ok(counts) => Ok(DivergenceProbe::Graph { ahead: counts.0, behind: counts.1 }),
        Err(_) => Ok(DivergenceProbe::GraphUnavailable),
    }
}

/// How far the current branch has diverged from its configured upstream:
/// the probe followed by the pure resolution, so that any early stop in
/// the chain yields `(0, 0)`.
pub fn ahead_behind(repo: &git2::Repository) -> (r: Result<(usize, usize), Failure>)
    ensures
        r matches Err(f) ==> f is HeadTarget,
{
    let probe = match probe_divergence(repo) {
        Ok(p) => p,
        Err(f) => {
            return Err(f);
        },
    };
    Ok(divergence_of(probe))
}

} // verus!

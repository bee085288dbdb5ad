use vstd::prelude::*;

verus! {

#[verifier::external_type_specification]
#[verifier::external_body]
pub struct ExRepository(git2::Repository);

#[verifier::external_type_specification]
#[verifier::external_body]
pub struct ExReference<'a>(git2::Reference<'a>);

#[verifier::external_type_specification]
#[verifier::external_body]
pub struct ExConfig(git2::Config);

#[verifier::external_type_specification]
#[verifier::external_body]
pub struct ExError(git2::Error);

/// Relies on Repository::head: resolves the repository's HEAD reference,
/// failing for instance on a repository with no commits yet.
#[verifier::external_body]
pub(crate) fn repo_head<'r>(repo: &'r git2::Repository) -> Result<
    git2::Reference<'r>,
    git2::Error,
> {
    repo.head()
}

/// Relies on Repository::find_reference: looks a reference up by its full name.
#[verifier::external_body]
pub(crate) fn find_reference<'r>(repo: &'r git2::Repository, name: &str) -> Result<
    git2::Reference<'r>,
    git2::Error,
> {
    repo.find_reference(name)
}

/// Relies on Reference::is_branch: whether the reference is a local branch.
#[verifier::external_body]
pub(crate) fn reference_is_branch(r: &git2::Reference<'_>) -> bool {
    r.is_branch()
}

/// Relies on Reference::target: the object id a direct reference points to,
/// `None` for a symbolic reference. An object id is twenty raw bytes.
#[verifier::external_body]
pub(crate) fn reference_target_bytes(r: &git2::Reference<'_>) -> (o: Option<Vec<u8>>)
    ensures
        o matches Some(b) ==> b@.len() == 20,
{
    r.target().map(|oid| oid.as_bytes().to_vec())
}

/// Relies on Reference::symbolic_target_bytes: the name a symbolic reference
/// points to, `None` for a direct reference.
#[verifier::external_body]
pub(crate) fn reference_symbolic_target(r: &git2::Reference<'_>) -> Option<Vec<u8>> {
    r.symbolic_target_bytes().map(|b| b.to_vec())
}

/// Relies on Branch::name (with Branch::wrap converting the reference): the
/// branch's short name, `Ok(None)` when the name is not valid UTF-8.
#[verifier::external_body]
pub(crate) fn branch_short_name(r: git2::Reference<'_>) -> Result<Option<String>, git2::Error> {
    let branch = git2::Branch::wrap(r);
    match branch.name() {
        Ok(n) => Ok(n.map(|s| s.to_string())),
        Err(e) => Err(e),
    }
}

/// Relies on Branch::upstream (with Branch::wrap and Branch::into_reference
/// converting at either end): the remote-tracking reference the branch is
/// configured to follow, an error when none is configured.
#[verifier::external_body]
pub(crate) fn upstream_reference<'r>(head: git2::Reference<'r>) -> Result<
    git2::Reference<'r>,
    git2::Error,
> {
    let branch = git2::Branch::wrap(head);
    match branch.upstream() {
        Ok(u) => Ok(u.into_reference()),
        Err(e) => Err(e),
    }
}

/// Relies on Repository::graph_ahead_behind (with Oid::from_bytes converting
/// the arguments): how many commits each of the two given commits is ahead
/// of the other along the ancestry graph.
#[verifier::external_body]
pub(crate) fn graph_ahead_behind(
    repo: &git2::Repository,
    local: &Vec<u8>,
    upstream: &Vec<u8>,
) -> Result<(usize, usize), git2::Error>
    requires
        local@.len() == 20,
        upstream@.len() == 20,
{
    let l = match git2::Oid::from_bytes(local) {
        Ok(o) => o,
        Err(e) => return Err(e),
    };
    let u = match git2::Oid::from_bytes(upstream) {
        Ok(o) => o,
        Err(e) => return Err(e),
    };
    repo.graph_ahead_behind(l, u)
}

/// Relies on Repository::statuses, called with untracked files included,
/// each entry converted to the raw bits of its status flag set.
#[verifier::external_body]
pub(crate) fn status_bits(repo: &git2::Repository) -> Result<Vec<u32>, git2::Error> {
    let mut opts = git2::StatusOptions::new();
    opts.include_untracked(true);
    match repo.statuses(Some(&mut opts)) {
        Ok(statuses) => Ok(statuses.iter().map(|entry| entry.status().bits()).collect()),
        Err(e) => Err(e),
    }
}

/// Relies on Repository::config: opens the configuration for the repository.
#[verifier::external_body]
pub(crate) fn repo_config(repo: &git2::Repository) -> Result<git2::Config, git2::Error> {
    repo.config()
}

/// Relies on Config::get_i32: the value of a configuration key as an integer,
/// an error when the key is absent or not a number.
#[verifier::external_body]
pub(crate) fn config_i32(config: &git2::Config, name: &str) -> Result<i32, git2::Error> {
    config.get_i32(name)
}

} // verus!

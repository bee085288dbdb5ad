use vstd::prelude::*;

verus! {

/// The fatal conditions: situations the classification logic treats as
/// invariant violations, to be reported with a diagnostic and a non-zero
/// exit rather than a possibly wrong prompt line.
#[derive(Clone, Copy, PartialEq, Eq, Structural, Debug)]
pub enum Failure {
    /// The status enumeration call failed.
    StatusQuery,
    /// A resolvable HEAD carries no commit identifier where one must exist.
    HeadTarget,
    /// A checked-out branch's name cannot be read.
    BranchName,
    /// The repository's configuration cannot be opened.
    ConfigOpen,
}

impl Failure {
    /// The diagnostic to print for this condition.
    pub fn message(&self) -> (r: &'static str)
        ensures
            *self is StatusQuery ==> r@ == "Unable to gather status information."@,
            *self is HeadTarget ==> r@ == "Unable to determine Oid of head."@,
            *self is BranchName ==> r@ == "Unable to determine name of branch."@,
            *self is ConfigOpen ==> r@ == "Unable to open config for this repository."@,
    {
        match self {
            Failure::StatusQuery => "Unable to gather status information.",
            Failure::HeadTarget => "Unable to determine Oid of head.",
            Failure::BranchName => "Unable to determine name of branch.",
            Failure::ConfigOpen => "Unable to open config for this repository.",
        }
    }
}

} // verus!

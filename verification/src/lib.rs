//! Classification logic for a shell-prompt line summarising the state of a
//! version-control repository: working-tree status buckets, upstream
//! divergence, a label for the current checkout position, and the formatted
//! report built from the three.

pub mod divergence;
pub mod failure;
mod git;
pub mod head;
pub mod report;
pub mod status;
pub mod text;

use vstd::prelude::*;

verus! {

/// The whole report for one repository: the three independent queries,
/// then the formatter. The first fatal condition found is handed back in
/// place of a line; a successful line always has the shape
/// `report::spec_report` lays down.
pub fn prompt_line(repo: &git2::Repository) -> (r: Result<String, failure::Failure>)
    ensures
        r matches Ok(line) ==> exists|
            label: Seq<char>,
            ahead: nat,
            behind: nat,
            c: status::Counts,
        | line@ == report::spec_report(label, ahead, behind, c),
{
    let counts = match status::status_counts(repo) {
        Ok(c) => c,
        Err(f) => {
            return Err(f);
        },
    };
    let divergence = match divergence::ahead_behind(repo) {
        Ok(d) => d,
        Err(f) => {
            return Err(f);
        },
    };
    let name = match head::branch_name(repo) {
        Ok(n) => n,
        Err(f) => {
            return Err(f);
        },
    };
    let line = report::format_report(name.as_str(), divergence.0, divergence.1, &counts);
    proof {
        assert(line@ == report::spec_report(
            name@,
            divergence.0 as nat,
            divergence.1 as nat,
            counts,
        ));
    }
    Ok(line)
}

} // verus!

use crate::failure::Failure;
use crate::git;
use crate::text::{hex_digit_str, hex_of, nibble_at, push_chars};
use vstd::prelude::*;

verus! {

/// The label shown when no real branch name is available: a brand-new,
/// commit-less repository still needs something in the prompt.
pub const FALLBACK_LABEL: &'static str = "master";

/// The shape of the repository's HEAD, the finite states the label is
/// computed from.
#[derive(Debug)]
pub enum HeadState {
    /// Neither HEAD nor the raw `HEAD` reference could be resolved.
    Unresolvable,
    /// HEAD points at a local branch with the given short name.
    OnBranch { name: String },
    /// HEAD is not a branch but still has a symbolic target: an
    /// unborn-style reference.
    DetachedSymbolic,
    /// HEAD points directly at a commit: the twenty raw bytes of its
    /// identifier.
    DetachedAt { oid: Vec<u8> },
}

/// The abbreviation value to use: the configured one where the
/// configuration gave one, else the default of eight.
pub open spec fn abbrev_or_default(abbrev: Option<i32>) -> int {
    match abbrev {
        Some(l) => l as int,
        None => 8,
    }
}

/// How many characters of the detached label survive truncation to one
/// more than the abbreviation value `l`. The sum is taken as the machine
/// takes it: a sum below zero wraps far above the label's length, so
/// everything but the sums zero through forty leaves the whole
/// forty-one-character label.
pub open spec fn keep_of(l: int) -> int {
    if 0 <= l + 1 && l + 1 < 41 {
        l + 1
    } else {
        41
    }
}

/// The label for a detached checkout: a `:` marker, the forty hexadecimal
/// digits of the commit identifier, truncated to one more character than
/// the abbreviation value.
pub open spec fn spec_detached_label(oid: Seq<u8>, l: int) -> Seq<char> {
    (seq![':'] + hex_of(oid)).take(keep_of(l))
}

/// A detached label for an in-range abbreviation value `l` is exactly
/// `l + 1` characters long and starts with the `:` marker; in particular
/// the default abbreviation of eight gives a nine-character label.
pub proof fn lemma_detached_label_length(oid: Seq<u8>, l: int)
    requires
        oid.len() == 20,
        0 <= l <= 40,
    ensures
        spec_detached_label(oid, l).len() == l + 1,
        spec_detached_label(oid, l)[0] == ':',
{
}

/// The label for a head state: the branch's short name on a branch, the
/// fallback for an unresolvable or symbolic-unborn HEAD (two observably
/// different states with the same output), and the truncated `:`-marked
/// commit identifier for a detached checkout.
pub fn label_of(state: &HeadState, abbrev: Option<i32>) -> (r: String)
    requires
        *state matches HeadState::DetachedAt { oid } ==> oid@.len() == 20,
    ensures
        *state is Unresolvable ==> r@ == FALLBACK_LABEL@,
        *state is DetachedSymbolic ==> r@ == FALLBACK_LABEL@,
        *state matches HeadState::OnBranch { name } ==> r@ == name@,
        *state matches HeadState::DetachedAt { oid } ==> r@ == spec_detached_label(
            oid@,
            abbrev_or_default(abbrev),
        ),
{
    match state {
        HeadState::Unresolvable => FALLBACK_LABEL.to_owned(),
        HeadState::DetachedSymbolic => FALLBACK_LABEL.to_owned(),
        HeadState::OnBranch { name } => name.clone(),
        HeadState::DetachedAt { oid } => detached_label(oid, abbrev),
    }
}

/// Builds the truncated `:`-marked hexadecimal label for a detached
/// checkout, character by character up to the kept length.
fn detached_label(oid: &Vec<u8>, abbrev: Option<i32>) -> (r: String)
    requires
        oid@.len() == 20,
    ensures
        r@ == spec_detached_label(oid@, abbrev_or_default(abbrev)),
{
    let l: i32 = match abbrev {
        Some(v) => v,
        None => 8,
    };
    let sum: i64 = l as i64 + 1;
    let keep: usize = if 0 <= sum && sum < 41 {
        sum as usize
    } else {
        41
    };
    proof {
        assert(keep == keep_of(abbrev_or_default(abbrev)));
    }
    let ghost full: Seq<char> = seq![':'] + hex_of(oid@);
    let mut s = String::new();
    let mut p: usize = 0;
    while p < keep
        invariant
            p <= keep,
            keep <= 41,
            oid@.len() == 20,
            full == seq![':'] + hex_of(oid@),
            s@ == full.take(p as int),
        decreases keep - p,
    {
        if p == 0 {
            proof {
                reveal_strlit(":");
                assert(":"@ =~= seq![full[0]]);
            }
            push_chars(&mut s, ":");
        } else {
            let digit = hex_digit_str(nibble_at(oid, p - 1));
            proof {
                assert(full[p as int] == hex_of(oid@)[p - 1]);
                assert(digit@ =~= seq![full[p as int]]);
            }
            push_chars(&mut s, digit);
        }
        proof {
            assert(full.take(p + 1) =~= full.take(p as int) + seq![full[p as int]]);
        }
        p = p + 1;
    }
    s
}

/// Classifies the shape of HEAD. A failing `head` resolution falls back to
/// the raw `HEAD` reference before the state counts as unresolvable; a
/// branch whose name cannot be read, and a direct reference without a
/// commit identifier, are the fatal conditions `BranchName` and
/// `HeadTarget`.
pub fn probe_head(repo: &git2::Repository) -> (r: Result<HeadState, Failure>)
    ensures
        r matches Ok(state) ==> (state matches HeadState::DetachedAt { oid } ==> oid@.len() == 20),
        r matches Err(f) ==> f is BranchName || f is HeadTarget,
{
    let head = match git::repo_head(repo) {
        Ok(h) => h,
        Err(_) => {
            match git::find_reference(repo, "HEAD") {
                Ok(h) => h,
                Err(_) => {
                    return Ok(HeadState::Unresolvable);
                },
            }
        },
    };
    if git::reference_is_branch(&head) {
        match git::branch_short_name(head) {
            Ok(Some(name)) => Ok(HeadState::OnBranch { name }),
            _ => Err(Failure::BranchName),
        }
    } else {
        match git::reference_symbolic_target(&head) {
            Some(_) => Ok(HeadState::DetachedSymbolic),
            None => {
                match git::reference_target_bytes(&head) {
                    Some(oid) => Ok(HeadState::DetachedAt { oid }),
                    None => Err(Failure::HeadTarget),
                }
            },
        }
    }
}

/// The label for the current checkout position. On a branch, or with an
/// unresolvable HEAD, the configuration is never touched; for either
/// detached shape the configuration is opened first (a failure there is
/// the fatal condition `ConfigOpen`) and the abbreviation value is read
/// from `core.abbrev`, falling back to the default where the key is
/// absent or unreadable.
pub fn branch_name(repo: &git2::Repository) -> (r: Result<String, Failure>)
    ensures
        r matches Err(f) ==> f is BranchName || f is HeadTarget || f is ConfigOpen,
{
    let state = match probe_head(repo) {
        Ok(s) => s,
        Err(f) => {
            return Err(f);
        },
    };
    match &state {
        HeadState::Unresolvable | HeadState::OnBranch { .. } => Ok(label_of(&state, None)),
        _ => {
            let config = match git::repo_config(repo) {
                Ok(c) => c,
                Err(_) => {
                    return Err(Failure::ConfigOpen);
                },
            };
            let abbrev = match git::config_i32(&config, "core.abbrev") {
                Ok(l) => Some(l),
                Err(_) => None,
            };
            Ok(label_of(&state, abbrev))
        },
    }
}

} // verus!

use crate::failure::Failure;
use crate::git;
use vstd::prelude::*;

verus! {

/// Bit values of the per-entry status flags handed back by the repository
/// library, as libgit2 defines them: bits 0 through 4 are the index
/// (staged) states, bit 7 is worktree-new, bits 8 through 11 are the
/// worktree (unstaged) edit states, and bit 15 is the conflict state.
pub const STAGED_FLAGS: u32 = 0x1f;

/// Worktree-modified, worktree-deleted, worktree-type-changed and
/// worktree-renamed.
pub const CHANGED_FLAGS: u32 = 0xf00;

/// The conflicted flag.
pub const CONFLICTED_FLAG: u32 = 0x8000;

/// The worktree-new flag.
pub const UNTRACKED_FLAG: u32 = 0x80;

/// The four mutually exclusive buckets a status entry can fall into,
/// plus the case where it falls into none of them.
#[derive(Clone, Copy, PartialEq, Eq, Structural, Debug)]
pub enum Bucket {
    Staged,
    Changed,
    Conflicted,
    Untracked,
    Unclassified,
}

pub open spec fn is_staged(s: u32) -> bool {
    s & STAGED_FLAGS != 0
}

pub open spec fn is_changed(s: u32) -> bool {
    s & CHANGED_FLAGS != 0
}

pub open spec fn is_conflicted(s: u32) -> bool {
    s & CONFLICTED_FLAG != 0
}

pub open spec fn is_untracked(s: u32) -> bool {
    s & UNTRACKED_FLAG != 0
}

/// The bucket an entry with flag set `s` contributes to: the first match in
/// the priority order staged, changed, conflicted, untracked, so that an
/// entry is never counted twice however many groups its flags touch.
pub open spec fn bucket_of(s: u32) -> Bucket {
    if is_staged(s) {
        Bucket::Staged
    } else if is_changed(s) {
        Bucket::Changed
    } else if is_conflicted(s) {
        Bucket::Conflicted
    } else if is_untracked(s) {
        Bucket::Untracked
    } else {
        Bucket::Unclassified
    }
}

/// An entry falls into exactly one bucket, chosen by priority: matching a
/// staged flag wins over everything else, and an entry matching both a
/// staged and a changed flag counts only as staged.
pub proof fn lemma_bucket_exclusive(s: u32)
    ensures
        bucket_of(s) is Staged <==> is_staged(s),
        bucket_of(s) is Changed <==> !is_staged(s) && is_changed(s),
        bucket_of(s) is Conflicted <==> !is_staged(s) && !is_changed(s) && is_conflicted(s),
        bucket_of(s) is Untracked <==> !is_staged(s) && !is_changed(s) && !is_conflicted(s)
            && is_untracked(s),
        bucket_of(s) is Unclassified <==> !is_staged(s) && !is_changed(s) && !is_conflicted(s)
            && !is_untracked(s),
        is_staged(s) && is_changed(s) ==> bucket_of(s) is Staged,
{
}

/// How many entries of `entries` fall into bucket `b`.
pub open spec fn count_in(entries: Seq<u32>, b: Bucket) -> nat
    decreases entries.len(),
{
    if entries.len() == 0 {
        0
    } else {
        count_in(entries.drop_last(), b) + if bucket_of(entries.last()) == b {
            1nat
        } else {
            0nat
        }
    }
}

pub proof fn lemma_count_in_le_len(entries: Seq<u32>, b: Bucket)
    ensures
        count_in(entries, b) <= entries.len(),
    decreases entries.len(),
{
    if entries.len() > 0 {
        lemma_count_in_le_len(entries.drop_last(), b);
    }
}

/// Every entry contributes to exactly one of the five buckets: the five
/// per-bucket counts partition the entry list.
pub proof fn lemma_counts_partition(entries: Seq<u32>)
    ensures
        count_in(entries, Bucket::Staged) + count_in(entries, Bucket::Changed) + count_in(
            entries,
            Bucket::Conflicted,
        ) + count_in(entries, Bucket::Untracked) + count_in(entries, Bucket::Unclassified)
            == entries.len(),
    decreases entries.len(),
{
    if entries.len() > 0 {
        lemma_counts_partition(entries.drop_last());
    }
}

/// The per-bucket totals of one pass over the status listing.
pub struct Counts {
    pub staged: usize,
    pub changed: usize,
    pub conflicts: usize,
    pub untracked: usize,
}

impl Counts {
    /// The totals `counts` must show for the status listing `entries`.
    pub open spec fn matches(self, entries: Seq<u32>) -> bool {
        &&& self.staged == count_in(entries, Bucket::Staged)
        &&& self.changed == count_in(entries, Bucket::Changed)
        &&& self.conflicts == count_in(entries, Bucket::Conflicted)
        &&& self.untracked == count_in(entries, Bucket::Untracked)
    }

    /// Whether no bucket holds anything: the clean state.
    pub open spec fn is_clean(self) -> bool {
        self.staged == 0 && self.changed == 0 && self.conflicts == 0 && self.untracked == 0
    }
}

/// The bucket an entry with flag set `s` contributes to.
pub fn classify(s: u32) -> (b: Bucket)
    ensures
        b == bucket_of(s),
{
    if s & STAGED_FLAGS != 0 {
        Bucket::Staged
    } else if s & CHANGED_FLAGS != 0 {
        Bucket::Changed
    } else if s & CONFLICTED_FLAG != 0 {
        Bucket::Conflicted
    } else if s & UNTRACKED_FLAG != 0 {
        Bucket::Untracked
    } else {
        Bucket::Unclassified
    }
}

/// One pass over the status listing, attributing each entry to the first
/// matching flag group in the priority order staged, changed, conflicted,
/// untracked, and ignoring entries that match none.
pub fn count_statuses(entries: &Vec<u32>) -> (c: Counts)
    ensures
        c.matches(entries@),
{
    let mut c = Counts { staged: 0, changed: 0, conflicts: 0, untracked: 0 };
    let n = entries.len();
    let mut i: usize = 0;
    while i < n
        invariant
            i <= n,
            n == entries@.len(),
            c.matches(entries@.take(i as int)),
        decreases n - i,
    {
        proof {
            lemma_count_in_le_len(entries@.take(i as int), Bucket::Staged);
            lemma_count_in_le_len(entries@.take(i as int), Bucket::Changed);
            lemma_count_in_le_len(entries@.take(i as int), Bucket::Conflicted);
            lemma_count_in_le_len(entries@.take(i as int), Bucket::Untracked);
            assert(entries@.take(i + 1).drop_last() =~= entries@.take(i as int));
            assert(entries@.take(i + 1).last() == entries@[i as int]);
        }
        match classify(entries[i]) {
            Bucket::Staged => {
                c.staged = c.staged + 1;
            },
            Bucket::Changed => {
                c.changed = c.changed + 1;
            },
            Bucket::Conflicted => {
                c.conflicts = c.conflicts + 1;
            },
            Bucket::Untracked => {
                c.untracked = c.untracked + 1;
            },
            Bucket::Unclassified => {},
        }
        i = i + 1;
    }
    proof {
        assert(entries@.take(n as int) =~= entries@);
    }
    c
}

/// Enumerates the repository's status listing, untracked files included,
/// and classifies every entry. A failing enumeration is the fatal
/// condition `Failure::StatusQuery`; on success the four totals partition
/// the listing as `Counts::matches` states.
pub fn status_counts(repo: &git2::Repository) -> (r: Result<Counts, Failure>)
    ensures
        r matches Err(f) ==> f is StatusQuery,
{
    match git::status_bits(repo) {
        Ok(bits) => Ok(count_statuses(&bits)),
        Err(_) => Err(Failure::StatusQuery),
    }
}

} // verus!

use git_prompt::divergence::{divergence_of, DivergenceProbe};
use git_prompt::failure::Failure;
use git_prompt::head::{label_of, HeadState};
use git_prompt::report::format_report;
use git_prompt::status::{classify, count_statuses, Bucket, Counts};
use git_prompt::text::decimal;

const RESET: &str = "%{\x1b[0m%}";
const BLACK: &str = "%{\x1b[30;1m%}";
const RED: &str = "%{\x1b[31;1m%}";
const GREEN: &str = "%{\x1b[32;1m%}";
const YELLOW: &str = "%{\x1b[33;1m%}";
const BLUE: &str = "%{\x1b[34;1m%}";
const MAGENTA: &str = "%{\x1b[35;1m%}";
const CYAN: &str = "%{\x1b[36;1m%}";

const INDEX_NEW: u32 = 1 << 0;
const INDEX_MODIFIED: u32 = 1 << 1;
const INDEX_DELETED: u32 = 1 << 2;
const INDEX_RENAMED: u32 = 1 << 3;
const INDEX_TYPECHANGE: u32 = 1 << 4;
const WT_NEW: u32 = 1 << 7;
const WT_MODIFIED: u32 = 1 << 8;
const WT_DELETED: u32 = 1 << 9;
const WT_TYPECHANGE: u32 = 1 << 10;
const WT_RENAMED: u32 = 1 << 11;
const IGNORED: u32 = 1 << 14;
const CONFLICTED: u32 = 1 << 15;

fn zero_counts() -> Counts {
    Counts { staged: 0, changed: 0, conflicts: 0, untracked: 0 }
}

#[test]
fn classify_each_staged_flag() {
    for flag in [INDEX_NEW, INDEX_MODIFIED, INDEX_DELETED, INDEX_RENAMED, INDEX_TYPECHANGE] {
        assert_eq!(classify(flag), Bucket::Staged);
    }
}

#[test]
fn classify_each_changed_flag() {
    for flag in [WT_MODIFIED, WT_DELETED, WT_TYPECHANGE, WT_RENAMED] {
        assert_eq!(classify(flag), Bucket::Changed);
    }
}

#[test]
fn classify_conflicted_and_untracked() {
    assert_eq!(classify(CONFLICTED), Bucket::Conflicted);
    assert_eq!(classify(WT_NEW), Bucket::Untracked);
}

#[test]
fn classify_nothing_matching() {
    assert_eq!(classify(0), Bucket::Unclassified);
    assert_eq!(classify(IGNORED), Bucket::Unclassified);
}

#[test]
fn classify_priority_staged_over_changed() {
    assert_eq!(classify(INDEX_MODIFIED | WT_MODIFIED), Bucket::Staged);
    assert_eq!(classify(INDEX_NEW | WT_NEW | CONFLICTED), Bucket::Staged);
}

#[test]
fn classify_priority_changed_over_conflicted_and_untracked() {
    assert_eq!(classify(WT_DELETED | CONFLICTED), Bucket::Changed);
    assert_eq!(classify(WT_MODIFIED | WT_NEW), Bucket::Changed);
    assert_eq!(classify(CONFLICTED | WT_NEW), Bucket::Conflicted);
}

#[test]
fn count_statuses_counts_each_entry_once() {
    let entries = vec![
        INDEX_NEW,
        INDEX_MODIFIED | WT_MODIFIED,
        WT_DELETED,
        CONFLICTED,
        WT_NEW,
        WT_NEW,
        IGNORED,
        0,
    ];
    let c = count_statuses(&entries);
    assert_eq!(c.staged, 2);
    assert_eq!(c.changed, 1);
    assert_eq!(c.conflicts, 1);
    assert_eq!(c.untracked, 2);
}

#[test]
fn count_statuses_empty_listing() {
    let entries: Vec<u32> = vec![];
    let c = count_statuses(&entries);
    assert_eq!(c.staged, 0);
    assert_eq!(c.changed, 0);
    assert_eq!(c.conflicts, 0);
    assert_eq!(c.untracked, 0);
}

#[test]
fn divergence_zero_for_every_early_stop() {
    assert_eq!(divergence_of(DivergenceProbe::NoHead), (0, 0));
    assert_eq!(divergence_of(DivergenceProbe::NoUpstream), (0, 0));
    assert_eq!(divergence_of(DivergenceProbe::UpstreamUnborn), (0, 0));
    assert_eq!(divergence_of(DivergenceProbe::GraphUnavailable), (0, 0));
}

#[test]
fn divergence_passes_graph_counts_through() {
    assert_eq!(divergence_of(DivergenceProbe::Graph { ahead: 2, behind: 5 }), (2, 5));
}

#[test]
fn label_fallback_for_unresolvable_head() {
    assert_eq!(label_of(&HeadState::Unresolvable, None), "master");
}

#[test]
fn label_fallback_for_symbolic_detached_head() {
    assert_eq!(label_of(&HeadState::DetachedSymbolic, None), "master");
    assert_eq!(label_of(&HeadState::DetachedSymbolic, Some(3)), "master");
}

#[test]
fn label_of_branch_is_its_name() {
    let state = HeadState::OnBranch { name: String::from("feature") };
    assert_eq!(label_of(&state, None), "feature");
}

fn sample_oid() -> Vec<u8> {
    vec![
        0xde, 0xad, 0xbe, 0xef, 0x01, 0x23, 0x45, 0x67, 0x89, 0xab, 0xcd, 0xef, 0x00, 0x11, 0x22,
        0x33, 0x44, 0x55, 0x66, 0x77,
    ]
}

#[test]
fn detached_label_default_abbreviation() {
    let state = HeadState::DetachedAt { oid: sample_oid() };
    let label = label_of(&state, None);
    assert_eq!(label, ":deadbeef");
    assert_eq!(label.len(), 9);
}

#[test]
fn detached_label_configured_abbreviation() {
    let state = HeadState::DetachedAt { oid: sample_oid() };
    let label = label_of(&state, Some(7));
    assert_eq!(label, ":deadbee");
    assert_eq!(label.len(), 8);
    assert_eq!(label_of(&state, Some(12)), ":deadbeef0123");
}

#[test]
fn detached_label_extreme_abbreviations() {
    let state = HeadState::DetachedAt { oid: sample_oid() };
    assert_eq!(label_of(&state, Some(0)), ":");
    assert_eq!(label_of(&state, Some(-1)), "");
    let full = ":deadbeef0123456789abcdef0011223344556677";
    assert_eq!(label_of(&state, Some(40)), full);
    assert_eq!(label_of(&state, Some(41)), full);
    assert_eq!(label_of(&state, Some(-2)), full);
    assert_eq!(label_of(&state, Some(i32::MAX)), full);
}

#[test]
fn decimal_renders_exactly() {
    assert_eq!(decimal(0), "0");
    assert_eq!(decimal(7), "7");
    assert_eq!(decimal(10), "10");
    assert_eq!(decimal(12345), "12345");
    assert_eq!(decimal(usize::MAX), "18446744073709551615");
}

#[test]
fn report_clean_repository() {
    let line = format_report("master", 0, 0, &zero_counts());
    let expected = format!("{RESET}master{BLACK}/{GREEN}={BLACK} :: {RESET}");
    assert_eq!(line, expected);
    assert!(line.contains("="));
    assert!(!line.contains('<'));
    assert!(!line.contains('>'));
    assert!(!line.contains('-'));
    assert!(!line.contains('!'));
    assert!(!line.contains('+'));
    assert!(!line.contains('_'));
}

#[test]
fn report_mixed_scenario() {
    let counts = Counts { staged: 2, changed: 0, conflicts: 1, untracked: 3 };
    let line = format_report("feature", 1, 0, &counts);
    let expected =
        format!("{RESET}feature{CYAN}>1{BLACK}/{YELLOW}-2{RED}!1{MAGENTA}_3{BLACK} :: {RESET}");
    assert_eq!(line, expected);
    assert!(!line.contains('<'));
    assert!(!line.contains('+'));
    assert!(!line.contains('='));
}

#[test]
fn report_behind_and_changed() {
    let counts = Counts { staged: 0, changed: 4, conflicts: 0, untracked: 0 };
    let line = format_report("main", 0, 12, &counts);
    let expected = format!("{RESET}main{RED}<12{BLACK}/{BLUE}+4{BLACK} :: {RESET}");
    assert_eq!(line, expected);
}

#[test]
fn failure_messages() {
    assert_eq!(Failure::StatusQuery.message(), "Unable to gather status information.");
    assert_eq!(Failure::HeadTarget.message(), "Unable to determine Oid of head.");
    assert_eq!(Failure::BranchName.message(), "Unable to determine name of branch.");
    assert_eq!(Failure::ConfigOpen.message(), "Unable to open config for this repository.");
}

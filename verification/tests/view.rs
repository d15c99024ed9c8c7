use nits_client_core::explorer::{fuzzy, Progress};
use nits_client_core::focus::Focus;
use nits_client_core::protocol::{RefCandidate, RefSpec, RepoId, RequestId, ViewSection};
use nits_client_core::ref_selector::{
    fuzzy_match, literal_query, step, LiteralQuery, RefSelector, RefSelectorPurpose,
    RefSelectorSide,
};
use nits_client_core::view::{ConnectionView, ViewDelta, ViewModel};

fn sections() -> Vec<ViewSection> {
    vec![
        ViewSection::Connection,
        ViewSection::ReviewList,
        ViewSection::Tree,
        ViewSection::Progress,
        ViewSection::Diff,
        ViewSection::Threads,
        ViewSection::Conversation,
        ViewSection::CommitStepper,
        ViewSection::Draft,
        ViewSection::Focus,
        ViewSection::Hints,
        ViewSection::Help,
        ViewSection::Search,
        ViewSection::RefSelector,
    ]
}

#[test]
fn every_section_has_a_patch_and_full_patches_rebuild_the_view() {
    let source = ViewModel {
        pending_refresh: true,
        focus: Focus::Help,
        progress: Progress {
            viewed: 1,
            changed_since_viewed: 2,
            total: 3,
            additions: 4,
            deletions: 5,
        },
        connection: ConnectionView::Subscribed,
        ..ViewModel::default()
    };
    for s in sections() {
        assert_eq!(source.patch(s).section(), s);
    }
    let mut copy = ViewModel::default();
    for p in source.full_patches() {
        copy.apply(p);
    }
    // `review` is never pushed; everything else arrives.
    assert_eq!(copy.review, None);
    assert_eq!(copy, source);
}

#[test]
fn a_delta_is_pushed_section_by_section_in_the_order_touched() {
    let source = ViewModel { pending_refresh: true, focus: Focus::Help, ..ViewModel::default() };
    let delta = ViewDelta::new(&vec![ViewSection::Help, ViewSection::Focus, ViewSection::Help]);
    let patches = source.patches(&delta);
    assert_eq!(
        patches.iter().map(|p| p.section()).collect::<Vec<ViewSection>>(),
        vec![ViewSection::Help, ViewSection::Focus]
    );
    let mut copy = ViewModel::default();
    for p in patches {
        copy.apply(p);
    }
    assert_eq!(copy.focus, Focus::Help);
    assert!(!copy.pending_refresh);
}

#[test]
fn fuzzy_is_greedy_and_scores_component_starts_and_contiguity() {
    let q: Vec<char> = "srl".chars().collect();
    let (a, m) = fuzzy("src/render/lib.rs", &q).unwrap();
    assert_eq!(m, vec![0, 1, 11]);
    let (b, _) = fuzzy("assets/really/long/name.rs", &q).unwrap();
    assert!(a > b, "{a} vs {b}");
    assert!(fuzzy("nope", &q).is_none());
    // `search` lowercases the query; the text side is folded here.
    let q: Vec<char> = "lib".chars().collect();
    assert!(fuzzy("src/LIB.rs", &q).is_some(), "case-insensitive");
}

#[test]
fn fuzzy_scores_are_exact() {
    let q: Vec<char> = "srl".chars().collect();
    // 10 + 8 for `s`, 10 + 15 for `r`, 10 + 5 + 8 for `l`; 17 bytes cost 4.
    assert_eq!(fuzzy("src/render/lib.rs", &q), Some((62, vec![0, 1, 11])));
    assert_eq!(fuzzy("", &q), None);
    assert_eq!(fuzzy("abcd", &[]), Some((-1, Vec::new())));
    // Offsets are in bytes, and letters fold beyond ASCII.
    assert_eq!(fuzzy("é/Ä", &['ä']), Some((10 + 5 + 8 - 1, vec![3])));
}

#[test]
fn fuzzy_match_is_an_ordered_subsequence() {
    assert!(fuzzy_match("branch feature/ref-selector", "frs"));
    assert!(!fuzzy_match("branch feature/ref-selector", "srf"));
}

fn selector(side: RefSelectorSide, request: u64) -> RefSelector {
    RefSelector::loading(
        RepoId::from_parts(1, 1),
        "repo".to_string(),
        RefSelectorPurpose::Review { side },
        RefSpec::Head,
        RequestId(request),
    )
}

#[test]
fn working_tree_is_offered_only_for_head() {
    let catalog = || vec![RefCandidate { ref_spec: RefSpec::WorkingTree, subject: None }];
    let mut base = selector(RefSelectorSide::Base, 1);
    base.install(catalog());
    assert!(base
        .view
        .options
        .iter()
        .all(|option| { !matches!(option.ref_spec, RefSpec::WorkingTree) }));

    let mut head = selector(RefSelectorSide::Head, 2);
    head.install(catalog());
    assert!(head
        .view
        .options
        .iter()
        .any(|option| { matches!(option.ref_spec, RefSpec::WorkingTree) }));
    assert!(head.matches_request(RepoId::from_parts(1, 1), RequestId(2)));
    assert!(!head.matches_request(RepoId::from_parts(1, 1), RequestId(3)));
}

#[test]
fn queries_narrow_the_options_whatever_their_case() {
    let branch = |name: &str| RefCandidate {
        ref_spec: RefSpec::Branch { name: name.to_string() },
        subject: None,
    };
    let mut head = selector(RefSelectorSide::Head, 2);
    head.install(vec![branch("main"), branch("Ärger")]);
    let offered = |s: &RefSelector| {
        s.view.options.iter().filter(|o| matches!(&o.ref_spec, RefSpec::Branch { .. })).count()
    };
    assert_eq!(offered(&head), 2);
    head.query("ÄR".to_string());
    assert_eq!(offered(&head), 1);
    assert!(head.selection_at(0).is_some());
    assert!(head.selection_at(99).is_none());
    // Blanks beyond ASCII are trimmed too.
    head.query("\u{3000}MAIN\u{2003}".to_string());
    assert_eq!(offered(&head), 1);
    head.query(" \u{a0}".to_string());
    assert_eq!(offered(&head), 2);
    assert_eq!(head.matching("main").len(), 1);
    assert_eq!(head.matching("\u{e4}r").len(), 1);
    assert_eq!(head.matching("nothing like it").len(), 0);
}

#[test]
fn steps_stay_within_the_list() {
    assert_eq!(step(1, 1, 3), 2);
    assert_eq!(step(2, 1, 3), 2);
    assert_eq!(step(0, -1, 3), 0);
    assert_eq!(step(5, 0, 0), 0);
    assert_eq!(step(0, i32::MIN, 3), 0);
}

#[test]
fn literal_queries_name_one_revision() {
    let branch = RefSpec::Branch { name: "main".to_string() };
    assert_eq!(literal_query(" branch:main "), LiteralQuery::Ref(branch));
    assert_eq!(literal_query("HEAD"), LiteralQuery::Ref(RefSpec::Head));
    assert_eq!(literal_query("main"), LiteralQuery::Search);
    assert_eq!(literal_query("fix: main"), LiteralQuery::Search);
    assert_eq!(literal_query("tag:"), LiteralQuery::Invalid);
    assert_eq!(literal_query("commit:main"), LiteralQuery::Invalid);
}

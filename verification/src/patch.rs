//! Section patches: what a host pushes to its UI after a render. A patch
//! carries one section's part of the view. The raw open-review state is
//! never pushed; what the UI shows of it is derived into the sections.
use vstd::prelude::*;

use crate::data;
use crate::data::Value;
use crate::browse::{BrowseView, SpecBrowseView};
use crate::command::Mode;
use crate::diff::{
    CommitStepper, DiffView, SpecCommitStepper, SpecDiffView, SpecThreadView, ThreadView,
};
use crate::explorer::{Progress, SpecTreeView, TreeView};
use crate::focus::Focus;
use crate::home::{DaemonContext, HomeView, SpecDaemonContext, SpecHomeView};
use crate::keymap::{HelpView, Hint, SpecHelpView, SpecHint};
use crate::lifecycle::{DaemonManagement, SpecDaemonManagement};
use crate::protocol::{
    ClientSeq, CommentId, DiffScope, RepoId, RepoPath, ResolvedTarget, Review, ReviewId,
    ReviewReference, ReviewRequest, ReviewerCheckpoint, RpcError, SpecRepoPath, SpecReview,
    SpecReviewReference, SpecReviewRequest, SpecReviewerCheckpoint, SpecRpcError, SpecWorkspace,
    ViewSection, Workspace,
};
use crate::ref_selector::{RefSelectorView, SpecRefSelectorView};
use crate::view::{
    ConnectionView, ContentSearchView, Draft, LastKey, ScrollIntent, SpecConnectionView,
    SpecContentSearchView, SpecDraft, SpecViewModel, Tab, ViewDelta, ViewModel, ViewPrefs,
    VisualView,
};

verus! {

/// The part of the view one section owns.
#[derive(Debug, PartialEq, Eq)]
pub enum ViewPatch {
    /// The connection and the daemon.
    Connection { connection: ConnectionView, last_error: Option<RpcError>, uncertain_mutations: Vec<ClientSeq>, daemon_management: DaemonManagement },
    /// The home screen and the open review.
    ReviewList {
        home: HomeView,
        daemon_context: Option<DaemonContext>,
        active_repo: Option<RepoId>,
        workspaces: Vec<Workspace>,
        reviews: Vec<Review>,
        open_review: Option<ReviewId>,
        resolved_targets: Vec<ResolvedTarget>,
        scope: DiffScope,
        browse: Option<BrowseView>,
    },
    Tree { tree: TreeView },
    Progress { progress: Progress },
    /// The diff over the viewport, and the preferences that shape it.
    Diff { diff: Option<DiffView>, diffs: Vec<DiffView>, prefs: ViewPrefs, visual: Option<VisualView> },
    Threads { threads: Vec<ThreadView> },
    Conversation { conversation: Vec<ThreadView>, requests: Vec<ReviewRequest>, checkpoints: Vec<ReviewerCheckpoint>, check_current_ready: bool },
    CommitStepper { stepper: Option<CommitStepper> },
    Draft { draft: Option<Draft>, pending_refresh: bool },
    Focus {
        focus: Focus,
        tab: Tab,
        scroll: Option<ScrollIntent>,
        copy_target: Option<RepoPath>,
        copy_checkout: Option<String>,
        copy_reference: Option<ReviewReference>,
        focused_comment: Option<CommentId>,
    },
    Hints {
        hints: Vec<Hint>,
        pending: String,
        pending_label: Option<String>,
        mode: Mode,
        leader: String,
        chrome: Vec<Hint>,
        bindings: Vec<Hint>,
        last_key: Option<LastKey>,
    },
    Help { help: Option<HelpView> },
    /// The palettes.
    Search { content_search: Option<ContentSearchView>, action_palette: bool },
    RefSelector { ref_selector: Option<RefSelectorView> },
}

/// Model of [`ViewPatch`].
#[verifier::ext_equal]
pub enum SpecViewPatch {
    Connection { connection: SpecConnectionView, last_error: Option<SpecRpcError>, uncertain_mutations: Seq<ClientSeq>, daemon_management: SpecDaemonManagement },
    ReviewList { home: SpecHomeView, daemon_context: Option<SpecDaemonContext>, active_repo: Option<RepoId>, workspaces: Seq<SpecWorkspace>, reviews: Seq<SpecReview>, open_review: Option<ReviewId>, resolved_targets: Seq<ResolvedTarget>, scope: DiffScope, browse: Option<SpecBrowseView> },
    Tree { tree: SpecTreeView },
    Progress { progress: Progress },
    Diff { diff: Option<SpecDiffView>, diffs: Seq<SpecDiffView>, prefs: ViewPrefs, visual: Option<VisualView> },
    Threads { threads: Seq<SpecThreadView> },
    Conversation { conversation: Seq<SpecThreadView>, requests: Seq<SpecReviewRequest>, checkpoints: Seq<SpecReviewerCheckpoint>, check_current_ready: bool },
    CommitStepper { stepper: Option<SpecCommitStepper> },
    Draft { draft: Option<SpecDraft>, pending_refresh: bool },
    Focus { focus: Focus, tab: Tab, scroll: Option<ScrollIntent>, copy_target: Option<SpecRepoPath>, copy_checkout: Option<Seq<char>>, copy_reference: Option<SpecReviewReference>, focused_comment: Option<CommentId> },
    Hints { hints: Seq<SpecHint>, pending: Seq<char>, pending_label: Option<Seq<char>>, mode: Mode, leader: Seq<char>, chrome: Seq<SpecHint>, bindings: Seq<SpecHint>, last_key: Option<LastKey> },
    Help { help: Option<SpecHelpView> },
    Search { content_search: Option<SpecContentSearchView>, action_palette: bool },
    RefSelector { ref_selector: Option<SpecRefSelectorView> },
}

impl DeepView for ViewPatch {
    type V = SpecViewPatch;

    open spec fn deep_view(&self) -> SpecViewPatch {
        match self {
            ViewPatch::Connection { connection, last_error, uncertain_mutations, daemon_management } => SpecViewPatch::Connection {
                connection: connection.deep_view(),
                last_error: last_error.deep_view(),
                uncertain_mutations: uncertain_mutations.deep_view(),
                daemon_management: daemon_management.deep_view(),
            },
            ViewPatch::ReviewList { home, daemon_context, active_repo, workspaces, reviews, open_review, resolved_targets, scope, browse } => SpecViewPatch::ReviewList {
                home: home.deep_view(),
                daemon_context: daemon_context.deep_view(),
                active_repo: *active_repo,
                workspaces: workspaces.deep_view(),
                reviews: reviews.deep_view(),
                open_review: *open_review,
                resolved_targets: resolved_targets.deep_view(),
                scope: *scope,
                browse: browse.deep_view(),
            },
            ViewPatch::Tree { tree } => SpecViewPatch::Tree {
                tree: tree.deep_view(),
            },
            ViewPatch::Progress { progress } => SpecViewPatch::Progress {
                progress: *progress,
            },
            ViewPatch::Diff { diff, diffs, prefs, visual } => SpecViewPatch::Diff {
                diff: diff.deep_view(),
                diffs: diffs.deep_view(),
                prefs: *prefs,
                visual: *visual,
            },
            ViewPatch::Threads { threads } => SpecViewPatch::Threads {
                threads: threads.deep_view(),
            },
            ViewPatch::Conversation { conversation, requests, checkpoints, check_current_ready } => SpecViewPatch::Conversation {
                conversation: conversation.deep_view(),
                requests: requests.deep_view(),
                checkpoints: checkpoints.deep_view(),
                check_current_ready: *check_current_ready,
            },
            ViewPatch::CommitStepper { stepper } => SpecViewPatch::CommitStepper {
                stepper: stepper.deep_view(),
            },
            ViewPatch::Draft { draft, pending_refresh } => SpecViewPatch::Draft {
                draft: draft.deep_view(),
                pending_refresh: *pending_refresh,
            },
            ViewPatch::Focus { focus, tab, scroll, copy_target, copy_checkout, copy_reference, focused_comment } => SpecViewPatch::Focus {
                focus: *focus,
                tab: *tab,
                scroll: *scroll,
                copy_target: copy_target.deep_view(),
                copy_checkout: copy_checkout.deep_view(),
                copy_reference: copy_reference.deep_view(),
                focused_comment: *focused_comment,
            },
            ViewPatch::Hints { hints, pending, pending_label, mode, leader, chrome, bindings, last_key } => SpecViewPatch::Hints {
                hints: hints.deep_view(),
                pending: pending.deep_view(),
                pending_label: pending_label.deep_view(),
                mode: *mode,
                leader: leader.deep_view(),
                chrome: chrome.deep_view(),
                bindings: bindings.deep_view(),
                last_key: *last_key,
            },
            ViewPatch::Help { help } => SpecViewPatch::Help {
                help: help.deep_view(),
            },
            ViewPatch::Search { content_search, action_palette } => SpecViewPatch::Search {
                content_search: content_search.deep_view(),
                action_palette: *action_palette,
            },
            ViewPatch::RefSelector { ref_selector } => SpecViewPatch::RefSelector {
                ref_selector: ref_selector.deep_view(),
            },
        }
    }
}


impl SpecViewPatch {
    /// The section a patch carries.
    pub open spec fn section(self) -> ViewSection {
        match self {
            SpecViewPatch::Connection { .. } => ViewSection::Connection,
            SpecViewPatch::ReviewList { .. } => ViewSection::ReviewList,
            SpecViewPatch::Tree { .. } => ViewSection::Tree,
            SpecViewPatch::Progress { .. } => ViewSection::Progress,
            SpecViewPatch::Diff { .. } => ViewSection::Diff,
            SpecViewPatch::Threads { .. } => ViewSection::Threads,
            SpecViewPatch::Conversation { .. } => ViewSection::Conversation,
            SpecViewPatch::CommitStepper { .. } => ViewSection::CommitStepper,
            SpecViewPatch::Draft { .. } => ViewSection::Draft,
            SpecViewPatch::Focus { .. } => ViewSection::Focus,
            SpecViewPatch::Hints { .. } => ViewSection::Hints,
            SpecViewPatch::Help { .. } => ViewSection::Help,
            SpecViewPatch::Search { .. } => ViewSection::Search,
            SpecViewPatch::RefSelector { .. } => ViewSection::RefSelector,
        }
    }
}

impl ViewPatch {
    /// The section a patch carries.
    pub fn section(&self) -> (r: ViewSection)
        ensures
            r == self.deep_view().section(),
    {
        match self {
            ViewPatch::Connection { .. } => ViewSection::Connection,
            ViewPatch::ReviewList { .. } => ViewSection::ReviewList,
            ViewPatch::Tree { .. } => ViewSection::Tree,
            ViewPatch::Progress { .. } => ViewSection::Progress,
            ViewPatch::Diff { .. } => ViewSection::Diff,
            ViewPatch::Threads { .. } => ViewSection::Threads,
            ViewPatch::Conversation { .. } => ViewSection::Conversation,
            ViewPatch::CommitStepper { .. } => ViewSection::CommitStepper,
            ViewPatch::Draft { .. } => ViewSection::Draft,
            ViewPatch::Focus { .. } => ViewSection::Focus,
            ViewPatch::Hints { .. } => ViewSection::Hints,
            ViewPatch::Help { .. } => ViewSection::Help,
            ViewPatch::Search { .. } => ViewSection::Search,
            ViewPatch::RefSelector { .. } => ViewSection::RefSelector,
        }
    }
}

/// Every section.
pub open spec fn every_section() -> Seq<ViewSection> {
    seq![
        ViewSection::Connection,
        ViewSection::ReviewList,
        ViewSection::Tree,
        ViewSection::Progress,
        ViewSection::Diff,
        ViewSection::Threads,
        ViewSection::Conversation,
        ViewSection::CommitStepper,
        ViewSection::Draft,
        ViewSection::Focus,
        ViewSection::Hints,
        ViewSection::Help,
        ViewSection::Search,
        ViewSection::RefSelector,
    ]
}

impl SpecViewModel {
    /// The patch that carries `section` of this view.
    pub open spec fn patch(self, section: ViewSection) -> SpecViewPatch {
        match section {
            ViewSection::Connection => SpecViewPatch::Connection {
                connection: self.connection,
                last_error: self.last_error,
                uncertain_mutations: self.uncertain_mutations,
                daemon_management: self.daemon_management,
            },
            ViewSection::ReviewList => SpecViewPatch::ReviewList {
                home: self.home,
                daemon_context: self.daemon_context,
                active_repo: self.active_repo,
                workspaces: self.workspaces,
                reviews: self.reviews,
                open_review: self.open_review,
                resolved_targets: self.resolved_targets,
                scope: self.scope,
                browse: self.browse,
            },
            ViewSection::Tree => SpecViewPatch::Tree { tree: self.tree },
            ViewSection::Progress => SpecViewPatch::Progress { progress: self.progress },
            ViewSection::Diff => SpecViewPatch::Diff {
                diff: self.diff,
                diffs: self.diffs,
                prefs: self.prefs,
                visual: self.visual,
            },
            ViewSection::Threads => SpecViewPatch::Threads { threads: self.threads },
            ViewSection::Conversation => SpecViewPatch::Conversation {
                conversation: self.conversation,
                requests: self.requests,
                checkpoints: self.checkpoints,
                check_current_ready: self.check_current_ready,
            },
            ViewSection::CommitStepper => SpecViewPatch::CommitStepper { stepper: self.stepper },
            ViewSection::Draft => SpecViewPatch::Draft {
                draft: self.draft,
                pending_refresh: self.pending_refresh,
            },
            ViewSection::Focus => SpecViewPatch::Focus {
                focus: self.focus,
                tab: self.tab,
                scroll: self.scroll,
                copy_target: self.copy_target,
                copy_checkout: self.copy_checkout,
                copy_reference: self.copy_reference,
                focused_comment: self.focused_comment,
            },
            ViewSection::Hints => SpecViewPatch::Hints {
                hints: self.hints,
                pending: self.pending_keys,
                pending_label: self.pending_label,
                mode: self.mode,
                leader: self.leader,
                chrome: self.chrome,
                bindings: self.bindings,
                last_key: self.last_key,
            },
            ViewSection::Help => SpecViewPatch::Help { help: self.help },
            ViewSection::Search => SpecViewPatch::Search {
                content_search: self.content_search,
                action_palette: self.action_palette,
            },
            ViewSection::RefSelector => SpecViewPatch::RefSelector { ref_selector: self.ref_selector },
        }
    }

    /// The patches of several sections, in order.
    pub open spec fn patches(self, sections: Seq<ViewSection>) -> Seq<SpecViewPatch> {
        sections.map_values(|s: ViewSection| self.patch(s))
    }

    /// This view with a patch installed.
    pub open spec fn patched(self, patch: SpecViewPatch) -> SpecViewModel {
        match patch {
            SpecViewPatch::Connection { connection, last_error, uncertain_mutations, daemon_management } => SpecViewModel {
                connection,
                last_error,
                uncertain_mutations,
                daemon_management,
                ..self
            },
            SpecViewPatch::ReviewList { home, daemon_context, active_repo, workspaces, reviews, open_review, resolved_targets, scope, browse } => SpecViewModel {
                home,
                daemon_context,
                active_repo,
                workspaces,
                reviews,
                open_review,
                resolved_targets,
                scope,
                browse,
                ..self
            },
            SpecViewPatch::Tree { tree } => SpecViewModel { tree, ..self },
            SpecViewPatch::Progress { progress } => SpecViewModel { progress, ..self },
            SpecViewPatch::Diff { diff, diffs, prefs, visual } => SpecViewModel {
                diff,
                diffs,
                prefs,
                visual,
                ..self
            },
            SpecViewPatch::Threads { threads } => SpecViewModel { threads, ..self },
            SpecViewPatch::Conversation { conversation, requests, checkpoints, check_current_ready } => SpecViewModel {
                conversation,
                requests,
                checkpoints,
                check_current_ready,
                ..self
            },
            SpecViewPatch::CommitStepper { stepper } => SpecViewModel { stepper, ..self },
            SpecViewPatch::Draft { draft, pending_refresh } => SpecViewModel {
                draft,
                pending_refresh,
                ..self
            },
            SpecViewPatch::Focus { focus, tab, scroll, copy_target, copy_checkout, copy_reference, focused_comment } => SpecViewModel {
                focus,
                tab,
                scroll,
                copy_target,
                copy_checkout,
                copy_reference,
                focused_comment,
                ..self
            },
            SpecViewPatch::Hints { hints, pending, pending_label, mode, leader, chrome, bindings, last_key } => SpecViewModel {
                hints,
                pending_keys: pending,
                pending_label,
                mode,
                leader,
                chrome,
                bindings,
                last_key,
                ..self
            },
            SpecViewPatch::Help { help } => SpecViewModel { help, ..self },
            SpecViewPatch::Search { content_search, action_palette } => SpecViewModel {
                content_search,
                action_palette,
                ..self
            },
            SpecViewPatch::RefSelector { ref_selector } => SpecViewModel { ref_selector, ..self },
        }
    }

    /// This view with patches installed, in order.
    pub open spec fn all_patched(self, patches: Seq<SpecViewPatch>) -> SpecViewModel
        decreases patches.len(),
    {
        if patches.len() == 0 {
            self
        } else {
            self.all_patched(patches.drop_last()).patched(patches.last())
        }
    }
}

/// Every section, in order.
fn sections() -> (r: Vec<ViewSection>)
    ensures
        r.deep_view() == every_section(),
{
    let mut r: Vec<ViewSection> = data::empty();
    data::push(&mut r, ViewSection::Connection);
    data::push(&mut r, ViewSection::ReviewList);
    data::push(&mut r, ViewSection::Tree);
    data::push(&mut r, ViewSection::Progress);
    data::push(&mut r, ViewSection::Diff);
    data::push(&mut r, ViewSection::Threads);
    data::push(&mut r, ViewSection::Conversation);
    data::push(&mut r, ViewSection::CommitStepper);
    data::push(&mut r, ViewSection::Draft);
    data::push(&mut r, ViewSection::Focus);
    data::push(&mut r, ViewSection::Hints);
    data::push(&mut r, ViewSection::Help);
    data::push(&mut r, ViewSection::Search);
    data::push(&mut r, ViewSection::RefSelector);
    assert(r.deep_view() =~= every_section());
    r
}

impl ViewModel {
    /// The patch that carries `section` of this view.
    pub fn patch(&self, section: ViewSection) -> (r: ViewPatch)
        ensures
            r.deep_view() == self.deep_view().patch(section),
    {
        let me = self;
        match section {
            ViewSection::Connection => ViewPatch::Connection {
                connection: me.connection().dup(),
                last_error: me.last_error().dup(),
                uncertain_mutations: me.uncertain_mutations().dup(),
                daemon_management: me.daemon_management().dup(),
            },
            ViewSection::ReviewList => ViewPatch::ReviewList {
                home: me.home().dup(),
                daemon_context: me.daemon_context().dup(),
                active_repo: me.active_repo(),
                workspaces: me.workspaces().dup(),
                reviews: me.reviews().dup(),
                open_review: me.open_review(),
                resolved_targets: me.resolved_targets().dup(),
                scope: me.scope(),
                browse: me.browse().dup(),
            },
            ViewSection::Tree => ViewPatch::Tree {
                tree: me.tree().dup(),
            },
            ViewSection::Progress => ViewPatch::Progress {
                progress: me.progress(),
            },
            ViewSection::Diff => ViewPatch::Diff {
                diff: me.diff().dup(),
                diffs: me.diffs().dup(),
                prefs: me.prefs(),
                visual: me.visual(),
            },
            ViewSection::Threads => ViewPatch::Threads {
                threads: me.threads().dup(),
            },
            ViewSection::Conversation => ViewPatch::Conversation {
                conversation: me.conversation().dup(),
                requests: me.requests().dup(),
                checkpoints: me.checkpoints().dup(),
                check_current_ready: me.check_current_ready(),
            },
            ViewSection::CommitStepper => ViewPatch::CommitStepper {
                stepper: me.stepper().dup(),
            },
            ViewSection::Draft => ViewPatch::Draft {
                draft: me.draft().dup(),
                pending_refresh: me.pending_refresh(),
            },
            ViewSection::Focus => ViewPatch::Focus {
                focus: me.focus(),
                tab: me.tab(),
                scroll: me.scroll(),
                copy_target: me.copy_target().dup(),
                copy_checkout: me.copy_checkout().dup(),
                copy_reference: me.copy_reference().dup(),
                focused_comment: me.focused_comment(),
            },
            ViewSection::Hints => ViewPatch::Hints {
                hints: me.hints().dup(),
                pending: me.pending_keys().dup(),
                pending_label: me.pending_label().dup(),
                mode: me.mode(),
                leader: me.leader().dup(),
                chrome: me.chrome().dup(),
                bindings: me.bindings().dup(),
                last_key: me.last_key(),
            },
            ViewSection::Help => ViewPatch::Help {
                help: me.help().dup(),
            },
            ViewSection::Search => ViewPatch::Search {
                content_search: me.content_search().dup(),
                action_palette: me.action_palette(),
            },
            ViewSection::RefSelector => ViewPatch::RefSelector {
                ref_selector: me.ref_selector().dup(),
            },
        }
    }

    fn patches_of(&self, sections: &Vec<ViewSection>) -> (r: Vec<ViewPatch>)
        ensures
            r.deep_view() == self.deep_view().patches(sections.deep_view()),
    {
        let ghost me = self.deep_view();
        let ghost of = |s: ViewSection| me.patch(s);
        data::map(
            sections,
            |s: &ViewSection| -> (p: ViewPatch)
                ensures
                    p.deep_view() == of(s.deep_view())
            { self.patch(*s) },
            Ghost(of),
        )
    }

    /// Patches for every section a render names, in its order.
    pub fn patches(&self, delta: &ViewDelta) -> (r: Vec<ViewPatch>)
        ensures
            r.deep_view() == self.deep_view().patches(delta.deep_view().sections),
    {
        self.patches_of(&delta.sections)
    }

    /// Every section, for a UI that just attached.
    pub fn full_patches(&self) -> (r: Vec<ViewPatch>)
        ensures
            r.deep_view() == self.deep_view().patches(every_section()),
    {
        self.patches_of(&sections())
    }

    /// Install a patch into this copy of the view.
    pub fn apply(&mut self, patch: ViewPatch)
        ensures
            final(self).deep_view() == old(self).deep_view().patched(patch.deep_view()),
    {
        match patch {
            ViewPatch::Connection { connection, last_error, uncertain_mutations, daemon_management } => {
                self.set_connection(connection);
                self.set_last_error(last_error);
                self.set_uncertain_mutations(uncertain_mutations);
                self.set_daemon_management(daemon_management);
            },
            ViewPatch::ReviewList { home, daemon_context, active_repo, workspaces, reviews, open_review, resolved_targets, scope, browse } => {
                self.set_home(home);
                self.set_daemon_context(daemon_context);
                self.set_active_repo(active_repo);
                self.set_workspaces(workspaces);
                self.set_reviews(reviews);
                self.set_open_review(open_review);
                self.set_resolved_targets(resolved_targets);
                self.set_scope(scope);
                self.set_browse(browse);
            },
            ViewPatch::Tree { tree } => {
                self.set_tree(tree);
            },
            ViewPatch::Progress { progress } => {
                self.set_progress(progress);
            },
            ViewPatch::Diff { diff, diffs, prefs, visual } => {
                self.set_diff(diff);
                self.set_diffs(diffs);
                self.set_prefs(prefs);
                self.set_visual(visual);
            },
            ViewPatch::Threads { threads } => {
                self.set_threads(threads);
            },
            ViewPatch::Conversation { conversation, requests, checkpoints, check_current_ready } => {
                self.set_conversation(conversation);
                self.set_requests(requests);
                self.set_checkpoints(checkpoints);
                self.set_check_current_ready(check_current_ready);
            },
            ViewPatch::CommitStepper { stepper } => {
                self.set_stepper(stepper);
            },
            ViewPatch::Draft { draft, pending_refresh } => {
                self.set_draft(draft);
                self.set_pending_refresh(pending_refresh);
            },
            ViewPatch::Focus { focus, tab, scroll, copy_target, copy_checkout, copy_reference, focused_comment } => {
                self.set_focus(focus);
                self.set_tab(tab);
                self.set_scroll(scroll);
                self.set_copy_target(copy_target);
                self.set_copy_checkout(copy_checkout);
                self.set_copy_reference(copy_reference);
                self.set_focused_comment(focused_comment);
            },
            ViewPatch::Hints { hints, pending, pending_label, mode, leader, chrome, bindings, last_key } => {
                self.set_hints(hints);
                self.set_pending_keys(pending);
                self.set_pending_label(pending_label);
                self.set_mode(mode);
                self.set_leader(leader);
                self.set_chrome(chrome);
                self.set_bindings(bindings);
                self.set_last_key(last_key);
            },
            ViewPatch::Help { help } => {
                self.set_help(help);
            },
            ViewPatch::Search { content_search, action_palette } => {
                self.set_content_search(content_search);
                self.set_action_palette(action_palette);
            },
            ViewPatch::RefSelector { ref_selector } => {
                self.set_ref_selector(ref_selector);
            },
        }
    }
}

/// A patch carries the section it was made for.
pub proof fn patches_carry_their_section(view: SpecViewModel, section: ViewSection)
    ensures
        view.patch(section).section() == section,
{
}

/// A patch makes its section of a copy equal to the source, and leaves the
/// rest of the copy alone.
pub proof fn patches_install_their_section(
    copy: SpecViewModel,
    source: SpecViewModel,
    section: ViewSection,
    other: ViewSection,
)
    ensures
        copy.patched(source.patch(section)).patch(section) == source.patch(section),
        other != section ==> copy.patched(source.patch(section)).patch(other) == copy.patch(other),
        copy.patched(source.patch(section)).review == copy.review,
{
}

proof fn lemma_next_patch(copy: SpecViewModel, source: SpecViewModel, i: int)
    requires
        0 <= i < every_section().len(),
    ensures
        copy.all_patched(source.patches(every_section()).take(i + 1)) == copy.all_patched(
            source.patches(every_section()).take(i),
        ).patched(source.patch(every_section()[i])),
{
    let all = source.patches(every_section());
    assert(all.take(i + 1).drop_last() =~= all.take(i));
    assert(all.take(i + 1).last() == source.patch(every_section()[i]));
}

proof fn lemma_first_half(copy: SpecViewModel, source: SpecViewModel)
    ensures
        copy.patched(
            source.patch(ViewSection::Connection),
        ).patched(
            source.patch(ViewSection::ReviewList),
        ).patched(
            source.patch(ViewSection::Tree),
        ).patched(
            source.patch(ViewSection::Progress),
        ).patched(
            source.patch(ViewSection::Diff),
        ).patched(
            source.patch(ViewSection::Threads),
        ).patched(
            source.patch(ViewSection::Conversation),
        ) == (SpecViewModel {
            connection: source.connection,
            last_error: source.last_error,
            uncertain_mutations: source.uncertain_mutations,
            daemon_management: source.daemon_management,
            home: source.home,
            daemon_context: source.daemon_context,
            active_repo: source.active_repo,
            workspaces: source.workspaces,
            reviews: source.reviews,
            open_review: source.open_review,
            resolved_targets: source.resolved_targets,
            scope: source.scope,
            browse: source.browse,
            tree: source.tree,
            progress: source.progress,
            diff: source.diff,
            diffs: source.diffs,
            prefs: source.prefs,
            visual: source.visual,
            threads: source.threads,
            conversation: source.conversation,
            requests: source.requests,
            checkpoints: source.checkpoints,
            check_current_ready: source.check_current_ready,
            ..copy
        }),
{
}

proof fn lemma_second_half(copy: SpecViewModel, source: SpecViewModel)
    requires
        copy == (SpecViewModel {
            connection: source.connection,
            last_error: source.last_error,
            uncertain_mutations: source.uncertain_mutations,
            daemon_management: source.daemon_management,
            home: source.home,
            daemon_context: source.daemon_context,
            active_repo: source.active_repo,
            workspaces: source.workspaces,
            reviews: source.reviews,
            open_review: source.open_review,
            resolved_targets: source.resolved_targets,
            scope: source.scope,
            browse: source.browse,
            tree: source.tree,
            progress: source.progress,
            diff: source.diff,
            diffs: source.diffs,
            prefs: source.prefs,
            visual: source.visual,
            threads: source.threads,
            conversation: source.conversation,
            requests: source.requests,
            checkpoints: source.checkpoints,
            check_current_ready: source.check_current_ready,
            ..copy
        }),
    ensures
        copy.patched(
            source.patch(ViewSection::CommitStepper),
        ).patched(
            source.patch(ViewSection::Draft),
        ).patched(
            source.patch(ViewSection::Focus),
        ).patched(
            source.patch(ViewSection::Hints),
        ).patched(
            source.patch(ViewSection::Help),
        ).patched(
            source.patch(ViewSection::Search),
        ).patched(
            source.patch(ViewSection::RefSelector),
        ) == (SpecViewModel {
            review: copy.review,
            ..source
        }),
{
}

/// The patches of all sections rebuild the view, except for the raw review
/// state, which is never pushed.
pub proof fn full_patches_rebuild_the_view(copy: SpecViewModel, source: SpecViewModel)
    ensures
        copy.all_patched(
            source.patches(every_section()),
        ) == (SpecViewModel { review: copy.review, ..source }),
{
    let all = source.patches(every_section());
    let half = copy.all_patched(all.take(7));
    assert(half == (SpecViewModel {
        connection: source.connection,
        last_error: source.last_error,
        uncertain_mutations: source.uncertain_mutations,
        daemon_management: source.daemon_management,
        home: source.home,
        daemon_context: source.daemon_context,
        active_repo: source.active_repo,
        workspaces: source.workspaces,
        reviews: source.reviews,
        open_review: source.open_review,
        resolved_targets: source.resolved_targets,
        scope: source.scope,
        browse: source.browse,
        tree: source.tree,
        progress: source.progress,
        diff: source.diff,
        diffs: source.diffs,
        prefs: source.prefs,
        visual: source.visual,
        threads: source.threads,
        conversation: source.conversation,
        requests: source.requests,
        checkpoints: source.checkpoints,
        check_current_ready: source.check_current_ready,
        ..copy
    })) by {
        assert(all.take(0) =~= Seq::empty());
        lemma_first_half(copy, source);
        lemma_next_patch(copy, source, 0);
        lemma_next_patch(copy, source, 1);
        lemma_next_patch(copy, source, 2);
        lemma_next_patch(copy, source, 3);
        lemma_next_patch(copy, source, 4);
        lemma_next_patch(copy, source, 5);
        lemma_next_patch(copy, source, 6);
    }
    assert(copy.all_patched(all.take(14)) == (SpecViewModel { review: copy.review, ..source })) by {
        lemma_second_half(half, source);
        lemma_next_patch(copy, source, 7);
        lemma_next_patch(copy, source, 8);
        lemma_next_patch(copy, source, 9);
        lemma_next_patch(copy, source, 10);
        lemma_next_patch(copy, source, 11);
        lemma_next_patch(copy, source, 12);
        lemma_next_patch(copy, source, 13);
    }
    assert(all.take(14) =~= all);
}

} // verus!

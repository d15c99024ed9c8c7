use nits_client_core::cache::{Bytes, CacheKey, CacheValue, RenderKey, TreeKey};
use nits_client_core::client::{
    Action, ClientCore, Config, ConnectionKind, CoreError, Input, InputKind, Resolved, Stored,
    TransportEvent, SEQ_TIMEOUT_MS,
};
use nits_client_core::command::{Command, Mode};
use nits_client_core::content::{CacheConfig, DiskTier};
use nits_client_core::data::Value;
use nits_client_core::diff::FileRef;
use nits_client_core::events::MutationError;
use nits_client_core::explorer::{progress, FileStat};
use nits_client_core::flow::{Effect, Key, Persisted};
use nits_client_core::focus::{Focus, NoTarget};
use nits_client_core::keymap::{ActionKeys, KeyChord, KeysConfig, Lookup, ModeKeys};
use nits_client_core::patch::ViewPatch;
use nits_client_core::protocol::{
    Anchor, Author, BlobOid, BuildInfo, ClientId, ClientMsg, ClientSeq, Comment, CommentId, CommentKind,
    CommentState, Event, EventBody, EventSeq, Expansions, Human, Mutation, RefSpec, RenderOpts, RenderTarget, RepoId, RepoPath, Request,
    RequestId, ResolvedRef, ResolvedSource, ResolvedTarget, Response, Review, ReviewId, ReviewSnapshot, ReviewStatus, ReviewTarget, RpcError,
    ServerMsg, Since, StreamItem, Thread, ThreadId, ThreadResolution, Timestamp, TreeOid, TreeSnapshot,
    ViewSection, Workspace, WorkspaceId,
};
use nits_client_core::view::{ConnectionView, Tab, ViewPrefs};

const REVIEW: ReviewId = ReviewId(10);

fn me() -> Author {
    Author::Human { human: Human { name: "ada".to_string() } }
}

fn config() -> Config {
    Config {
        client_id: ClientId(1),
        client: BuildInfo { version: "1".to_string() },
        author: me(),
        cache: CacheConfig {
            memory_budget: Bytes::mib(1),
            disk: DiskTier::Disabled,
            max_in_flight: 2,
            render_opts: Default::default(),
        },
        daemon_context: None,
        reference_context: None,
    }
}

fn requests(effects: &[Effect]) -> Vec<(RequestId, &Request)> {
    effects
        .iter()
        .filter_map(|e| match e {
            Effect::Send(ClientMsg::Request { id, request }) => Some((*id, request)),
            _ => None,
        })
        .collect()
}

/// Whether a render comes last and nowhere else.
fn renders_last(effects: &[Effect]) -> bool {
    effects.iter().rev().skip(1).all(|e| !matches!(e, Effect::Render(_)))
}

fn rendered(effects: &[Effect]) -> Vec<ViewSection> {
    match effects.last() {
        Some(Effect::Render(delta)) => delta.sections.to_vec(),
        _ => Vec::new(),
    }
}

fn user(core: &mut ClientCore, action: Action) -> Vec<Effect> {
    core.handle(Input::User(action)).unwrap()
}

fn server(core: &mut ClientCore, message: ServerMsg) -> Vec<Effect> {
    core.handle(Input::Server(message)).unwrap()
}

fn online() -> ClientCore {
    let mut core = ClientCore::new(config());
    user(&mut core, Action::Connect);
    core.handle(Input::Transport(TransportEvent::Connected)).unwrap();
    let effects = server(&mut core, ServerMsg::Welcome);
    let (id, _) = requests(&effects)[0];
    let response = Response::Subscribed { seq: EventSeq(5) };
    server(&mut core, ServerMsg::Response { id, response, len: 10 });
    core
}

fn review() -> Review {
    Review {
        id: REVIEW,
        workspace_id: WorkspaceId(3),
        title: "A change".to_string(),
        status: ReviewStatus::Open,
        targets: vec![ReviewTarget {
            repo_id: RepoId(7),
            base: RefSpec::Head,
            head: RefSpec::WorkingTree,
        }],
        created: Timestamp(0),
    }
}

fn snapshot() -> ReviewSnapshot {
    ReviewSnapshot {
        seq: EventSeq(5),
        review: review(),
        resolved: None,
        comments: Vec::new(),
        threads: Vec::new(),
        viewed: Vec::new(),
        requests: Vec::new(),
        suggestions: Vec::new(),
    }
}

fn reviewing() -> ClientCore {
    let mut core = online();
    let effects = user(&mut core, Action::OpenReview { review_id: REVIEW });
    let (id, _) = *requests(&effects)
        .iter()
        .find(|(_, r)| matches!(r, Request::OpenReview { .. }))
        .unwrap();
    let item = StreamItem::ReviewSnapshot { snapshot: snapshot() };
    server(&mut core, ServerMsg::StreamItem { id, item, len: 100 });
    core
}

fn event(seq: u64, client: u128, client_seq: u64, body: EventBody) -> ServerMsg {
    ServerMsg::Event {
        event: Event {
            seq: EventSeq(seq),
            client_id: ClientId(client),
            client_seq: ClientSeq(client_seq),
            author: me(),
            ts: Timestamp(9),
            body,
        },
    }
}

fn comment(id: u128, body: &str) -> Comment {
    Comment {
        id: CommentId(id),
        review_id: REVIEW,
        thread_id: ThreadId(id),
        author: me(),
        kind: CommentKind::Note,
        anchor: Anchor::Review,
        body: body.to_string(),
        created: Timestamp(9),
        edited: None,
        state: CommentState::Live,
        context: None,
    }
}

fn draft(core: &mut ClientCore, id: u128, body: &str) -> Vec<Effect> {
    user(core, Action::DraftOpened { anchor: Anchor::Review });
    user(core, Action::DraftSubmitted { comment_id: CommentId(id), body: body.to_string() })
}

fn mutation_sent(effects: &[Effect]) -> (RequestId, ClientSeq) {
    let sent = requests(effects);
    match sent.iter().find(|(_, r)| matches!(r, Request::Mutate { .. })) {
        Some((id, Request::Mutate { client_seq, .. })) => (*id, *client_seq),
        _ => panic!("nothing was sent"),
    }
}

#[test]
fn a_connection_is_dialled_greeted_and_subscribed() {
    let mut core = ClientCore::new(config());
    assert_eq!(core.view().connection, ConnectionView::Disconnected);
    let effects = user(&mut core, Action::Connect);
    assert!(effects.iter().any(|e| matches!(e, Effect::Connect)));
    assert!(effects.iter().any(|e| matches!(e, Effect::Load { key: Key::Prefs })));
    assert!(renders_last(&effects));
    assert_eq!(core.view().connection, ConnectionView::Connecting);

    let effects = core.handle(Input::Transport(TransportEvent::Connected)).unwrap();
    assert!(effects
        .iter()
        .any(|e| matches!(e, Effect::Send(ClientMsg::Hello { client_id: ClientId(1), .. }))));

    let effects = server(&mut core, ServerMsg::Welcome);
    let sent = requests(&effects);
    assert_eq!(sent[0].1, &Request::Subscribe { since: Since::Now });
    let id = sent[0].0;

    let response = Response::Subscribed { seq: EventSeq(5) };
    let effects = server(&mut core, ServerMsg::Response { id, response, len: 10 });
    assert_eq!(core.view().connection, ConnectionView::Subscribed);
    assert_eq!(core.connection().last_seq(), Some(EventSeq(5)));
    assert!(renders_last(&effects));
    assert!(rendered(&effects).contains(&ViewSection::Connection));
}

#[test]
fn a_reconnection_asks_for_what_was_missed() {
    let mut core = online();
    server(&mut core, event(6, 2, 1, EventBody::ReviewDeleted { review_id: ReviewId(99) }));
    core.handle(Input::Transport(TransportEvent::Disconnected)).unwrap();
    assert_eq!(core.connection().last_seq(), Some(EventSeq(6)));
    user(&mut core, Action::Connect);
    core.handle(Input::Transport(TransportEvent::Connected)).unwrap();
    let effects = server(&mut core, ServerMsg::Welcome);
    assert_eq!(
        requests(&effects)[0].1,
        &Request::Subscribe { since: Since::After { seq: EventSeq(6) } }
    );
}

#[test]
fn being_turned_away_takes_the_connection_down_and_says_why() {
    let mut core = ClientCore::new(config());
    user(&mut core, Action::Connect);
    core.handle(Input::Transport(TransportEvent::Connected)).unwrap();
    let error = || RpcError::Forbidden { reason: "no".to_string() };
    let refused = core.handle(Input::Server(ServerMsg::Rejected { error: error() }));
    assert_eq!(refused, Err(CoreError::Rejected(error())));
    assert_eq!(core.view().connection, ConnectionView::Rejected { error: error() });
    assert_eq!(core.connection().kind(), ConnectionKind::Disconnected);
}

#[test]
fn refused_inputs_change_nothing() {
    let mut core = online();
    let before = core.view().full_patches();
    assert_eq!(
        core.handle(Input::Server(ServerMsg::StreamEnd { id: RequestId(999) })),
        Err(CoreError::UnknownRequest(RequestId(999)))
    );
    assert_eq!(
        core.handle(Input::User(Action::CloseReview)),
        Err(CoreError::NoOpenReview)
    );
    assert_eq!(core.handle(Input::User(Action::DraftDiscarded)), Err(CoreError::NoDraft));
    assert_eq!(
        core.handle(Input::User(Action::Connect)),
        Err(CoreError::WrongConnectionState {
            input: InputKind::User,
            state: ConnectionKind::Subscribed
        })
    );
    let far = Focus::Thread { index: 9 };
    assert_eq!(
        core.handle(Input::User(Action::SetFocus { focus: far })),
        Err(CoreError::FocusOutOfRange(far))
    );
    let error = RpcError::Internal { message: "no".to_string() };
    assert_eq!(
        core.handle(Input::Server(ServerMsg::Rejected { error })),
        Err(CoreError::WrongConnectionState {
            input: InputKind::Server,
            state: ConnectionKind::Subscribed
        })
    );
    assert_eq!(core.view().full_patches(), before);
    // The core goes on as if nothing had happened.
    user(&mut core, Action::ToggleHelp);
}

#[test]
fn events_are_taken_in_order_and_never_twice() {
    let mut core = online();
    let gone = || EventBody::ReviewDeleted { review_id: ReviewId(99) };
    server(&mut core, event(6, 2, 1, gone()));
    assert_eq!(
        core.handle(Input::Server(event(6, 2, 1, gone()))),
        Err(CoreError::StaleEvent { seq: EventSeq(6), last_seq: EventSeq(6) })
    );
    server(&mut core, event(7, 2, 2, gone()));
    assert_eq!(core.connection().last_seq(), Some(EventSeq(7)));
}

#[test]
fn a_comment_shows_at_once_and_its_echo_retires_it() {
    let mut core = reviewing();
    assert_eq!(core.view().open_review, Some(REVIEW));
    let effects = draft(&mut core, 77, "Looks wrong\nsomehow");
    assert!(renders_last(&effects));
    let (_, client_seq) = mutation_sent(&effects);
    assert_eq!(core.pending_count(), 1);
    assert_eq!(core.view().conversation.len(), 1);
    assert!(core.view().conversation[0].pending);
    assert_eq!(core.view().conversation[0].summary, "Looks wrong");
    assert!(core.view().draft.is_none());

    let body = EventBody::CommentCreated { comment: comment(77, "Looks wrong\nsomehow") };
    server(&mut core, event(6, 1, client_seq.0, body));
    assert_eq!(core.pending_count(), 0);
    assert_eq!(core.view().conversation.len(), 1);
    assert!(!core.view().conversation[0].pending);
}

#[test]
fn a_refused_mutation_is_undone() {
    let mut core = reviewing();
    let effects = draft(&mut core, 77, "Looks wrong");
    let (id, _) = mutation_sent(&effects);
    let error = RpcError::Invalid { reason: "closed".to_string() };
    server(&mut core, ServerMsg::Error { id, error });
    assert_eq!(core.pending_count(), 0);
    assert_eq!(core.view().conversation.len(), 0);
}

#[test]
fn mutations_the_daemon_would_reject_are_not_sent() {
    let mut core = reviewing();
    let refused = core.handle(Input::User(Action::EditComment {
        comment_id: CommentId(5),
        body: "x".to_string(),
    }));
    assert!(matches!(refused, Err(CoreError::Mutation(MutationError::UnknownComment(CommentId(5))))));
    assert_eq!(core.pending_count(), 0);
}

#[test]
fn threads_are_resolved_and_reopened() {
    let mut core = reviewing();
    let body = EventBody::CommentCreated { comment: comment(50, "Why?") };
    server(&mut core, event(6, 2, 1, body));
    assert_eq!(core.view().conversation.len(), 1);
    let before = format!("{:?}", core.view().conversation);
    let effects = user(&mut core, Action::ResolveThread { thread_id: ThreadId(50) });
    let (id, client_seq) = mutation_sent(&effects);
    assert!(matches!(
        requests(&effects)[0].1,
        Request::Mutate { mutation: Mutation::ResolveThread { thread_id: ThreadId(50), .. }, .. }
    ));
    assert_ne!(format!("{:?}", core.view().conversation), before);
    let body = EventBody::ThreadResolved { review_id: REVIEW, thread_id: ThreadId(50) };
    server(&mut core, event(7, 1, client_seq.0, body));
    // The answer to the request itself carries the same event and is stale.
    let _ = id;
    let body = EventBody::ThreadUnresolved { review_id: REVIEW, thread_id: ThreadId(50) };
    server(&mut core, event(8, 2, 2, body));
    assert_eq!(format!("{:?}", core.view().conversation), before);
    let snapshot = &core.view().review.as_ref().unwrap().snapshot;
    assert_eq!(snapshot.threads.len(), 1);
    assert_eq!(
        snapshot.threads[0],
        Thread {
            id: ThreadId(50),
            review_id: REVIEW,
            root: CommentId(50),
            replies: Vec::new(),
            resolution: ThreadResolution::Open,
        }
    );
}

#[test]
fn events_of_other_reviews_leave_the_open_one_alone() {
    let mut core = reviewing();
    let mut other = comment(60, "elsewhere");
    other.review_id = ReviewId(11);
    server(&mut core, event(6, 2, 1, EventBody::CommentCreated { comment: other }));
    assert_eq!(core.view().conversation.len(), 0);
    server(&mut core, event(7, 2, 2, EventBody::ReviewUpdated {
        review_id: REVIEW,
        title: "Renamed".to_string(),
        status: ReviewStatus::Open,
    }));
    assert_eq!(core.view().review.as_ref().unwrap().snapshot.review.title, "Renamed");
}

#[test]
fn one_draft_at_a_time() {
    let mut core = reviewing();
    user(&mut core, Action::DraftOpened { anchor: Anchor::Review });
    assert_eq!(
        core.handle(Input::User(Action::DraftOpened { anchor: Anchor::Review })),
        Err(CoreError::DraftAlreadyOpen)
    );
    user(&mut core, Action::DraftDiscarded);
    assert!(core.view().draft.is_none());
}

#[test]
fn keys_run_what_the_host_resolved() {
    let mut core = online();
    let help = KeyChord::char('?');
    assert_eq!(core.next_key(help), Lookup::Command(Command::ToggleHelp));
    let target = Resolved::Action { action: Action::ToggleHelp };
    core.handle(Input::Key { chord: help, target }).unwrap();
    assert!(core.view().help.is_some());

    // A prefix waits; a key outside its group only ends the sequence.
    let mut core = online();
    let g = KeyChord::char('g');
    let target = Resolved::Nowhere { reason: NoTarget::Nothing(Command::GoTop) };
    core.handle(Input::Key { chord: g, target }).unwrap();
    assert_eq!(core.pending_chords(), &vec![g]);
    assert_eq!(core.view().pending_keys, "g");
    let target = Resolved::Nowhere { reason: NoTarget::Nothing(Command::GoTop) };
    core.handle(Input::Key { chord: KeyChord::char('Q'), target }).unwrap();
    assert_eq!(core.pending_chords(), &Vec::new());
    // A key bound to nothing is refused by name, and counted.
    let target = Resolved::Nowhere { reason: NoTarget::Nothing(Command::GoTop) };
    let refused = core.handle(Input::Key { chord: KeyChord::char('Q'), target });
    assert_eq!(refused, Err(CoreError::UnboundKey("Q".to_string())));
    assert_eq!(core.view().last_key.as_ref().unwrap().seq, 3);
    let target = Resolved::Nowhere { reason: NoTarget::Nothing(Command::Delete) };
    assert_eq!(
        core.handle(Input::Run { command: Command::Delete, target }),
        Err(CoreError::NoTarget(NoTarget::Nothing(Command::Delete)))
    );
}

fn press(core: &mut ClientCore, c: char) {
    let target = Resolved::Nowhere { reason: NoTarget::Nothing(Command::GoTop) };
    core.handle(Input::Key { chord: KeyChord::char(c), target }).unwrap();
}

#[test]
fn a_pending_sequence_is_dropped_after_a_pause() {
    assert_eq!(SEQ_TIMEOUT_MS, 800);
    let mut core = online();
    core.handle(Input::Tick(1000)).unwrap();
    press(&mut core, 'g');
    core.handle(Input::Tick(1800)).unwrap();
    assert_eq!(core.pending_chords(), &vec![KeyChord::char('g')]);
    assert_eq!(core.view().pending_keys, "g");
    core.handle(Input::Tick(1801)).unwrap();
    assert!(core.pending_chords().is_empty());
    assert_eq!(core.view().pending_keys, "");
}

#[test]
fn every_chord_of_a_sequence_starts_the_pause_anew() {
    let mut core = online();
    let config = KeysConfig {
        leader: None,
        bindings: vec![ModeKeys {
            mode: Mode::Normal,
            actions: vec![ActionKeys {
                action: "toggle_layout".to_string(),
                keys: vec!["g x y".to_string()],
            }],
        }],
        groups: Vec::new(),
    };
    core.handle(Input::Stored { key: Key::Keymap, value: Stored::Keys { config } }).unwrap();
    core.handle(Input::Tick(1000)).unwrap();
    press(&mut core, 'g');
    core.handle(Input::Tick(1500)).unwrap();
    press(&mut core, 'x');
    core.handle(Input::Tick(2300)).unwrap();
    assert_eq!(core.pending_chords(), &vec![KeyChord::char('g'), KeyChord::char('x')]);
    core.handle(Input::Tick(2301)).unwrap();
    assert!(core.pending_chords().is_empty());
}

#[test]
fn an_input_that_changes_nothing_asks_for_nothing() {
    let mut core = online();
    core.handle(Input::Tick(5000)).unwrap();
    let before = format!("{:?}", core.view());
    assert_eq!(core.handle(Input::Tick(5000)), Ok(Vec::new()));
    assert_eq!(format!("{:?}", core.view()), before);
}

#[test]
fn stored_preferences_and_keys_are_taken() {
    let mut core = ClientCore::new(config());
    user(&mut core, Action::Connect);
    let prefs = ViewPrefs { sidebar_hidden: true, ..Default::default() };
    core.handle(Input::Stored { key: Key::Prefs, value: Stored::Prefs { prefs } }).unwrap();
    assert!(core.view().prefs.sidebar_hidden);
    let effects = user(&mut core, Action::ToggleSidebar);
    assert!(!core.view().prefs.sidebar_hidden);
    assert!(effects.iter().any(|e| matches!(
        e,
        Effect::Persist { key: Key::Prefs, value: Persisted::Prefs { .. } }
    )));
    let keys = KeysConfig { leader: Some(",".to_string()), bindings: Vec::new(), groups: Vec::new() };
    core.handle(Input::Stored { key: Key::Keymap, value: Stored::Keys { config: keys } }).unwrap();
    assert_eq!(core.keymap().leader(), KeyChord::char(','));
    // Content nobody asked for is not taken.
    let tree = TreeKey { repo_id: RepoId(7), root: TreeOid { high: 1, low: 1 } };
    let key = || Key::Content { key: CacheKey::Tree { tree } };
    assert_eq!(
        core.handle(Input::Stored { key: key(), value: Stored::Absent }),
        Err(CoreError::UnknownKey(key()))
    );
}

#[test]
fn workspaces_are_listed_and_their_reviews_follow() {
    let mut core = online();
    let effects = user(&mut core, Action::ListWorkspaces);
    let (id, _) = requests(&effects)[0];
    let response = Response::Workspaces {
        workspaces: vec![Workspace {
            id: WorkspaceId(3),
            name: "work".to_string(),
            repos: Vec::new(),
        }],
    };
    let effects = server(&mut core, ServerMsg::Response { id, response, len: 10 });
    assert_eq!(core.view().workspaces.len(), 1);
    let (id, request) = requests(&effects)[0];
    assert_eq!(request, &Request::ListReviews { workspace_id: WorkspaceId(3) });
    let response = Response::Reviews { reviews: vec![review()] };
    server(&mut core, ServerMsg::Response { id, response, len: 10 });
    assert_eq!(core.view().reviews.len(), 1);
    let rows = nits_client_core::home::rows(core.view());
    assert!(!rows.is_empty());
    // The same answer again is for nobody.
    let response = Response::Reviews { reviews: Vec::new() };
    assert_eq!(
        core.handle(Input::Server(ServerMsg::Response { id, response, len: 10 })),
        Err(CoreError::UnknownRequest(id))
    );
}

#[test]
fn an_answer_of_the_wrong_kind_is_refused_by_name() {
    let mut core = online();
    let effects = user(&mut core, Action::ListWorkspaces);
    let (id, _) = requests(&effects)[0];
    let refused =
        core.handle(Input::Server(ServerMsg::Response { id, response: Response::Unsubscribed, len: 1 }));
    assert!(matches!(refused, Err(CoreError::UnexpectedResponse { .. })));
}

/// Every section an input changes is named in its render, but for those
/// that are also reset without one.
fn named(before: &[ViewPatch], core: &ClientCore, effects: &[Effect]) {
    let followed = [
        ViewSection::ReviewList,
        ViewSection::Tree,
        ViewSection::Progress,
        ViewSection::Diff,
        ViewSection::Threads,
        ViewSection::Conversation,
        ViewSection::CommitStepper,
        ViewSection::Draft,
        ViewSection::Hints,
        ViewSection::Help,
        ViewSection::RefSelector,
    ];
    let sections = rendered(effects);
    for (old, new) in before.iter().zip(core.view().full_patches().iter()) {
        assert_eq!(old.section(), new.section());
        if followed.contains(&old.section()) && old != new {
            assert!(sections.contains(&old.section()), "{:?} changed unnamed", old.section());
        }
    }
}

#[test]
fn sections_that_change_are_named() {
    let mut core = reviewing();
    let inputs = vec![
        Input::User(Action::ToggleHelp),
        Input::User(Action::ToggleHelp),
        Input::User(Action::InformationalNoteOpened),
        Input::User(Action::DraftSubmitted {
            comment_id: CommentId(77),
            body: "Note".to_string(),
        }),
        Input::Server(event(6, 2, 1, EventBody::CommentCreated { comment: comment(50, "Why?") })),
        Input::User(Action::SetTab { tab: Tab::Conversation }),
        Input::Server(event(7, 2, 2, EventBody::ReviewDeleted { review_id: REVIEW })),
        Input::Transport(TransportEvent::Disconnected),
    ];
    for input in inputs {
        let before = core.view().full_patches();
        let effects = core.handle(input).unwrap();
        assert!(renders_last(&effects));
        named(&before, &core, &effects);
    }
}

fn tree() -> TreeSnapshot {
    TreeSnapshot {
        repo_id: RepoId(7),
        root_oid: TreeOid { high: 1, low: 1 },
        entries: Vec::new(),
    }
}

fn tree_at() -> CacheKey {
    CacheKey::Tree { tree: TreeKey { repo_id: RepoId(7), root: tree().root_oid } }
}

/// A core with a disk that looks for the tree of the review it opened.
fn looking_for_a_tree() -> (ClientCore, Vec<Effect>) {
    let mut config = config();
    config.cache.disk = DiskTier::Enabled { budget: Bytes::mib(1) };
    let mut core = ClientCore::new(config);
    user(&mut core, Action::Connect);
    core.handle(Input::Transport(TransportEvent::Connected)).unwrap();
    let effects = server(&mut core, ServerMsg::Welcome);
    let (id, _) = requests(&effects)[0];
    let response = Response::Subscribed { seq: EventSeq(5) };
    server(&mut core, ServerMsg::Response { id, response, len: 10 });
    let effects = user(&mut core, Action::OpenReview { review_id: REVIEW });
    let (id, _) = *requests(&effects)
        .iter()
        .find(|(_, r)| matches!(r, Request::ReviewSnapshot { .. }))
        .unwrap();
    let at = ResolvedRef { source: ResolvedSource::WorkingTree, tree: tree().root_oid };
    let mut snapshot = snapshot();
    snapshot.resolved = Some(vec![ResolvedTarget { repo_id: RepoId(7), base: at, head: at }]);
    let response = Response::ReviewSnapshot { snapshot };
    let effects = server(&mut core, ServerMsg::Response { id, response, len: 10 });
    (core, effects)
}

#[test]
fn loaded_values_count_in_memory_what_they_encode_to() {
    let (mut core, _) = looking_for_a_tree();
    let before = core.cache().used().get();
    let value = CacheValue::Tree { snapshot: tree() };
    let value = Stored::Content { value, stored: 500, len: 40 };
    core.handle(Input::Stored { key: Key::Content { key: tree_at() }, value }).unwrap();
    assert_eq!(core.cache().used().get(), before + 40);
}

#[test]
fn content_is_looked_for_on_disk_before_the_daemon_is_asked() {
    let (mut core, effects) = looking_for_a_tree();
    // The tree is looked for on disk, and not asked for yet.
    let key = tree_at;
    assert!(effects.contains(&Effect::Load { key: Key::Content { key: key() } }));
    assert!(!requests(&effects).iter().any(|(_, r)| matches!(r, Request::TreeSnapshot { .. })));
    // It is not there: the daemon is asked, once.
    let effects =
        core.handle(Input::Stored { key: Key::Content { key: key() }, value: Stored::Absent }).unwrap();
    let asked = requests(&effects);
    assert_eq!(asked.len(), 1);
    assert!(matches!(asked[0].1, Request::TreeSnapshot { repo_id: RepoId(7), .. }));
    // What it sends is written to disk.
    let response = Response::TreeSnapshot { snapshot: tree() };
    let effects = server(&mut core, ServerMsg::Response { id: asked[0].0, response, len: 40 });
    assert!(effects.contains(&Effect::Persist {
        key: Key::Content { key: key() },
        value: Persisted::Content { value: CacheValue::Tree { snapshot: tree() } },
    }));
}

#[test]
fn lost_mutations_are_sent_again_once() {
    let mut core = reviewing();
    let effects = draft(&mut core, 77, "Looks wrong");
    let (_, client_seq) = mutation_sent(&effects);
    core.handle(Input::Transport(TransportEvent::Disconnected)).unwrap();
    assert_eq!(core.pending_count(), 1);
    user(&mut core, Action::Connect);
    core.handle(Input::Transport(TransportEvent::Connected)).unwrap();
    let effects = server(&mut core, ServerMsg::Welcome);
    let (id, _) = requests(&effects)[0];
    let response = Response::Subscribed { seq: EventSeq(5) };
    let effects = server(&mut core, ServerMsg::Response { id, response, len: 10 });
    let again: Vec<ClientSeq> = requests(&effects)
        .iter()
        .filter_map(|(_, r)| match r {
            Request::Mutate { client_seq, .. } => Some(*client_seq),
            _ => None,
        })
        .collect();
    assert_eq!(again, vec![client_seq]);
}

#[test]
fn failed_and_superseded_candidates_replace_nothing() {
    let mut core = reviewing();
    let browse = |core: &mut ClientCore, name: &str| {
        let ref_spec = Some(RefSpec::Branch { name: name.to_string() });
        let effects = user(core, Action::SetBrowseRef { repo_id: RepoId(7), ref_spec });
        requests(&effects)[0].0
    };
    let first = browse(&mut core, "old");
    let second = browse(&mut core, "main");
    // The first answer comes too late.
    let response = || Response::TreeSnapshot { snapshot: tree() };
    server(&mut core, ServerMsg::Response { id: first, response: response(), len: 1 });
    assert!(core.view().browse.as_ref().unwrap().selection.is_none());
    server(&mut core, ServerMsg::Response { id: second, response: response(), len: 1 });
    let chosen = core.view().browse.as_ref().unwrap().selection.dup();
    assert_eq!(
        chosen.as_ref().unwrap().ref_spec,
        RefSpec::Branch { name: "main".to_string() }
    );
    let third = browse(&mut core, "gone");
    let error = RpcError::Invalid { reason: "no such branch".to_string() };
    server(&mut core, ServerMsg::Error { id: third, error });
    assert_eq!(core.view().browse.as_ref().unwrap().selection, chosen);
    assert!(core.view().browse.as_ref().unwrap().attempt.is_some());
}

#[test]
fn a_file_that_is_listed_twice_counts_what_was_listed_last() {
    let path = || RepoPath { text: "a.rs".to_string() };
    let render = |low: u128| RenderKey {
        repo_id: RepoId(7),
        path: path(),
        target: RenderTarget::Blob { oid: BlobOid { high: 0, low } },
        opts: RenderOpts {
            ignore_whitespace: false,
            context_lines: 3,
            expanded: Expansions { open: Vec::new() },
        },
    };
    let stat = |additions: u32, deletions: u32| FileStat {
        file: FileRef { repo_id: RepoId(7), path: path() },
        additions,
        deletions,
    };
    let files = vec![render(1), render(2)];
    let p = progress(&snapshot(), &me(), &files, &vec![stat(1, 2), stat(10, 20)]);
    assert_eq!((p.total, p.additions, p.deletions), (2, 20, 40));
}

#[test]
fn searches_that_close_with_the_review_do_so_where_its_lists_are_named() {
    let mut core = reviewing();
    user(&mut core, Action::ActionPalette { open: true });
    assert!(core.view().action_palette);
    let effects = user(&mut core, Action::CloseReview);
    assert!(!core.view().action_palette);
    let sections = rendered(&effects);
    assert!(sections.contains(&ViewSection::ReviewList) && sections.contains(&ViewSection::Draft));
}

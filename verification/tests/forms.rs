use nits_client_core::client::{Action, ClientCore, Config, CoreError, Input, TransportEvent};
use nits_client_core::content::CacheConfig;
use nits_client_core::creation::{parse_ref, CreationEdit, CreationStatus, CreationTargetId};
use nits_client_core::errors::{is_no_review, rpc_error_message, selector_error};
use nits_client_core::flow::Effect;
use nits_client_core::protocol::{
    Author, BuildInfo, ClientId, ClientMsg, CommitOid, EntityKind, EventSeq, RefSpec, Repo,
    RepoId, Request, RequestId, Response, ReviewId, RpcError, ServerMsg, ViewSection,
    Workspace, WorkspaceId,
};
use nits_client_core::ref_selector::RefSelectorStatus;

#[test]
fn revisions_are_read_as_the_form_writes_them() {
    let ok = |text: &str| parse_ref(text).unwrap();
    assert_eq!(ok(" HEAD "), RefSpec::Head);
    assert_eq!(ok("worktree"), RefSpec::WorkingTree);
    assert_eq!(ok("@{upstream}"), RefSpec::Upstream);
    assert_eq!(ok("main"), RefSpec::Branch { name: "main".to_string() });
    assert_eq!(ok("branch:main"), RefSpec::Branch { name: "main".to_string() });
    assert_eq!(ok("tag:v1"), RefSpec::Tag { name: "v1".to_string() });
    assert_eq!(
        ok("commit:000000010000000000000000000000000000000f"),
        RefSpec::Commit { oid: CommitOid { high: 1, low: 15 } }
    );
    assert_eq!(parse_ref(" \u{2003}").unwrap_err(), "Enter a revision.");
    assert_eq!(
        parse_ref("commit:abc").unwrap_err(),
        "Invalid commit: expected 40 hexadecimal digits"
    );
    assert_eq!(
        parse_ref("tag:").unwrap_err(),
        "Use a branch, tag:name, commit:<oid>, head, upstream or worktree."
    );
}

#[test]
fn daemon_errors_in_words() {
    let gone = RpcError::NotFound { kind: EntityKind::Review, id: "r1".to_string() };
    assert_eq!(rpc_error_message(&gone), "Review r1 was not found");
    assert!(is_no_review(&gone));
    assert!(matches!(selector_error(&gone), RefSelectorStatus::InvalidRef { .. }));
    let old = RpcError::SeqTooOld { oldest: EventSeq(1200) };
    assert_eq!(rpc_error_message(&old), "event history starts at 1200");
    assert!(matches!(selector_error(&old), RefSelectorStatus::DaemonError { .. }));
    assert_eq!(rpc_error_message(&RpcError::Cancelled), "request cancelled");
    let mismatch = RpcError::VersionMismatch { negotiated: 2, received: 3 };
    assert_eq!(rpc_error_message(&mismatch), "expected protocol 2, received 3");
    let unsupported = RpcError::UnsupportedProtocol { requested: 9 };
    assert_eq!(rpc_error_message(&unsupported), "protocol 9 is unsupported");
    assert!(!is_no_review(&unsupported));
}

fn sent(effects: &[Effect]) -> Vec<(RequestId, &Request)> {
    effects
        .iter()
        .filter_map(|e| match e {
            Effect::Send(ClientMsg::Request { id, request }) => Some((*id, request)),
            _ => None,
        })
        .collect()
}

fn with_workspace() -> ClientCore {
    let mut core = ClientCore::new(Config {
        client_id: ClientId(1),
        client: BuildInfo { version: "1".to_string() },
        author: Author::Agent { name: "bot".to_string() },
        cache: CacheConfig::default(),
        daemon_context: None,
        reference_context: None,
    });
    core.handle(Input::User(Action::Connect)).unwrap();
    core.handle(Input::Transport(TransportEvent::Connected)).unwrap();
    let effects = core.handle(Input::Server(ServerMsg::Welcome)).unwrap();
    let id = sent(&effects)[0].0;
    let response = Response::Subscribed { seq: EventSeq(1) };
    core.handle(Input::Server(ServerMsg::Response { id, response, len: 1 })).unwrap();
    let effects = core.handle(Input::User(Action::ListWorkspaces)).unwrap();
    let id = sent(&effects)[0].0;
    let response = Response::Workspaces {
        workspaces: vec![Workspace {
            id: WorkspaceId(3),
            name: "work".to_string(),
            repos: vec![Repo {
                id: RepoId(7),
                display_name: "repo".to_string(),
                checkout: "/src/repo".to_string(),
            }],
        }],
    };
    core.handle(Input::Server(ServerMsg::Response { id, response, len: 1 })).unwrap();
    core
}

#[test]
fn a_review_is_created_from_its_form() {
    let mut core = with_workspace();
    let review_id = ReviewId(10);
    core.handle(Input::User(Action::StartCreation { workspace_id: WorkspaceId(3), review_id }))
        .unwrap();
    let edit = |core: &mut ClientCore, edit: CreationEdit| {
        core.handle(Input::User(Action::EditCreation { review_id, edit })).unwrap()
    };
    edit(&mut core, CreationEdit::Title { text: "A change".to_string() });
    let target_id = core.view().home.creating.as_ref().unwrap().draft.targets[0].id;
    edit(&mut core, CreationEdit::Base { target_id, text: "main".to_string() });
    let effects = core.handle(Input::User(Action::SubmitCreation { review_id })).unwrap();
    let creating = core.view().home.creating.as_ref().unwrap();
    assert!(matches!(creating.status, CreationStatus::Pending { .. }));
    let submission = creating.submitted().unwrap();
    assert_eq!(submission.title, "A change");
    assert_eq!(submission.targets.len(), 1);
    assert_eq!(submission.targets[0].base, RefSpec::Branch { name: "main".to_string() });
    assert_eq!(submission.targets[0].head, RefSpec::WorkingTree);
    assert!(!sent(&effects).is_empty());
    assert!(!creating.editable());

    // The connection is lost: the submission is kept and its fate unknown.
    let effects = core.handle(Input::Transport(TransportEvent::Disconnected)).unwrap();
    assert!(matches!(
        effects.last(),
        Some(Effect::Render(delta)) if delta.sections.contains(&ViewSection::ReviewList)
    ));
    let creating = core.view().home.creating.as_ref().unwrap();
    assert!(matches!(creating.status, CreationStatus::Interrupted { .. }));
    assert_eq!(creating.submitted(), Some(submission));
}

#[test]
fn unknown_rows_are_not_selected() {
    let mut core = with_workspace();
    let review_id = ReviewId(10);
    core.handle(Input::User(Action::StartCreation { workspace_id: WorkspaceId(3), review_id }))
        .unwrap();
    let selected = core.view().home.creating.as_ref().unwrap().selected;
    let missing = Action::SelectCreationTarget { review_id, target_id: CreationTargetId::new(99) };
    core.handle(Input::User(missing)).unwrap();
    assert_eq!(core.view().home.creating.as_ref().unwrap().selected, selected);
    assert_eq!(
        core.handle(Input::User(Action::CloseFile)),
        Err(CoreError::NoOpenReview)
    );
}

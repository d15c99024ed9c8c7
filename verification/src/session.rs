//! Connecting, listing and opening.
use vstd::prelude::*;

use crate::client;
use crate::client::{
    ClientCore, Connection, CoreError, InputKind, SpecClientCore, SpecCoreError, TransportEvent,
};
use crate::content::DiskTier;
use crate::data;
use crate::data::Value;
use crate::flow::{Errand, InFlight, Key, SpecErrand, SpecInFlight, SpecKey};
use crate::protocol::{
    ClientMsg, Request, ReviewId, SpecClientMsg, SpecRequest, ViewSection, WorkspaceId,
    PROTOCOL_CURRENT,
};
use crate::ref_selector::{
    RefSelectorStatus, SpecRefSelector, SpecRefSelectorStatus, SpecRefSelectorView,
};
use crate::view::{ConnectionView, SpecConnectionView};

verus! {

pub open spec fn disconnected_message() -> Seq<char> {
    "daemon disconnected"@
}

impl SpecClientCore {
    pub open spec fn emit(self, effect: SpecErrand) -> SpecClientCore {
        self.with_flow(self.flow.emit(effect))
    }

    /// What the host stored is asked for, once.
    #[verifier::opaque]
    pub open spec fn loaded_once(self) -> SpecClientCore {
        if self.prefs_loaded {
            self
        } else {
            SpecClientCore { prefs_loaded: true, ..self }.emit(SpecErrand::Load { key: SpecKey::Prefs }).emit(
                SpecErrand::Load { key: SpecKey::Keymap },
            )
        }
    }

    #[verifier::opaque]
    pub open spec fn connect(self) -> Result<SpecClientCore, SpecCoreError> {
        match self.connection {
            Connection::Disconnected { last_seq } => Ok(
                SpecClientCore {
                    connection: Connection::Connecting { hello_sent: false, last_seq },
                    ..self
                }.with_connection_view(SpecConnectionView::Connecting).emit(SpecErrand::Connect).touch(
                    seq![ViewSection::Connection],
                ).loaded_once(),
            ),
            _ => Err(self.wrong_state(InputKind::User)),
        }
    }

    #[verifier::opaque]
    pub open spec fn disconnect(self) -> Result<SpecClientCore, SpecCoreError> {
        match self.connection {
            Connection::Disconnected { .. } => Err(self.wrong_state(InputKind::User)),
            _ => Ok(self.emit(SpecErrand::Disconnect)),
        }
    }

    #[verifier::opaque]
    pub open spec fn list_workspaces(self) -> Result<SpecClientCore, SpecCoreError> {
        if self.subscribed() {
            Ok(self.request(SpecRequest::ListWorkspaces, SpecInFlight::ListWorkspaces))
        } else {
            Err(self.wrong_state(InputKind::User))
        }
    }

    pub open spec fn ask_reviews(self, workspace_id: WorkspaceId) -> SpecClientCore {
        self.request(SpecRequest::ListReviews { workspace_id }, SpecInFlight::ListReviews { workspace_id })
    }

    #[verifier::opaque]
    pub open spec fn list_reviews(self, workspace_id: WorkspaceId) -> Result<SpecClientCore, SpecCoreError> {
        if self.subscribed() {
            Ok(self.ask_reviews(workspace_id))
        } else {
            Err(self.wrong_state(InputKind::User))
        }
    }

    /// A review is opened in one stream, or piece by piece where some of it
    /// may be on disk.
    #[verifier::opaque]
    pub open spec fn open_review(self, review_id: ReviewId) -> Result<SpecClientCore, SpecCoreError> {
        if !self.subscribed() {
            Err(self.wrong_state(InputKind::User))
        } else {
            Ok(
                match self.flow.content.config.disk {
                    DiskTier::Disabled => self.request(
                        SpecRequest::OpenReview { review_id, opts: self.flow.content.config.render_opts },
                        SpecInFlight::OpenReview { review_id },
                    ),
                    DiskTier::Enabled { .. } => self.request(
                        SpecRequest::ReviewSnapshot { review_id },
                        SpecInFlight::ReviewSnapshot { review_id },
                    ),
                },
            )
        }
    }

    #[verifier::opaque]
    pub open spec fn leave_review(self) -> Result<SpecClientCore, SpecCoreError> {
        if self.view.review is None {
            Err(SpecCoreError::NoOpenReview)
        } else {
            Ok(self.closed_review().touch(seq![ViewSection::ReviewList, ViewSection::Draft]))
        }
    }

    /// The transport is up: the daemon is greeted, once.
    #[verifier::opaque]
    pub open spec fn greeted(self) -> SpecClientCore {
        match self.connection {
            Connection::Connecting { hello_sent, last_seq } => if hello_sent {
                self
            } else {
                SpecClientCore { connection: Connection::Connecting { hello_sent: true, last_seq }, ..self }.emit(
                    SpecErrand::Send(
                        SpecClientMsg::Hello {
                            client_id: self.config.client_id,
                            protocol: PROTOCOL_CURRENT,
                            client: self.config.client,
                            author: self.config.author,
                        },
                    ),
                )
            },
            _ => self,
        }
    }

    /// A list of refs that was loading never comes.
    #[verifier::opaque]
    pub open spec fn selector_lost(self) -> SpecClientCore {
        match self.ref_selector {
            Some(s) => if s.view.status is Loading {
                SpecClientCore {
                    ref_selector: Some(
                        SpecRefSelector {
                            view: SpecRefSelectorView {
                                status: SpecRefSelectorStatus::DaemonError { message: disconnected_message() },
                                ..s.view
                            },
                            ..s
                        },
                    ),
                    ..self
                }.touch(seq![ViewSection::RefSelector])
            } else {
                self
            },
            None => self,
        }
    }

    /// The connection is gone, whatever was waited for with it.
    #[verifier::opaque]
    pub open spec fn went_down(self) -> SpecClientCore {
        let c = SpecClientCore {
            connection: Connection::Disconnected { last_seq: self.connection.spec_last_seq() },
            ..self
        }.cleared();
        if self.connection is Disconnected {
            c
        } else {
            c.restart_disconnected().touch(
                seq![ViewSection::Connection],
            ).selector_lost().creation_lost().suggestions_disconnected().browse_disconnected()
        }
    }

    #[verifier::opaque]
    pub open spec fn transported(self, event: TransportEvent) -> SpecClientCore {
        match event {
            TransportEvent::Connected => self.greeted(),
            TransportEvent::Disconnected => self.went_down(),
        }
    }
}

impl ClientCore {
    fn load_once(&mut self)
        ensures
            final(self).deep_view() == old(self).deep_view().loaded_once(),
    {
        proof {
            reveal(ClientCore::model);
            reveal(SpecClientCore::loaded_once);
        }
        if !self.prefs_loaded {
            self.prefs_loaded = true;
            self.flow.emit(Errand::Load { key: Key::Prefs });
            self.flow.emit(Errand::Load { key: Key::Keymap });
        }
    }

    pub(crate) fn connect(&mut self) -> (r: Result<(), CoreError>)
        ensures
            client::settled(
                old(self).deep_view(),
                final(self).deep_view(),
                r,
                old(self).deep_view().connect(),
            ),
    {
        proof {
            reveal(ClientCore::model);
            reveal(SpecClientCore::connect);
        }
        match self.connection {
            Connection::Disconnected { last_seq } => {
                self.connection = Connection::Connecting { hello_sent: false, last_seq };
                self.view.set_connection(ConnectionView::Connecting);
                self.flow.emit(Errand::Connect);
                self.flow.touch(ViewSection::Connection);
                self.load_once();
                Ok(())
            },
            _ => Err(self.wrong_state(InputKind::User)),
        }
    }

    pub(crate) fn disconnect(&mut self) -> (r: Result<(), CoreError>)
        ensures
            client::settled(
                old(self).deep_view(),
                final(self).deep_view(),
                r,
                old(self).deep_view().disconnect(),
            ),
    {
        proof {
            reveal(ClientCore::model);
            reveal(SpecClientCore::disconnect);
        }
        match self.connection {
            Connection::Disconnected { .. } => Err(self.wrong_state(InputKind::User)),
            _ => {
                self.flow.emit(Errand::Disconnect);
                Ok(())
            },
        }
    }

    pub(crate) fn list_workspaces(&mut self) -> (r: Result<(), CoreError>)
        ensures
            client::settled(
                old(self).deep_view(),
                final(self).deep_view(),
                r,
                old(self).deep_view().list_workspaces(),
            ),
    {
        proof {
            reveal(ClientCore::model);
            reveal(SpecClientCore::list_workspaces);
        }
        if !self.is_subscribed() {
            return Err(self.wrong_state(InputKind::User));
        }
        self.flow.request(Request::ListWorkspaces, InFlight::ListWorkspaces);
        Ok(())
    }

    pub(crate) fn ask_reviews(&mut self, workspace_id: WorkspaceId)
        ensures
            final(self).deep_view() == old(self).deep_view().ask_reviews(workspace_id),
    {
        proof {
            reveal(ClientCore::model);
        }
        self.flow.request(Request::ListReviews { workspace_id }, InFlight::ListReviews { workspace_id });
    }

    pub(crate) fn list_reviews(&mut self, workspace_id: WorkspaceId) -> (r: Result<(), CoreError>)
        ensures
            client::settled(
                old(self).deep_view(),
                final(self).deep_view(),
                r,
                old(self).deep_view().list_reviews(workspace_id),
            ),
    {
        proof {
            reveal(ClientCore::model);
            reveal(SpecClientCore::list_reviews);
        }
        if !self.is_subscribed() {
            return Err(self.wrong_state(InputKind::User));
        }
        self.ask_reviews(workspace_id);
        Ok(())
    }

    pub(crate) fn open_review(&mut self, review_id: ReviewId) -> (r: Result<(), CoreError>)
        ensures
            client::settled(
                old(self).deep_view(),
                final(self).deep_view(),
                r,
                old(self).deep_view().open_review(review_id),
            ),
    {
        proof {
            reveal(ClientCore::model);
            reveal(SpecClientCore::open_review);
        }
        if !self.is_subscribed() {
            return Err(self.wrong_state(InputKind::User));
        }
        let streamed = match self.flow.content.config.disk {
            DiskTier::Disabled => true,
            DiskTier::Enabled { .. } => false,
        };
        if streamed {
            let opts = self.flow.content.config.render_opts.dup();
            self.flow.request(Request::OpenReview { review_id, opts }, InFlight::OpenReview { review_id });
        } else {
            self.flow.request(Request::ReviewSnapshot { review_id }, InFlight::ReviewSnapshot { review_id });
        }
        Ok(())
    }

    pub(crate) fn leave_review(&mut self) -> (r: Result<(), CoreError>)
        ensures
            client::settled(
                old(self).deep_view(),
                final(self).deep_view(),
                r,
                old(self).deep_view().leave_review(),
            ),
    {
        proof {
            reveal(ClientCore::model);
            reveal(SpecClientCore::leave_review);
        }
        if self.view.review().is_none() {
            return Err(CoreError::NoOpenReview);
        }
        self.close_review();
        self.flow.touch_all(data::two(ViewSection::ReviewList, ViewSection::Draft));
        Ok(())
    }

    fn greet(&mut self)
        ensures
            final(self).deep_view() == old(self).deep_view().greeted(),
    {
        proof {
            reveal(ClientCore::model);
            reveal(SpecClientCore::greeted);
        }
        match self.connection {
            Connection::Connecting { hello_sent, last_seq } => {
                if !hello_sent {
                    self.connection = Connection::Connecting { hello_sent: true, last_seq };
                    self.flow.emit(
                        Errand::Send(
                            ClientMsg::Hello {
                                client_id: self.config.client_id,
                                protocol: PROTOCOL_CURRENT,
                                client: self.config.client.dup(),
                                author: self.config.author.dup(),
                            },
                        ),
                    );
                }
            },
            _ => {},
        }
    }

    fn lose_selector(&mut self)
        ensures
            final(self).deep_view() == old(self).deep_view().selector_lost(),
    {
        proof {
            reveal(ClientCore::model);
            reveal(SpecClientCore::selector_lost);
        }
        match self.ref_selector.take() {
            Some(selector) => {
                let mut selector = selector;
                let loading = match selector.view.status {
                    RefSelectorStatus::Loading => true,
                    _ => false,
                };
                if loading {
                    selector.view.status = RefSelectorStatus::DaemonError {
                        message: "daemon disconnected".to_owned(),
                    };
                }
                self.ref_selector = Some(selector);
                if loading {
                    self.flow.touch(ViewSection::RefSelector);
                }
            },
            None => {},
        }
    }

    fn go_down(&mut self)
        ensures
            final(self).deep_view() == old(self).deep_view().went_down(),
    {
        proof {
            reveal(ClientCore::model);
            reveal(SpecClientCore::went_down);
        }
        let was_down = match self.connection {
            Connection::Disconnected { .. } => true,
            _ => false,
        };
        self.connection = Connection::Disconnected { last_seq: self.connection.last_seq() };
        self.clear_in_flight();
        if !was_down {
            self.restart_disconnected();
            self.flow.touch(ViewSection::Connection);
            self.lose_selector();
            self.lose_creation();
            self.suggestions_disconnected();
            self.browse_disconnected();
        }
    }

    pub(crate) fn transport(&mut self, event: TransportEvent)
        ensures
            final(self).deep_view() == old(self).deep_view().transported(event),
    {
        proof {
            reveal(ClientCore::model);
            reveal(SpecClientCore::transported);
        }
        match event {
            TransportEvent::Connected => self.greet(),
            TransportEvent::Disconnected => self.go_down(),
        }
    }
}

} // verus!

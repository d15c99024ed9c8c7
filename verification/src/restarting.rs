//! Planned replacement of the daemon, driven by the host's clock; and the
//! host's management of it.
use vstd::prelude::*;

use crate::client;
use crate::client::{ClientCore, Connection, Pending, SpecClientCore, SpecPending};
use crate::data;
use crate::data::Value;
use crate::flow;
use crate::flow::{Errand, SpecErrand};
use crate::lifecycle::{
    DaemonManagement, ManagementReply, ManagementRequest, ManagementRequestId, Recovery,
    SpecDaemonManagement, SpecManagementReply, SpecRecovery, SpecUpgradeOperation, UpgradeOperation,
};
use crate::protocol::{RpcError, SpecRpcError, ViewSection, PROTOCOL_CURRENT};
use crate::text;
use crate::view::{ConnectionView, SpecConnectionView, SpecViewModel};

verus! {

/// How long a restart is waited for.
pub const RESTART_BUDGET_MS: u64 = 60_000;

pub open spec fn later(now: u64, ms: u64) -> u64 {
    if now + ms <= u64::MAX {
        (now + ms) as u64
    } else {
        u64::MAX
    }
}

/// How long to wait after so many attempts.
pub open spec fn backoff(attempts: u8) -> u64 {
    if attempts == 0 {
        250
    } else if attempts == 1 {
        500
    } else if attempts == 2 {
        1000
    } else if attempts == 3 {
        2000
    } else {
        4000
    }
}

fn wait_for(attempts: u8) -> (r: u64)
    ensures
        r == backoff(attempts),
{
    if attempts == 0 {
        250
    } else if attempts == 1 {
        500
    } else if attempts == 2 {
        1000
    } else if attempts == 3 {
        2000
    } else {
        4000
    }
}

/// What is said when a restart takes too long.
pub open spec fn overdue_message(id: Seq<char>) -> Seq<char> {
    "Restart "@ + id
        + " did not become ready within the reconnect budget. Drafts are retained. Inspect daemon upgrade-status and reconnect when ready."@
}

pub open spec fn unsent() -> spec_fn(SpecPending) -> SpecPending {
    |p: SpecPending| SpecPending { sent: false, ..p }
}

impl SpecClientCore {
    pub open spec fn with_connection_view(self, connection: SpecConnectionView) -> SpecClientCore {
        self.with_view(SpecViewModel { connection, ..self.view })
    }

    /// Nothing is in flight any more; pending mutations are to be sent
    /// again.
    #[verifier::opaque]
    pub open spec fn cleared(self) -> SpecClientCore {
        SpecClientCore { flow: self.flow.cleared(), pending: self.pending.map_values(unsent()), ..self }
    }

    /// The daemon announced its replacement.
    #[verifier::opaque]
    pub open spec fn restart_notice(self, operation: SpecUpgradeOperation) -> SpecClientCore {
        SpecClientCore {
            recovery: SpecRecovery::Restarting {
                operation,
                deadline: later(self.now, RESTART_BUDGET_MS),
                next_attempt: later(self.now, 100),
                attempts: 0,
            },
            ..self
        }.with_connection_view(
            SpecConnectionView::Restarting { operation },
        ).touch(seq![ViewSection::Connection])
    }

    /// The connection went down: what is shown of it, and whether a restart
    /// is still waited for. A replacement that speaks another protocol is
    /// not.
    #[verifier::opaque]
    pub open spec fn restart_disconnected(self) -> SpecClientCore {
        match self.recovery {
            SpecRecovery::Restarting { operation, .. } => if operation.protocol == PROTOCOL_CURRENT {
                self.with_connection_view(SpecConnectionView::Restarting { operation })
            } else {
                (SpecClientCore { recovery: SpecRecovery::Idle, ..self }).with_connection_view(
                    SpecConnectionView::UpgradeRequired {
                        client: PROTOCOL_CURRENT,
                        supported: seq![operation.protocol],
                    },
                )
            },
            SpecRecovery::Idle => self.with_connection_view(SpecConnectionView::Disconnected),
        }
    }

    /// The restart took too long.
    #[verifier::opaque]
    pub open spec fn restart_overdue(self, operation: SpecUpgradeOperation) -> SpecClientCore {
        let c = SpecClientCore {
            connection: Connection::Disconnected { last_seq: self.connection.spec_last_seq() },
            recovery: SpecRecovery::Idle,
            ..self
        }.with_connection_view(
            SpecConnectionView::Rejected {
                error: SpecRpcError::Internal { message: overdue_message(operation.id) },
            },
        ).cleared();
        c.with_flow(c.flow.emit(SpecErrand::Disconnect)).touch(seq![ViewSection::Connection])
    }

    /// The next attempt is made, with a longer wait after it.
    #[verifier::opaque]
    pub open spec fn restart_attempt(self) -> SpecClientCore {
        match (self.recovery, self.connection) {
            (SpecRecovery::Restarting { operation, deadline, attempts, .. }, Connection::Disconnected { last_seq }) => {
                let c = SpecClientCore {
                    recovery: SpecRecovery::Restarting {
                        operation,
                        deadline,
                        next_attempt: later(self.now, backoff(attempts)),
                        attempts: if attempts == u8::MAX {
                            u8::MAX
                        } else {
                            (attempts + 1) as u8
                        },
                    },
                    connection: Connection::Connecting { hello_sent: false, last_seq },
                    ..self
                };
                c.with_flow(c.flow.emit(SpecErrand::Connect))
            },
            _ => self,
        }
    }

    /// The clock moved while a restart is waited for.
    #[verifier::opaque]
    pub open spec fn restart_tick(self) -> SpecClientCore {
        match self.recovery {
            SpecRecovery::Restarting { operation, deadline, next_attempt, .. } => if self.now >= deadline {
                self.restart_overdue(operation)
            } else if self.connection is Disconnected && self.now >= next_attempt {
                self.restart_attempt()
            } else {
                self
            },
            SpecRecovery::Idle => self,
        }
    }

    /// The host is asked to manage the daemon. An earlier reply no longer
    /// counts.
    #[verifier::opaque]
    pub open spec fn manage_daemon(self, request: ManagementRequest) -> SpecClientCore {
        let n = flow::next(self.next_management);
        let id = ManagementRequestId::of(n);
        let c = SpecClientCore { next_management: n, management_request: Some(id), ..self };
        let c = c.with_view(
            SpecViewModel {
                daemon_management: match request {
                    ManagementRequest::Inspect => SpecDaemonManagement::Inspecting,
                    ManagementRequest::Upgrade => SpecDaemonManagement::Upgrading,
                },
                ..c.view
            },
        );
        c.with_flow(
            c.flow.emit(SpecErrand::ManageDaemon { id, request }),
        ).touch(seq![ViewSection::Connection])
    }

    #[verifier::opaque]
    pub open spec fn managed_daemon(self, id: ManagementRequestId, reply: SpecManagementReply) -> SpecClientCore {
        if self.management_request != Some(id) {
            self
        } else {
            let c = SpecClientCore { management_request: None, ..self };
            c.with_view(SpecViewModel { daemon_management: reply.outcome(), ..c.view }).touch(
                seq![ViewSection::Connection],
            )
        }
    }
}

impl SpecManagementReply {
    /// What the reply is shown as.
    pub open spec fn outcome(self) -> SpecDaemonManagement {
        match self {
            SpecManagementReply::Status { status } => SpecDaemonManagement::Status { status },
            SpecManagementReply::Upgrade { result } => SpecDaemonManagement::Outcome { result },
            SpecManagementReply::StatusFailed { message } => SpecDaemonManagement::Unavailable { message },
            SpecManagementReply::UpgradeFailed { message } => SpecDaemonManagement::Unavailable { message },
        }
    }
}

impl ClientCore {
    /// Nothing is in flight any more.
    pub(crate) fn clear_in_flight(&mut self)
        ensures
            final(self).deep_view() == old(self).deep_view().cleared(),
    {
        proof {
            reveal(ClientCore::model);
            reveal(SpecClientCore::cleared);
        }
        self.flow.clear();
        self.pending = data::map(
            &self.pending,
            |p: &Pending| -> (r: Pending)
                ensures
                    r.deep_view() == unsent()(p.deep_view())
            {
                let mut r = p.dup();
                r.sent = false;
                r
            },
            Ghost(unsent()),
        );
    }

    pub(crate) fn restart_notice(&mut self, operation: UpgradeOperation)
        ensures
            final(self).deep_view() == old(self).deep_view().restart_notice(operation.deep_view()),
    {
        proof {
            reveal(ClientCore::model);
            reveal(SpecClientCore::restart_notice);
        }
        self.recovery = Recovery::Restarting {
            operation: operation.dup(),
            deadline: self.now.saturating_add(RESTART_BUDGET_MS),
            next_attempt: self.now.saturating_add(100),
            attempts: 0,
        };
        self.view.set_connection(ConnectionView::Restarting { operation });
        self.flow.touch(ViewSection::Connection);
    }

    pub(crate) fn restart_disconnected(&mut self)
        ensures
            final(self).deep_view() == old(self).deep_view().restart_disconnected(),
    {
        proof {
            reveal(ClientCore::model);
            reveal(SpecClientCore::restart_disconnected);
        }
        let operation = match &self.recovery {
            Recovery::Restarting { operation, .. } => Some(operation.dup()),
            Recovery::Idle => None,
        };
        match operation {
            Some(operation) => {
                if operation.protocol == PROTOCOL_CURRENT {
                    self.view.set_connection(ConnectionView::Restarting { operation });
                } else {
                    self.recovery = Recovery::Idle;
                    self.view.set_connection(
                        ConnectionView::UpgradeRequired {
                            client: PROTOCOL_CURRENT,
                            supported: data::one(operation.protocol),
                        },
                    );
                }
            },
            None => {
                self.view.set_connection(ConnectionView::Disconnected);
            },
        }
    }

    fn restart_overdue(&mut self, operation: UpgradeOperation)
        ensures
            final(self).deep_view() == old(self).deep_view().restart_overdue(operation.deep_view()),
    {
        proof {
            reveal(ClientCore::model);
            reveal(SpecClientCore::restart_overdue);
        }
        let s = text::join("Restart ", operation.id.as_str());
        let message = text::join(
            s.as_str(),
            " did not become ready within the reconnect budget. Drafts are retained. Inspect daemon upgrade-status and reconnect when ready.",
        );
        self.connection = Connection::Disconnected { last_seq: self.connection.last_seq() };
        self.recovery = Recovery::Idle;
        self.view.set_connection(ConnectionView::Rejected { error: RpcError::Internal { message } });
        self.clear_in_flight();
        self.flow.emit(Errand::Disconnect);
        self.flow.touch(ViewSection::Connection);
    }

    fn restart_attempt(&mut self)
        ensures
            final(self).deep_view() == old(self).deep_view().restart_attempt(),
    {
        proof {
            reveal(ClientCore::model);
            reveal(SpecClientCore::restart_attempt);
        }
        let last_seq = match self.connection {
            Connection::Disconnected { last_seq } => last_seq,
            _ => {
                return ;
            },
        };
        let recovery = match &self.recovery {
            Recovery::Restarting { operation, deadline, attempts, .. } => Recovery::Restarting {
                operation: operation.dup(),
                deadline: *deadline,
                next_attempt: self.now.saturating_add(wait_for(*attempts)),
                attempts: attempts.saturating_add(1),
            },
            Recovery::Idle => {
                return ;
            },
        };
        self.recovery = recovery;
        self.connection = Connection::Connecting { hello_sent: false, last_seq };
        self.flow.emit(Errand::Connect);
    }

    pub(crate) fn restart_tick(&mut self)
        ensures
            final(self).deep_view() == old(self).deep_view().restart_tick(),
    {
        proof {
            reveal(ClientCore::model);
            reveal(SpecClientCore::restart_tick);
        }
        let (operation, overdue, due) = match &self.recovery {
            Recovery::Restarting { operation, deadline, next_attempt, .. } => (
                operation.dup(),
                self.now >= *deadline,
                self.now >= *next_attempt,
            ),
            Recovery::Idle => {
                return ;
            },
        };
        if overdue {
            self.restart_overdue(operation);
        } else {
            match self.connection {
                Connection::Disconnected { .. } => {
                    if due {
                        self.restart_attempt();
                    }
                },
                _ => {},
            }
        }
    }

    pub(crate) fn manage_daemon(&mut self, request: ManagementRequest)
        ensures
            final(self).deep_view() == old(self).deep_view().manage_daemon(request),
    {
        proof {
            reveal(ClientCore::model);
            reveal(SpecClientCore::manage_daemon);
        }
        self.next_management = self.next_management.wrapping_add(1);
        let id = ManagementRequestId(self.next_management);
        self.management_request = Some(id);
        self.view.set_daemon_management(
            match request {
                ManagementRequest::Inspect => DaemonManagement::Inspecting,
                ManagementRequest::Upgrade => DaemonManagement::Upgrading,
            },
        );
        self.flow.emit(Errand::ManageDaemon { id, request });
        self.flow.touch(ViewSection::Connection);
    }

    pub(crate) fn managed_daemon(&mut self, id: ManagementRequestId, reply: ManagementReply)
        ensures
            final(self).deep_view() == old(self).deep_view().managed_daemon(id, reply.deep_view()),
    {
        proof {
            reveal(ClientCore::model);
            reveal(SpecClientCore::managed_daemon);
        }
        if self.management_request != Some(id) {
            return ;
        }
        self.management_request = None;
        self.view.set_daemon_management(
            match reply {
                ManagementReply::Status { status } => DaemonManagement::Status { status },
                ManagementReply::Upgrade { result } => DaemonManagement::Outcome { result },
                ManagementReply::StatusFailed { message } => DaemonManagement::Unavailable { message },
                ManagementReply::UpgradeFailed { message } => DaemonManagement::Unavailable { message },
            },
        );
        self.flow.touch(ViewSection::Connection);
    }
}

} // verus!

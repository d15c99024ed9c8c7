//! Planned replacement of the daemon, and its management by the host.
use vstd::prelude::*;

use crate::data::Value;

verus! {

/// An upgrade the daemon announced: what it is called, and the protocol the
/// replacement speaks.
#[derive(Debug, PartialEq, Eq)]
pub struct UpgradeOperation {
    pub id: String,
    pub protocol: u32,
}

/// Model of [`UpgradeOperation`].
#[verifier::ext_equal]
pub struct SpecUpgradeOperation {
    pub id: Seq<char>,
    pub protocol: u32,
}

impl DeepView for UpgradeOperation {
    type V = SpecUpgradeOperation;

    open spec fn deep_view(&self) -> SpecUpgradeOperation {
        SpecUpgradeOperation {
            id: self.id.deep_view(),
            protocol: self.protocol,
        }
    }
}

impl Value for UpgradeOperation {
    fn dup(&self) -> (r: Self) {
        UpgradeOperation {
            id: self.id.dup(),
            protocol: self.protocol,
        }
    }

    fn same(&self, other: &Self) -> (b: bool) {
        self.id.same(&other.id)
            && self.protocol == other.protocol
    }
}

/// What the host reported of a managed daemon.
#[derive(Debug, PartialEq, Eq)]
pub struct ManagedDaemonStatus {
    pub summary: String,
}

/// Model of [`ManagedDaemonStatus`].
#[verifier::ext_equal]
pub struct SpecManagedDaemonStatus {
    pub summary: Seq<char>,
}

impl DeepView for ManagedDaemonStatus {
    type V = SpecManagedDaemonStatus;

    open spec fn deep_view(&self) -> SpecManagedDaemonStatus {
        SpecManagedDaemonStatus {
            summary: self.summary.deep_view(),
        }
    }
}

impl Value for ManagedDaemonStatus {
    fn dup(&self) -> (r: Self) {
        ManagedDaemonStatus {
            summary: self.summary.dup(),
        }
    }

    fn same(&self, other: &Self) -> (b: bool) {
        self.summary.same(&other.summary)
    }
}

/// What the host reported of an upgrade.
#[derive(Debug, PartialEq, Eq)]
pub struct UpgradeResult {
    pub summary: String,
}

/// Model of [`UpgradeResult`].
#[verifier::ext_equal]
pub struct SpecUpgradeResult {
    pub summary: Seq<char>,
}

impl DeepView for UpgradeResult {
    type V = SpecUpgradeResult;

    open spec fn deep_view(&self) -> SpecUpgradeResult {
        SpecUpgradeResult {
            summary: self.summary.deep_view(),
        }
    }
}

impl Value for UpgradeResult {
    fn dup(&self) -> (r: Self) {
        UpgradeResult {
            summary: self.summary.dup(),
        }
    }

    fn same(&self, other: &Self) -> (b: bool) {
        self.summary.same(&other.summary)
    }
}

/// Correlates management work with its reply, apart from daemon requests.
#[derive(Debug, Clone, Copy, PartialEq, Eq, Structural)]
pub struct ManagementRequestId(pub(crate) u64);

impl DeepView for ManagementRequestId {
    type V = ManagementRequestId;

    open spec fn deep_view(&self) -> ManagementRequestId {
        *self
    }
}

impl Value for ManagementRequestId {
    fn dup(&self) -> (r: Self) {
        *self
    }

    fn same(&self, other: &Self) -> (b: bool) {
        *self == *other
    }
}

/// What the host is asked to do with the daemon.
#[derive(Debug, Clone, Copy, PartialEq, Eq, Structural)]
pub enum ManagementRequest {
    Inspect,
    Upgrade,
}

impl DeepView for ManagementRequest {
    type V = ManagementRequest;

    open spec fn deep_view(&self) -> ManagementRequest {
        *self
    }
}

impl Value for ManagementRequest {
    fn dup(&self) -> (r: Self) {
        *self
    }

    fn same(&self, other: &Self) -> (b: bool) {
        *self == *other
    }
}

/// What came of it.
#[derive(Debug, PartialEq, Eq)]
pub enum ManagementReply {
    Status { status: ManagedDaemonStatus },
    StatusFailed { message: String },
    Upgrade { result: UpgradeResult },
    UpgradeFailed { message: String },
}

/// Model of [`ManagementReply`].
#[verifier::ext_equal]
pub enum SpecManagementReply {
    Status { status: SpecManagedDaemonStatus },
    StatusFailed { message: Seq<char> },
    Upgrade { result: SpecUpgradeResult },
    UpgradeFailed { message: Seq<char> },
}

impl DeepView for ManagementReply {
    type V = SpecManagementReply;

    open spec fn deep_view(&self) -> SpecManagementReply {
        match self {
            ManagementReply::Status { status } => SpecManagementReply::Status {
                status: status.deep_view(),
            },
            ManagementReply::StatusFailed { message } => SpecManagementReply::StatusFailed {
                message: message.deep_view(),
            },
            ManagementReply::Upgrade { result } => SpecManagementReply::Upgrade {
                result: result.deep_view(),
            },
            ManagementReply::UpgradeFailed { message } => SpecManagementReply::UpgradeFailed {
                message: message.deep_view(),
            },
        }
    }
}

impl Value for ManagementReply {
    fn dup(&self) -> (r: Self) {
        match self {
            ManagementReply::Status { status } => ManagementReply::Status {
                status: status.dup(),
            },
            ManagementReply::StatusFailed { message } => ManagementReply::StatusFailed {
                message: message.dup(),
            },
            ManagementReply::Upgrade { result } => ManagementReply::Upgrade {
                result: result.dup(),
            },
            ManagementReply::UpgradeFailed { message } => ManagementReply::UpgradeFailed {
                message: message.dup(),
            },
        }
    }

    fn same(&self, other: &Self) -> (b: bool) {
        match (self, other) {
            (ManagementReply::Status { status: a0 }, ManagementReply::Status { status: b0 }) => a0.same(b0),
            (ManagementReply::StatusFailed { message: a0 }, ManagementReply::StatusFailed { message: b0 }) => a0.same(b0),
            (ManagementReply::Upgrade { result: a0 }, ManagementReply::Upgrade { result: b0 }) => a0.same(b0),
            (ManagementReply::UpgradeFailed { message: a0 }, ManagementReply::UpgradeFailed { message: b0 }) => a0.same(b0),
            _ => false,
        }
    }
}

/// Daemon management as the UI shows it.
#[derive(Debug, PartialEq, Eq)]
pub enum DaemonManagement {
    Idle,
    Inspecting,
    Status { status: ManagedDaemonStatus },
    Upgrading,
    Outcome { result: UpgradeResult },
    Unavailable { message: String },
}

/// Model of [`DaemonManagement`].
#[verifier::ext_equal]
pub enum SpecDaemonManagement {
    Idle,
    Inspecting,
    Status { status: SpecManagedDaemonStatus },
    Upgrading,
    Outcome { result: SpecUpgradeResult },
    Unavailable { message: Seq<char> },
}

impl DeepView for DaemonManagement {
    type V = SpecDaemonManagement;

    open spec fn deep_view(&self) -> SpecDaemonManagement {
        match self {
            DaemonManagement::Idle => SpecDaemonManagement::Idle,
            DaemonManagement::Inspecting => SpecDaemonManagement::Inspecting,
            DaemonManagement::Status { status } => SpecDaemonManagement::Status {
                status: status.deep_view(),
            },
            DaemonManagement::Upgrading => SpecDaemonManagement::Upgrading,
            DaemonManagement::Outcome { result } => SpecDaemonManagement::Outcome {
                result: result.deep_view(),
            },
            DaemonManagement::Unavailable { message } => SpecDaemonManagement::Unavailable {
                message: message.deep_view(),
            },
        }
    }
}

impl Value for DaemonManagement {
    fn dup(&self) -> (r: Self) {
        match self {
            DaemonManagement::Idle => DaemonManagement::Idle,
            DaemonManagement::Inspecting => DaemonManagement::Inspecting,
            DaemonManagement::Status { status } => DaemonManagement::Status {
                status: status.dup(),
            },
            DaemonManagement::Upgrading => DaemonManagement::Upgrading,
            DaemonManagement::Outcome { result } => DaemonManagement::Outcome {
                result: result.dup(),
            },
            DaemonManagement::Unavailable { message } => DaemonManagement::Unavailable {
                message: message.dup(),
            },
        }
    }

    fn same(&self, other: &Self) -> (b: bool) {
        match (self, other) {
            (DaemonManagement::Idle, DaemonManagement::Idle) => true,
            (DaemonManagement::Inspecting, DaemonManagement::Inspecting) => true,
            (DaemonManagement::Status { status: a0 }, DaemonManagement::Status { status: b0 }) => a0.same(b0),
            (DaemonManagement::Upgrading, DaemonManagement::Upgrading) => true,
            (DaemonManagement::Outcome { result: a0 }, DaemonManagement::Outcome { result: b0 }) => a0.same(b0),
            (DaemonManagement::Unavailable { message: a0 }, DaemonManagement::Unavailable { message: b0 }) => a0.same(b0),
            _ => false,
        }
    }
}

/// Whether a restart is being waited for.
#[derive(Debug, PartialEq, Eq)]
pub enum Recovery {
    Idle,
    Restarting { operation: UpgradeOperation, deadline: u64, next_attempt: u64, attempts: u8 },
}

/// Model of [`Recovery`].
#[verifier::ext_equal]
pub enum SpecRecovery {
    Idle,
    Restarting { operation: SpecUpgradeOperation, deadline: u64, next_attempt: u64, attempts: u8 },
}

impl DeepView for Recovery {
    type V = SpecRecovery;

    open spec fn deep_view(&self) -> SpecRecovery {
        match self {
            Recovery::Idle => SpecRecovery::Idle,
            Recovery::Restarting { operation, deadline, next_attempt, attempts } => SpecRecovery::Restarting {
                operation: operation.deep_view(),
                deadline: *deadline,
                next_attempt: *next_attempt,
                attempts: *attempts,
            },
        }
    }
}

impl Value for Recovery {
    fn dup(&self) -> (r: Self) {
        match self {
            Recovery::Idle => Recovery::Idle,
            Recovery::Restarting { operation, deadline, next_attempt, attempts } => Recovery::Restarting {
                operation: operation.dup(),
                deadline: *deadline,
                next_attempt: *next_attempt,
                attempts: *attempts,
            },
        }
    }

    fn same(&self, other: &Self) -> (b: bool) {
        match (self, other) {
            (Recovery::Idle, Recovery::Idle) => true,
            (Recovery::Restarting { operation: a0, deadline: a1, next_attempt: a2, attempts: a3 }, Recovery::Restarting { operation: b0, deadline: b1, next_attempt: b2, attempts: b3 }) => a0.same(b0) && *a1 == *b1 && *a2 == *b2 && *a3 == *b3,
            _ => false,
        }
    }
}


impl ManagementRequestId {
    /// The id with that number.
    pub open(crate) spec fn of(value: u64) -> ManagementRequestId {
        ManagementRequestId(value)
    }
}

} // verus!

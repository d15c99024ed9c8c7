//! The client core of a daemon-backed code review tool, without I/O.
//!
//! [`client::ClientCore`] is a state machine: the host feeds it every
//! [`client::Input`] (user actions, daemon messages, transport changes,
//! stored values, clock ticks) and acts on the [`flow::Effect`]s it returns.
//! It never touches a socket, a disk or a clock.
//!
//! What holds for every input:
//! - An input is either applied or refused with a [`client::CoreError`]. A
//!   refused input leaves the core as it was and asks for nothing, except
//!   that a key press is counted and ends its sequence, and that being
//!   turned away by the daemon takes the connection down.
//! - Draft text never enters the core before it is submitted.
//! - At most one render is asked for per input, after every other effect.
//! - Mutations are optimistic: the view shows what is committed with the
//!   pending mutations on top; the daemon's echo retires a pending one.
//! - Content is fetched through one path: memory, then disk, then daemon.
//!
//! Contracts speak of models: every type has a `Spec` twin that its
//! `deep_view` gives, made of sequences and numbers, and what an operation
//! does is a spec function on those.
use vstd::prelude::*;

pub mod acting;
pub mod actionlaws;
pub mod announcing;
pub mod answering;
pub mod answerlaws;
pub mod browse;
pub mod browsing;
pub mod cache;
pub mod changelaws;
pub mod choosinglaws;
pub mod client;
pub mod command;
pub mod configlaws;
pub mod content;
pub mod creating;
pub mod creation;
pub mod data;
pub mod delivery;
pub mod derived;
pub mod diff;
pub mod difflaws;
pub mod errors;
pub mod eventlaws;
pub mod events;
pub mod explorer;
pub mod explorerlaws;
pub mod fetching;
pub mod fetchlaws;
pub mod flow;
pub mod formlaws;
pub mod focus;
pub mod handling;
pub mod home;
pub mod keylaws;
pub mod keymap;
pub mod keytable;
pub mod lifecycle;
pub mod live;
pub mod livelaws;
pub mod patch;
pub mod presslaws;
pub mod protocol;
pub mod reading;
pub mod readinglaws;
pub mod ref_selector;
pub mod referring;
pub mod restarting;
pub mod serving;
pub mod servinglaws;
pub mod session;
pub mod settling;
pub mod soundness;
pub mod suggestion;
pub mod storelaws;
pub mod text;
pub mod textlaws;
pub mod view;
pub mod viewlaws;
pub mod writing;
pub mod writinglaws;

pub use browse::{BrowseAttemptView, BrowseStatus, BrowseTarget, BrowseView};
pub use cache::{Bytes, CacheKey, CacheValue, ContentCache, Evicted, RenderKey, TreeKey};
pub use client::{Action, ClientCore, Config, Connection, CoreError, Input, Resolved, Stored, TransportEvent};
pub use command::{Command, Context, Mode};
pub use content::{CacheConfig, DiskTier, PREFETCH_RADIUS};
pub use delivery::{
    ViewBatchKind, ViewDelivery, ViewDeliveryError, ViewEncoder, ViewFrame, VIEW_MESSAGE_LIMIT,
};
pub use diff::{CommitStepper, DiffView, FileRef, PendingIds, ThreadView, ViewedState};
pub use events::{EventMeta, MutationError};
pub use explorer::{Progress, TreeNode, TreeView};
pub use flow::{Effect, Key, Persisted};
pub use focus::{Focus, NoTarget, Realign, VisualAnchor, PAGE_ROWS};
pub use home::{DaemonContext, HomeRow, HomeView};
pub use keymap::{Keymap, KeysConfig, Lookup};
pub use patch::ViewPatch;
pub use ref_selector::{RefOption, RefSelectorStatus, RefSelectorView};
pub use view::{ConnectionView, Draft, OpenReview, ViewDelta, ViewModel, ViewPrefs};

verus! {

} // verus!

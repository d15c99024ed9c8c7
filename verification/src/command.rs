//! What a key can mean.
use vstd::prelude::*;

use crate::data;
use crate::data::Value;
use crate::text;

verus! {

/// Where the focus is; decides which bindings apply.
#[derive(Debug, Clone, Copy, PartialEq, Eq, Structural)]
pub enum Context {
    Global,
    ReviewList,
    Tree,
    Diff,
    Thread,
    Requests,
    Composer,
    CommitStepper,
    Help,
}

impl DeepView for Context {
    type V = Context;

    open spec fn deep_view(&self) -> Context {
        *self
    }
}

impl Value for Context {
    fn dup(&self) -> (r: Self) {
        *self
    }

    fn same(&self, other: &Self) -> (b: bool) {
        *self == *other
    }
}

/// Editing mode. In `Normal` keys are commands; in `Insert` a text editor
/// owns them; `Visual` selects lines of the diff.
#[derive(Debug, Clone, Copy, PartialEq, Eq, Structural)]
pub enum Mode {
    Normal,
    Insert,
    Visual,
}

impl DeepView for Mode {
    type V = Mode;

    open spec fn deep_view(&self) -> Mode {
        *self
    }
}

impl Value for Mode {
    fn dup(&self) -> (r: Self) {
        *self
    }

    fn same(&self, other: &Self) -> (b: bool) {
        *self == *other
    }
}

/// What a key means. Its target comes from the focus when it is resolved.
#[derive(Debug, Clone, Copy, PartialEq, Eq, Structural)]
pub enum Command {
    MoveDown,
    MoveUp,
    PageDown,
    PageUp,
    GoTop,
    GoBottom,
    NextHunk,
    PrevHunk,
    NextFile,
    PrevFile,
    NextComment,
    PrevComment,
    /// Open what is focused: a review, a file, a thread's location.
    Open,
    /// Leave the current level: close help, discard a draft, close the
    /// file, close the review.
    Back,
    /// Cycle focus between the panels.
    NextPanel,
    ToggleViewed,
    Comment,
    ReviewFinding,
    InformationalNote,
    Reply,
    /// Delete the focused thread's root comment (own comments only).
    Delete,
    /// Apply the focused suggestion thread's patch to the working tree.
    ApplySuggestion,
    ToggleResolved,
    DeferFinding,
    FileSearch,
    ToggleLayout,
    ToggleWhitespace,
    ToggleHelp,
    /// Show the "Files changed" tab.
    TabFiles,
    /// Show the "Conversation" tab.
    TabConversation,
    /// Show the "Browse" tab.
    TabBrowse,
    ToggleSidebar,
    /// Submit the open composer. The editor lives in the host, which handles
    /// the chord itself; the binding exists for hints, help and tooltips.
    Submit,
    Connect,
    Disconnect,
    /// Fetch the commit list for the focused repo.
    Commits,
    /// Scope: all changes (`base → head` as resolved).
    ScopeAll,
    /// Scope: step commit by commit (worktree last).
    ScopeByCommit,
    /// Toggle the `+ working tree` part of the all-changes scope.
    ScopeWorktree,
    /// Render the focused file again with more context.
    ExpandContext,
    /// Open the content search (`F`).
    ContentSearch,
    /// Open the actions palette (`:`): every command by name.
    ActionPalette,
    /// Copy the focused file's path to the clipboard, which the host owns.
    CopyPath,
    CopyCheckout,
    NewReview,
    GoHome,
    /// Copy the focused thread or selected reply's portable reference.
    CopyReference,
    NextReply,
    PrevReply,
    /// Collapse the focused tree node's parent dir (neo-tree `C`); on an
    /// open dir, the dir itself. Focus follows.
    CollapseParent,
    /// Collapse every dir of the tree.
    CollapseAll,
    /// Fold/unfold the focused file's section in the stacked diff.
    ToggleFileCollapse,
    /// Re-render the focused file with the whole file as context.
    ExpandFile,
    /// Focus the file tree panel.
    FocusTree,
    /// Focus the open diff.
    FocusDiff,
    /// Focus the thread list.
    FocusThreads,
    FocusRequests,
    CheckCurrent,
    CheckRequested,
    CheckpointDelta,
    /// Focus the commits list.
    FocusCommits,
    /// Re-list workspaces and reviews.
    Refresh,
    /// Enter (or leave) Visual line selection on the diff (`V`).
    VisualMode,
    /// Open the hidden lines above the focused row (`z u`).
    ExpandUp,
    /// Open the hidden lines below the focused row (`z d`).
    ExpandDown,
    /// Comment on the open file (`z c`, file-level anchor).
    CommentOnFile,
    /// Target the removed (left) half of the focused row (`h`/Left).
    SideBase,
    /// Target the added (right) half of the focused row (`l`/Right).
    SideHead,
    /// Put the focused row in the middle of the viewport (`z z`).
    CenterView,
    /// Put the focused row at the top of the viewport (`z t`).
    ViewTop,
    /// Put the focused row at the bottom of the viewport (`z b`).
    ViewBottom,
}

impl DeepView for Command {
    type V = Command;

    open spec fn deep_view(&self) -> Command {
        *self
    }
}

impl Value for Command {
    fn dup(&self) -> (r: Self) {
        *self
    }

    fn same(&self, other: &Self) -> (b: bool) {
        *self == *other
    }
}


impl Mode {
    pub open spec fn spec_name(self) -> Seq<char> {
        match self {
            Mode::Normal => "Normal"@,
            Mode::Insert => "Insert"@,
            Mode::Visual => "Visual"@,
        }
    }

    /// The mode's name.
    pub fn to_string(&self) -> (r: String)
        ensures
            r@ == self.spec_name(),
    {
        match self {
            Mode::Normal => "Normal".to_owned(),
            Mode::Insert => "Insert".to_owned(),
            Mode::Visual => "Visual".to_owned(),
        }
    }
}

/// Every context, in declaration order.
pub open spec fn all_contexts() -> Seq<Context> {
    seq![
        Context::Global,
        Context::ReviewList,
        Context::Tree,
        Context::Diff,
        Context::Thread,
        Context::Requests,
        Context::Composer,
        Context::CommitStepper,
        Context::Help,
    ]
}

pub fn contexts() -> (r: Vec<Context>)
    ensures
        r@ == all_contexts(),
{
    vec![
        Context::Global,
        Context::ReviewList,
        Context::Tree,
        Context::Diff,
        Context::Thread,
        Context::Requests,
        Context::Composer,
        Context::CommitStepper,
        Context::Help,
    ]
}

/// Every command, in declaration order.
pub open spec fn all_commands() -> Seq<Command> {
    Seq::empty()
        .push(Command::MoveDown)
        .push(Command::MoveUp)
        .push(Command::PageDown)
        .push(Command::PageUp)
        .push(Command::GoTop)
        .push(Command::GoBottom)
        .push(Command::NextHunk)
        .push(Command::PrevHunk)
        .push(Command::NextFile)
        .push(Command::PrevFile)
        .push(Command::NextComment)
        .push(Command::PrevComment)
        .push(Command::Open)
        .push(Command::Back)
        .push(Command::NextPanel)
        .push(Command::ToggleViewed)
        .push(Command::Comment)
        .push(Command::ReviewFinding)
        .push(Command::InformationalNote)
        .push(Command::Reply)
        .push(Command::Delete)
        .push(Command::ApplySuggestion)
        .push(Command::ToggleResolved)
        .push(Command::DeferFinding)
        .push(Command::FileSearch)
        .push(Command::ToggleLayout)
        .push(Command::ToggleWhitespace)
        .push(Command::ToggleHelp)
        .push(Command::TabFiles)
        .push(Command::TabConversation)
        .push(Command::TabBrowse)
        .push(Command::ToggleSidebar)
        .push(Command::Submit)
        .push(Command::Connect)
        .push(Command::Disconnect)
        .push(Command::Commits)
        .push(Command::ScopeAll)
        .push(Command::ScopeByCommit)
        .push(Command::ScopeWorktree)
        .push(Command::ExpandContext)
        .push(Command::ContentSearch)
        .push(Command::ActionPalette)
        .push(Command::CopyPath)
        .push(Command::CopyCheckout)
        .push(Command::NewReview)
        .push(Command::GoHome)
        .push(Command::CopyReference)
        .push(Command::NextReply)
        .push(Command::PrevReply)
        .push(Command::CollapseParent)
        .push(Command::CollapseAll)
        .push(Command::ToggleFileCollapse)
        .push(Command::ExpandFile)
        .push(Command::FocusTree)
        .push(Command::FocusDiff)
        .push(Command::FocusThreads)
        .push(Command::FocusRequests)
        .push(Command::CheckCurrent)
        .push(Command::CheckRequested)
        .push(Command::CheckpointDelta)
        .push(Command::FocusCommits)
        .push(Command::Refresh)
        .push(Command::VisualMode)
        .push(Command::ExpandUp)
        .push(Command::ExpandDown)
        .push(Command::CommentOnFile)
        .push(Command::SideBase)
        .push(Command::SideHead)
        .push(Command::CenterView)
        .push(Command::ViewTop)
        .push(Command::ViewBottom)
}

pub fn commands() -> (r: Vec<Command>)
    ensures
        r.deep_view() == all_commands(),
{
    let mut out: Vec<Command> = data::empty();
    data::push(&mut out, Command::MoveDown);
    data::push(&mut out, Command::MoveUp);
    data::push(&mut out, Command::PageDown);
    data::push(&mut out, Command::PageUp);
    data::push(&mut out, Command::GoTop);
    data::push(&mut out, Command::GoBottom);
    data::push(&mut out, Command::NextHunk);
    data::push(&mut out, Command::PrevHunk);
    data::push(&mut out, Command::NextFile);
    data::push(&mut out, Command::PrevFile);
    data::push(&mut out, Command::NextComment);
    data::push(&mut out, Command::PrevComment);
    data::push(&mut out, Command::Open);
    data::push(&mut out, Command::Back);
    data::push(&mut out, Command::NextPanel);
    data::push(&mut out, Command::ToggleViewed);
    data::push(&mut out, Command::Comment);
    data::push(&mut out, Command::ReviewFinding);
    data::push(&mut out, Command::InformationalNote);
    data::push(&mut out, Command::Reply);
    data::push(&mut out, Command::Delete);
    data::push(&mut out, Command::ApplySuggestion);
    data::push(&mut out, Command::ToggleResolved);
    data::push(&mut out, Command::DeferFinding);
    data::push(&mut out, Command::FileSearch);
    data::push(&mut out, Command::ToggleLayout);
    data::push(&mut out, Command::ToggleWhitespace);
    data::push(&mut out, Command::ToggleHelp);
    data::push(&mut out, Command::TabFiles);
    data::push(&mut out, Command::TabConversation);
    data::push(&mut out, Command::TabBrowse);
    data::push(&mut out, Command::ToggleSidebar);
    data::push(&mut out, Command::Submit);
    data::push(&mut out, Command::Connect);
    data::push(&mut out, Command::Disconnect);
    data::push(&mut out, Command::Commits);
    data::push(&mut out, Command::ScopeAll);
    data::push(&mut out, Command::ScopeByCommit);
    data::push(&mut out, Command::ScopeWorktree);
    data::push(&mut out, Command::ExpandContext);
    data::push(&mut out, Command::ContentSearch);
    data::push(&mut out, Command::ActionPalette);
    data::push(&mut out, Command::CopyPath);
    data::push(&mut out, Command::CopyCheckout);
    data::push(&mut out, Command::NewReview);
    data::push(&mut out, Command::GoHome);
    data::push(&mut out, Command::CopyReference);
    data::push(&mut out, Command::NextReply);
    data::push(&mut out, Command::PrevReply);
    data::push(&mut out, Command::CollapseParent);
    data::push(&mut out, Command::CollapseAll);
    data::push(&mut out, Command::ToggleFileCollapse);
    data::push(&mut out, Command::ExpandFile);
    data::push(&mut out, Command::FocusTree);
    data::push(&mut out, Command::FocusDiff);
    data::push(&mut out, Command::FocusThreads);
    data::push(&mut out, Command::FocusRequests);
    data::push(&mut out, Command::CheckCurrent);
    data::push(&mut out, Command::CheckRequested);
    data::push(&mut out, Command::CheckpointDelta);
    data::push(&mut out, Command::FocusCommits);
    data::push(&mut out, Command::Refresh);
    data::push(&mut out, Command::VisualMode);
    data::push(&mut out, Command::ExpandUp);
    data::push(&mut out, Command::ExpandDown);
    data::push(&mut out, Command::CommentOnFile);
    data::push(&mut out, Command::SideBase);
    data::push(&mut out, Command::SideHead);
    data::push(&mut out, Command::CenterView);
    data::push(&mut out, Command::ViewTop);
    data::push(&mut out, Command::ViewBottom);
    out
}

/// The command's name.
pub open spec fn command_name(command: Command) -> Seq<char> {
    match command {
        Command::MoveDown => "MoveDown"@,
        Command::MoveUp => "MoveUp"@,
        Command::PageDown => "PageDown"@,
        Command::PageUp => "PageUp"@,
        Command::GoTop => "GoTop"@,
        Command::GoBottom => "GoBottom"@,
        Command::NextHunk => "NextHunk"@,
        Command::PrevHunk => "PrevHunk"@,
        Command::NextFile => "NextFile"@,
        Command::PrevFile => "PrevFile"@,
        Command::NextComment => "NextComment"@,
        Command::PrevComment => "PrevComment"@,
        Command::Open => "Open"@,
        Command::Back => "Back"@,
        Command::NextPanel => "NextPanel"@,
        Command::ToggleViewed => "ToggleViewed"@,
        Command::Comment => "Comment"@,
        Command::ReviewFinding => "ReviewFinding"@,
        Command::InformationalNote => "InformationalNote"@,
        Command::Reply => "Reply"@,
        Command::Delete => "Delete"@,
        Command::ApplySuggestion => "ApplySuggestion"@,
        Command::ToggleResolved => "ToggleResolved"@,
        Command::DeferFinding => "DeferFinding"@,
        Command::FileSearch => "FileSearch"@,
        Command::ToggleLayout => "ToggleLayout"@,
        Command::ToggleWhitespace => "ToggleWhitespace"@,
        Command::ToggleHelp => "ToggleHelp"@,
        Command::TabFiles => "TabFiles"@,
        Command::TabConversation => "TabConversation"@,
        Command::TabBrowse => "TabBrowse"@,
        Command::ToggleSidebar => "ToggleSidebar"@,
        Command::Submit => "Submit"@,
        Command::Connect => "Connect"@,
        Command::Disconnect => "Disconnect"@,
        Command::Commits => "Commits"@,
        Command::ScopeAll => "ScopeAll"@,
        Command::ScopeByCommit => "ScopeByCommit"@,
        Command::ScopeWorktree => "ScopeWorktree"@,
        Command::ExpandContext => "ExpandContext"@,
        Command::ContentSearch => "ContentSearch"@,
        Command::ActionPalette => "ActionPalette"@,
        Command::CopyPath => "CopyPath"@,
        Command::CopyCheckout => "CopyCheckout"@,
        Command::NewReview => "NewReview"@,
        Command::GoHome => "GoHome"@,
        Command::CopyReference => "CopyReference"@,
        Command::NextReply => "NextReply"@,
        Command::PrevReply => "PrevReply"@,
        Command::CollapseParent => "CollapseParent"@,
        Command::CollapseAll => "CollapseAll"@,
        Command::ToggleFileCollapse => "ToggleFileCollapse"@,
        Command::ExpandFile => "ExpandFile"@,
        Command::FocusTree => "FocusTree"@,
        Command::FocusDiff => "FocusDiff"@,
        Command::FocusThreads => "FocusThreads"@,
        Command::FocusRequests => "FocusRequests"@,
        Command::CheckCurrent => "CheckCurrent"@,
        Command::CheckRequested => "CheckRequested"@,
        Command::CheckpointDelta => "CheckpointDelta"@,
        Command::FocusCommits => "FocusCommits"@,
        Command::Refresh => "Refresh"@,
        Command::VisualMode => "VisualMode"@,
        Command::ExpandUp => "ExpandUp"@,
        Command::ExpandDown => "ExpandDown"@,
        Command::CommentOnFile => "CommentOnFile"@,
        Command::SideBase => "SideBase"@,
        Command::SideHead => "SideHead"@,
        Command::CenterView => "CenterView"@,
        Command::ViewTop => "ViewTop"@,
        Command::ViewBottom => "ViewBottom"@,
    }
}

pub fn name_of(command: Command) -> (r: &'static str)
    ensures
        r@ == command_name(command),
{
    match command {
        Command::MoveDown => "MoveDown",
        Command::MoveUp => "MoveUp",
        Command::PageDown => "PageDown",
        Command::PageUp => "PageUp",
        Command::GoTop => "GoTop",
        Command::GoBottom => "GoBottom",
        Command::NextHunk => "NextHunk",
        Command::PrevHunk => "PrevHunk",
        Command::NextFile => "NextFile",
        Command::PrevFile => "PrevFile",
        Command::NextComment => "NextComment",
        Command::PrevComment => "PrevComment",
        Command::Open => "Open",
        Command::Back => "Back",
        Command::NextPanel => "NextPanel",
        Command::ToggleViewed => "ToggleViewed",
        Command::Comment => "Comment",
        Command::ReviewFinding => "ReviewFinding",
        Command::InformationalNote => "InformationalNote",
        Command::Reply => "Reply",
        Command::Delete => "Delete",
        Command::ApplySuggestion => "ApplySuggestion",
        Command::ToggleResolved => "ToggleResolved",
        Command::DeferFinding => "DeferFinding",
        Command::FileSearch => "FileSearch",
        Command::ToggleLayout => "ToggleLayout",
        Command::ToggleWhitespace => "ToggleWhitespace",
        Command::ToggleHelp => "ToggleHelp",
        Command::TabFiles => "TabFiles",
        Command::TabConversation => "TabConversation",
        Command::TabBrowse => "TabBrowse",
        Command::ToggleSidebar => "ToggleSidebar",
        Command::Submit => "Submit",
        Command::Connect => "Connect",
        Command::Disconnect => "Disconnect",
        Command::Commits => "Commits",
        Command::ScopeAll => "ScopeAll",
        Command::ScopeByCommit => "ScopeByCommit",
        Command::ScopeWorktree => "ScopeWorktree",
        Command::ExpandContext => "ExpandContext",
        Command::ContentSearch => "ContentSearch",
        Command::ActionPalette => "ActionPalette",
        Command::CopyPath => "CopyPath",
        Command::CopyCheckout => "CopyCheckout",
        Command::NewReview => "NewReview",
        Command::GoHome => "GoHome",
        Command::CopyReference => "CopyReference",
        Command::NextReply => "NextReply",
        Command::PrevReply => "PrevReply",
        Command::CollapseParent => "CollapseParent",
        Command::CollapseAll => "CollapseAll",
        Command::ToggleFileCollapse => "ToggleFileCollapse",
        Command::ExpandFile => "ExpandFile",
        Command::FocusTree => "FocusTree",
        Command::FocusDiff => "FocusDiff",
        Command::FocusThreads => "FocusThreads",
        Command::FocusRequests => "FocusRequests",
        Command::CheckCurrent => "CheckCurrent",
        Command::CheckRequested => "CheckRequested",
        Command::CheckpointDelta => "CheckpointDelta",
        Command::FocusCommits => "FocusCommits",
        Command::Refresh => "Refresh",
        Command::VisualMode => "VisualMode",
        Command::ExpandUp => "ExpandUp",
        Command::ExpandDown => "ExpandDown",
        Command::CommentOnFile => "CommentOnFile",
        Command::SideBase => "SideBase",
        Command::SideHead => "SideHead",
        Command::CenterView => "CenterView",
        Command::ViewTop => "ViewTop",
        Command::ViewBottom => "ViewBottom",
    }
}

/// What hints and help call a command.
pub open spec fn label_text(command: Command) -> Seq<char> {
    match command {
        Command::MoveDown => "down"@,
        Command::MoveUp => "up"@,
        Command::PageDown => "page down"@,
        Command::PageUp => "page up"@,
        Command::GoTop => "top"@,
        Command::GoBottom => "bottom"@,
        Command::NextHunk => "next hunk"@,
        Command::PrevHunk => "previous hunk"@,
        Command::NextFile => "next file"@,
        Command::PrevFile => "previous file"@,
        Command::NextComment => "next comment"@,
        Command::PrevComment => "previous comment"@,
        Command::Open => "open"@,
        Command::Back => "back"@,
        Command::NextPanel => "next panel"@,
        Command::ToggleViewed => "mark viewed"@,
        Command::Comment => "comment"@,
        Command::ReviewFinding => "review-wide finding"@,
        Command::InformationalNote => "informational note"@,
        Command::Reply => "reply"@,
        Command::Delete => "delete"@,
        Command::ApplySuggestion => "apply suggestion"@,
        Command::ToggleResolved => "resolve / reopen"@,
        Command::DeferFinding => "defer finding"@,
        Command::FileSearch => "find file"@,
        Command::ToggleLayout => "split/unified"@,
        Command::ToggleWhitespace => "whitespace"@,
        Command::ToggleHelp => "help"@,
        Command::TabFiles => "files changed"@,
        Command::TabConversation => "conversation"@,
        Command::TabBrowse => "browse"@,
        Command::ToggleSidebar => "toggle sidebar"@,
        Command::Submit => "submit"@,
        Command::Connect => "connect"@,
        Command::Disconnect => "disconnect"@,
        Command::Commits => "commits"@,
        Command::ScopeAll => "all changes"@,
        Command::ScopeByCommit => "by commit"@,
        Command::ScopeWorktree => "worktree"@,
        Command::ExpandContext => "expand context"@,
        Command::ContentSearch => "find in files"@,
        Command::ActionPalette => "actions"@,
        Command::CopyPath => "copy path"@,
        Command::CopyCheckout => "copy checkout path"@,
        Command::NewReview => "new review"@,
        Command::GoHome => "workspaces"@,
        Command::CopyReference => "copy reference"@,
        Command::NextReply => "next reply"@,
        Command::PrevReply => "previous reply"@,
        Command::CollapseParent => "collapse parent"@,
        Command::CollapseAll => "collapse all"@,
        Command::ToggleFileCollapse => "fold file"@,
        Command::ExpandFile => "expand full file"@,
        Command::FocusTree => "focus tree"@,
        Command::FocusDiff => "focus diff"@,
        Command::FocusThreads => "focus threads"@,
        Command::FocusRequests => "review requests"@,
        Command::CheckCurrent => "record current revision checked"@,
        Command::CheckRequested => "record requested revision checked"@,
        Command::CheckpointDelta => "next checkpoint delta"@,
        Command::FocusCommits => "focus commits"@,
        Command::Refresh => "refresh"@,
        Command::VisualMode => "select lines"@,
        Command::ExpandUp => "expand up"@,
        Command::ExpandDown => "expand down"@,
        Command::CommentOnFile => "comment on file"@,
        Command::SideBase => "target removed side"@,
        Command::SideHead => "target added side"@,
        Command::CenterView => "centre the view"@,
        Command::ViewTop => "row to top"@,
        Command::ViewBottom => "row to bottom"@,
    }
}

/// Human label for a command, shown in hints and help.
pub fn label(command: Command) -> (r: &'static str)
    ensures
        r@ == label_text(command),
{
    match command {
        Command::MoveDown => "down",
        Command::MoveUp => "up",
        Command::PageDown => "page down",
        Command::PageUp => "page up",
        Command::GoTop => "top",
        Command::GoBottom => "bottom",
        Command::NextHunk => "next hunk",
        Command::PrevHunk => "previous hunk",
        Command::NextFile => "next file",
        Command::PrevFile => "previous file",
        Command::NextComment => "next comment",
        Command::PrevComment => "previous comment",
        Command::Open => "open",
        Command::Back => "back",
        Command::NextPanel => "next panel",
        Command::ToggleViewed => "mark viewed",
        Command::Comment => "comment",
        Command::ReviewFinding => "review-wide finding",
        Command::InformationalNote => "informational note",
        Command::Reply => "reply",
        Command::Delete => "delete",
        Command::ApplySuggestion => "apply suggestion",
        Command::ToggleResolved => "resolve / reopen",
        Command::DeferFinding => "defer finding",
        Command::FileSearch => "find file",
        Command::ToggleLayout => "split/unified",
        Command::ToggleWhitespace => "whitespace",
        Command::ToggleHelp => "help",
        Command::TabFiles => "files changed",
        Command::TabConversation => "conversation",
        Command::TabBrowse => "browse",
        Command::ToggleSidebar => "toggle sidebar",
        Command::Submit => "submit",
        Command::Connect => "connect",
        Command::Disconnect => "disconnect",
        Command::Commits => "commits",
        Command::ScopeAll => "all changes",
        Command::ScopeByCommit => "by commit",
        Command::ScopeWorktree => "worktree",
        Command::ExpandContext => "expand context",
        Command::ContentSearch => "find in files",
        Command::ActionPalette => "actions",
        Command::CopyPath => "copy path",
        Command::CopyCheckout => "copy checkout path",
        Command::NewReview => "new review",
        Command::GoHome => "workspaces",
        Command::CopyReference => "copy reference",
        Command::NextReply => "next reply",
        Command::PrevReply => "previous reply",
        Command::CollapseParent => "collapse parent",
        Command::CollapseAll => "collapse all",
        Command::ToggleFileCollapse => "fold file",
        Command::ExpandFile => "expand full file",
        Command::FocusTree => "focus tree",
        Command::FocusDiff => "focus diff",
        Command::FocusThreads => "focus threads",
        Command::FocusRequests => "review requests",
        Command::CheckCurrent => "record current revision checked",
        Command::CheckRequested => "record requested revision checked",
        Command::CheckpointDelta => "next checkpoint delta",
        Command::FocusCommits => "focus commits",
        Command::Refresh => "refresh",
        Command::VisualMode => "select lines",
        Command::ExpandUp => "expand up",
        Command::ExpandDown => "expand down",
        Command::CommentOnFile => "comment on file",
        Command::SideBase => "target removed side",
        Command::SideHead => "target added side",
        Command::CenterView => "centre the view",
        Command::ViewTop => "row to top",
        Command::ViewBottom => "row to bottom",
    }
}

/// The modes a command may be bound and run in: the composer owns `Submit`,
/// `Back` works everywhere, motions and comments also run on a selection, and
/// the rest is for `Normal` alone.
pub open spec fn command_modes(command: Command) -> Seq<Mode> {
    match command {
        Command::Submit => seq![Mode::Insert],
        Command::Back => seq![Mode::Normal, Mode::Insert, Mode::Visual],
        Command::MoveDown
        | Command::MoveUp
        | Command::PageDown
        | Command::PageUp
        | Command::GoTop
        | Command::GoBottom
        | Command::Comment
        | Command::ReviewFinding
        | Command::InformationalNote
        | Command::VisualMode => seq![Mode::Normal, Mode::Visual],
        _ => seq![Mode::Normal],
    }
}

/// Which modes a command may be bound and run in.
pub fn modes_of(command: Command) -> (r: Vec<Mode>)
    ensures
        r@ == command_modes(command),
{
    match command {
        Command::Submit => vec![Mode::Insert],
        Command::Back => vec![Mode::Normal, Mode::Insert, Mode::Visual],
        Command::MoveDown
        | Command::MoveUp
        | Command::PageDown
        | Command::PageUp
        | Command::GoTop
        | Command::GoBottom
        | Command::Comment
        | Command::ReviewFinding
        | Command::InformationalNote
        | Command::VisualMode => vec![Mode::Normal, Mode::Visual],
        _ => vec![Mode::Normal],
    }
}

/// A name with every capital in lower case, behind an underscore unless it
/// is the first character.
pub open spec fn snake(name: Seq<char>) -> Seq<char>
    decreases name.len(),
{
    if name.len() == 0 {
        Seq::empty()
    } else {
        let c = name.last();
        let before = snake(name.drop_last());
        if 'A' <= c <= 'Z' {
            if name.len() > 1 {
                before.push('_').push(text::ascii_lower_char(c))
            } else {
                before.push(text::ascii_lower_char(c))
            }
        } else {
            before.push(c)
        }
    }
}

/// The command's name in the config file and the actions palette
/// (`ToggleLayout` is `toggle_layout`).
pub fn config_name(command: Command) -> (r: String)
    ensures
        r@ == snake(command_name(command)),
{
    let name = text::chars(name_of(command));
    let mut out = String::new();
    let n: usize = name.len();
    for i in 0..n
        invariant
            n == name@.len(),
            out@ == snake(name@.take(i as int)),
    {
        assert(name@.take(i + 1).drop_last() =~= name@.take(i as int));
        let c: char = name[i];
        if 'A' <= c && c <= 'Z' {
            if i > 0 {
                out.push('_');
            }
            let b: u8 = c as u8;
            out.push((b + 32) as char);
        } else {
            out.push(c);
        }
    }
    assert(name@.take(n as int) =~= name@);
    out
}

pub open spec fn in_name(c: char) -> bool {
    c != '_' && c != '-'
}

/// A name without underscores and dashes, in lower case.
pub open spec fn normal_name(name: Seq<char>) -> Seq<char> {
    text::folded(name.filter(|c: char| in_name(c)))
}

fn normalized(name: &str) -> (r: String)
    ensures
        r@ == normal_name(name@),
{
    let all = text::chars(name);
    let mut kept: Vec<char> = Vec::new();
    let n: usize = all.len();
    proof {
        reveal(Seq::filter);
    }
    assert(all@.take(0).filter(|c: char| in_name(c)) =~= Seq::empty());
    for i in 0..n
        invariant
            n == all@.len(),
            kept@ == all@.take(i as int).filter(|c: char| in_name(c)),
    {
        proof {
            reveal(Seq::filter);
        }
        assert(all@.take(i + 1).drop_last() =~= all@.take(i as int));
        let c: char = all[i];
        if c != '_' && c != '-' {
            kept.push(c);
        }
    }
    assert(all@.take(n as int) =~= all@);
    let kept = text::text(&kept);
    text::text(&text::fold(kept.as_str()))
}

pub open spec fn goes_by(wanted: Seq<char>) -> spec_fn(Command) -> bool {
    |c: Command| normal_name(command_name(c)) == wanted
}

/// The command a name refers to, whatever its case, underscores and dashes
/// (`toggle_layout`, `ToggleLayout`, `togglelayout`).
pub fn command_named(name: &str) -> (r: Option<Command>)
    ensures
        r == data::found(all_commands(), goes_by(normal_name(name@))),
{
    let wanted = normalized(name);
    let all = commands();
    let found = data::find(
        &all,
        |c: &Command| -> (b: bool)
            ensures
                b == goes_by(wanted@)(c.deep_view())
        { normalized(name_of(*c)).same(&wanted) },
        Ghost(goes_by(wanted@)),
    );
    match found {
        Some(c) => Some(*c),
        None => None,
    }
}


// ---- laws -----------------------------------------------------------------

proof fn lemma_normal_push(name: Seq<char>, c: char)
    ensures
        normal_name(name.push(c)) == (if in_name(c) {
            normal_name(name) + text::lower(c)
        } else {
            normal_name(name)
        }),
{
    reveal(Seq::filter);
    let p = |c: char| in_name(c);
    assert(name.push(c).drop_last() =~= name);
    if in_name(c) {
        assert(name.filter(p).push(c).drop_last() =~= name.filter(p));
    }
}

/// A command's name reads the same in both spellings.
pub proof fn spellings_read_the_same(name: Seq<char>)
    ensures
        normal_name(snake(name)) == normal_name(name),
    decreases name.len(),
{
    if name.len() > 0 {
        let rest = name.drop_last();
        let c = name.last();
        let before = snake(rest);
        assert(rest.push(c) =~= name);
        spellings_read_the_same(rest);
        lemma_normal_push(rest, c);
        if 'A' <= c <= 'Z' {
            let d = text::ascii_lower_char(c);
            assert('a' <= d <= 'z');
            assert(text::lower(c) == text::lower(d));
            lemma_normal_push(before, '_');
            lemma_normal_push(before.push('_'), d);
            lemma_normal_push(before, d);
        } else {
            lemma_normal_push(before, c);
        }
    }
}

#[verifier::rlimit(60)]
proof fn lemma_all_listed(command: Command)
    ensures
        exists|i: int| 0 <= i < all_commands().len() && #[trigger] all_commands()[i] == command,
{
    let all = all_commands();
    match command {
        Command::MoveDown => assert(all[0] == command),
        Command::MoveUp => assert(all[1] == command),
        Command::PageDown => assert(all[2] == command),
        Command::PageUp => assert(all[3] == command),
        Command::GoTop => assert(all[4] == command),
        Command::GoBottom => assert(all[5] == command),
        Command::NextHunk => assert(all[6] == command),
        Command::PrevHunk => assert(all[7] == command),
        Command::NextFile => assert(all[8] == command),
        Command::PrevFile => assert(all[9] == command),
        Command::NextComment => assert(all[10] == command),
        Command::PrevComment => assert(all[11] == command),
        Command::Open => assert(all[12] == command),
        Command::Back => assert(all[13] == command),
        Command::NextPanel => assert(all[14] == command),
        Command::ToggleViewed => assert(all[15] == command),
        Command::Comment => assert(all[16] == command),
        Command::ReviewFinding => assert(all[17] == command),
        Command::InformationalNote => assert(all[18] == command),
        Command::Reply => assert(all[19] == command),
        Command::Delete => assert(all[20] == command),
        Command::ApplySuggestion => assert(all[21] == command),
        Command::ToggleResolved => assert(all[22] == command),
        Command::DeferFinding => assert(all[23] == command),
        Command::FileSearch => assert(all[24] == command),
        Command::ToggleLayout => assert(all[25] == command),
        Command::ToggleWhitespace => assert(all[26] == command),
        Command::ToggleHelp => assert(all[27] == command),
        Command::TabFiles => assert(all[28] == command),
        Command::TabConversation => assert(all[29] == command),
        Command::TabBrowse => assert(all[30] == command),
        Command::ToggleSidebar => assert(all[31] == command),
        Command::Submit => assert(all[32] == command),
        Command::Connect => assert(all[33] == command),
        Command::Disconnect => assert(all[34] == command),
        Command::Commits => assert(all[35] == command),
        Command::ScopeAll => assert(all[36] == command),
        Command::ScopeByCommit => assert(all[37] == command),
        Command::ScopeWorktree => assert(all[38] == command),
        Command::ExpandContext => assert(all[39] == command),
        Command::ContentSearch => assert(all[40] == command),
        Command::ActionPalette => assert(all[41] == command),
        Command::CopyPath => assert(all[42] == command),
        Command::CopyCheckout => assert(all[43] == command),
        Command::NewReview => assert(all[44] == command),
        Command::GoHome => assert(all[45] == command),
        Command::CopyReference => assert(all[46] == command),
        Command::NextReply => assert(all[47] == command),
        Command::PrevReply => assert(all[48] == command),
        Command::CollapseParent => assert(all[49] == command),
        Command::CollapseAll => assert(all[50] == command),
        Command::ToggleFileCollapse => assert(all[51] == command),
        Command::ExpandFile => assert(all[52] == command),
        Command::FocusTree => assert(all[53] == command),
        Command::FocusDiff => assert(all[54] == command),
        Command::FocusThreads => assert(all[55] == command),
        Command::FocusRequests => assert(all[56] == command),
        Command::CheckCurrent => assert(all[57] == command),
        Command::CheckRequested => assert(all[58] == command),
        Command::CheckpointDelta => assert(all[59] == command),
        Command::FocusCommits => assert(all[60] == command),
        Command::Refresh => assert(all[61] == command),
        Command::VisualMode => assert(all[62] == command),
        Command::ExpandUp => assert(all[63] == command),
        Command::ExpandDown => assert(all[64] == command),
        Command::CommentOnFile => assert(all[65] == command),
        Command::SideBase => assert(all[66] == command),
        Command::SideHead => assert(all[67] == command),
        Command::CenterView => assert(all[68] == command),
        Command::ViewTop => assert(all[69] == command),
        Command::ViewBottom => assert(all[70] == command),
    }
}

/// A number made of the length of a text, its second character, its last and
/// the one in its middle.
spec fn mark(s: Seq<char>) -> int {
    ((s.len() * 128 + s[1] as u32) * 128 + s.last() as u32) * 128 + s[s.len() as int / 2] as u32
}

/// The marks of the labels; no two are the same.
spec fn label_mark(command: Command) -> int {
    match command {
        Command::MoveDown => 10221431,
        Command::MoveUp => 6043760,
        Command::PageDown => 20477728,
        Command::PageUp => 16283749,
        Command::GoTop => 8124527,
        Command::GoBottom => 14415604,
        Command::NextHunk => 20542880,
        Command::PrevHunk => 29144565,
        Command::NextFile => 20542112,
        Command::PrevFile => 29143797,
        Command::NextComment => 26835567,
        Command::PrevComment => 35437088,
        Command::Open => 10237797,
        Command::Back => 9991651,
        Command::NextPanel => 22640240,
        Command::ToggleViewed => 24670838,
        Command::Comment => 16513645,
        Command::ReviewFinding => 41513956,
        Command::InformationalNote => 39564015,
        Command::Reply => 12156144,
        Command::Delete => 14250725,
        Command::ApplySuggestion => 35403623,
        Command::ToggleResolved => 35223343,
        Command::DeferFinding => 28931046,
        Command::FileSearch => 20607648,
        Command::ToggleLayout => 29110901,
        Command::ToggleWhitespace => 22688499,
        Command::ToggleHelp => 10057836,
        Command::TabFiles => 28996195,
        Command::TabConversation => 26998643,
        Command::TabBrowse => 14463735,
        Command::ToggleSidebar => 31193459,
        Command::Submit => 14514797,
        Command::Connect => 16513646,
        Command::Disconnect => 22706798,
        Command::Commits => 16513517,
        Command::ScopeAll => 24852968,
        Command::ScopeByCommit => 20871791,
        Command::ScopeWorktree => 18608884,
        Command::ExpandContext => 31341155,
        Command::ContentSearch => 28998126,
        Command::ActionPalette => 16316905,
        Command::CopyPath => 20706336,
        Command::CopyCheckout => 39580779,
        Command::NewReview => 22641637,
        Command::GoHome => 22804976,
        Command::CopyReference => 31191782,
        Command::NextReply => 22641906,
        Command::PrevReply => 31243507,
        Command::CollapseParent => 33290853,
        Command::CollapseAll => 26998387,
        Command::ToggleFileCollapse => 20705952,
        Command::ExpandFile => 35533557,
        Command::FocusTree => 22803104,
        Command::FocusDiff => 22803232,
        Command::FocusThreads => 29096436,
        Command::FocusRequests => 33126898,
        Command::CheckCurrent => 66679410,
        Command::CheckRequested => 70873632,
        Command::CheckpointDelta => 45707504,
        Command::FocusCommits => 29096419,
        Command::Refresh => 16348274,
        Command::VisualMode => 26835360,
        Command::ExpandUp => 20854894,
        Command::ExpandDown => 25048932,
        Command::CommentOnFile => 33288864,
        Command::SideBase => 41448173,
        Command::SideHead => 37253860,
        Command::CenterView => 33127412,
        Command::ViewTop => 22804591,
        Command::ViewBottom => 29095584,
    }
}

#[verifier::rlimit(100)]
proof fn lemma_label_mark(command: Command)
    ensures
        mark(label_text(command)) == label_mark(command),
        label_text(command).len() > 0,
{
    match command {
        Command::MoveDown => reveal_strlit("down"),
        Command::MoveUp => reveal_strlit("up"),
        Command::PageDown => reveal_strlit("page down"),
        Command::PageUp => reveal_strlit("page up"),
        Command::GoTop => reveal_strlit("top"),
        Command::GoBottom => reveal_strlit("bottom"),
        Command::NextHunk => reveal_strlit("next hunk"),
        Command::PrevHunk => reveal_strlit("previous hunk"),
        Command::NextFile => reveal_strlit("next file"),
        Command::PrevFile => reveal_strlit("previous file"),
        Command::NextComment => reveal_strlit("next comment"),
        Command::PrevComment => reveal_strlit("previous comment"),
        Command::Open => reveal_strlit("open"),
        Command::Back => reveal_strlit("back"),
        Command::NextPanel => reveal_strlit("next panel"),
        Command::ToggleViewed => reveal_strlit("mark viewed"),
        Command::Comment => reveal_strlit("comment"),
        Command::ReviewFinding => reveal_strlit("review-wide finding"),
        Command::InformationalNote => reveal_strlit("informational note"),
        Command::Reply => reveal_strlit("reply"),
        Command::Delete => reveal_strlit("delete"),
        Command::ApplySuggestion => reveal_strlit("apply suggestion"),
        Command::ToggleResolved => reveal_strlit("resolve / reopen"),
        Command::DeferFinding => reveal_strlit("defer finding"),
        Command::FileSearch => reveal_strlit("find file"),
        Command::ToggleLayout => reveal_strlit("split/unified"),
        Command::ToggleWhitespace => reveal_strlit("whitespace"),
        Command::ToggleHelp => reveal_strlit("help"),
        Command::TabFiles => reveal_strlit("files changed"),
        Command::TabConversation => reveal_strlit("conversation"),
        Command::TabBrowse => reveal_strlit("browse"),
        Command::ToggleSidebar => reveal_strlit("toggle sidebar"),
        Command::Submit => reveal_strlit("submit"),
        Command::Connect => reveal_strlit("connect"),
        Command::Disconnect => reveal_strlit("disconnect"),
        Command::Commits => reveal_strlit("commits"),
        Command::ScopeAll => reveal_strlit("all changes"),
        Command::ScopeByCommit => reveal_strlit("by commit"),
        Command::ScopeWorktree => reveal_strlit("worktree"),
        Command::ExpandContext => reveal_strlit("expand context"),
        Command::ContentSearch => reveal_strlit("find in files"),
        Command::ActionPalette => reveal_strlit("actions"),
        Command::CopyPath => reveal_strlit("copy path"),
        Command::CopyCheckout => reveal_strlit("copy checkout path"),
        Command::NewReview => reveal_strlit("new review"),
        Command::GoHome => reveal_strlit("workspaces"),
        Command::CopyReference => reveal_strlit("copy reference"),
        Command::NextReply => reveal_strlit("next reply"),
        Command::PrevReply => reveal_strlit("previous reply"),
        Command::CollapseParent => reveal_strlit("collapse parent"),
        Command::CollapseAll => reveal_strlit("collapse all"),
        Command::ToggleFileCollapse => reveal_strlit("fold file"),
        Command::ExpandFile => reveal_strlit("expand full file"),
        Command::FocusTree => reveal_strlit("focus tree"),
        Command::FocusDiff => reveal_strlit("focus diff"),
        Command::FocusThreads => reveal_strlit("focus threads"),
        Command::FocusRequests => reveal_strlit("review requests"),
        Command::CheckCurrent => reveal_strlit("record current revision checked"),
        Command::CheckRequested => reveal_strlit("record requested revision checked"),
        Command::CheckpointDelta => reveal_strlit("next checkpoint delta"),
        Command::FocusCommits => reveal_strlit("focus commits"),
        Command::Refresh => reveal_strlit("refresh"),
        Command::VisualMode => reveal_strlit("select lines"),
        Command::ExpandUp => reveal_strlit("expand up"),
        Command::ExpandDown => reveal_strlit("expand down"),
        Command::CommentOnFile => reveal_strlit("comment on file"),
        Command::SideBase => reveal_strlit("target removed side"),
        Command::SideHead => reveal_strlit("target added side"),
        Command::CenterView => reveal_strlit("centre the view"),
        Command::ViewTop => reveal_strlit("row to top"),
        Command::ViewBottom => reveal_strlit("row to bottom"),
    }
}

/// Every command has a label, and no two commands have the same.
pub proof fn labels_tell_commands_apart(a: Command, b: Command)
    ensures
        label_text(a).len() > 0,
        label_text(a) == label_text(b) ==> a == b,
{
    lemma_label_mark(a);
    lemma_label_mark(b);
}

/// The first `n` characters are ASCII letters.
spec fn letters(s: Seq<char>, n: int) -> bool
    decreases n,
{
    n <= 0 || (('a' <= s[n - 1] <= 'z' || 'A' <= s[n - 1] <= 'Z') && letters(s, n - 1))
}

/// A name made of letters reads as its lower case.
proof fn lemma_normal_letters(s: Seq<char>, n: int)
    requires
        0 <= n <= s.len(),
        letters(s, n),
    ensures
        normal_name(s.take(n)) == text::ascii_lower(s.take(n)),
    decreases n,
{
    let part = s.take(n);
    if n == 0 {
        reveal(Seq::filter);
        assert(part.filter(|c: char| in_name(c)) =~= Seq::empty());
        assert(text::ascii_lower(part) =~= Seq::empty());
    } else {
        lemma_normal_letters(s, n - 1);
        assert(part =~= s.take(n - 1).push(s[n - 1]));
        lemma_normal_push(s.take(n - 1), s[n - 1]);
        assert(text::ascii_lower(part) =~= text::ascii_lower(s.take(n - 1)) + text::lower(s[n - 1]));
    }
}

/// The marks of the names in lower case; no two are the same.
spec fn name_mark(command: Command) -> int {
    match command {
        Command::MoveDown => 18610020,
        Command::MoveUp => 14415973,
        Command::PageDown => 18380644,
        Command::PageUp => 14186597,
        Command::GoTop => 12318836,
        Command::GoBottom => 18609908,
        Command::NextHunk => 18445800,
        Command::PrevHunk => 18658792,
        Command::NextFile => 18445030,
        Command::PrevFile => 18658022,
        Command::NextComment => 24738415,
        Command::PrevComment => 24951407,
        Command::Open => 10237797,
        Command::Back => 9991651,
        Command::NextPanel => 20543088,
        Command::ToggleViewed => 26997366,
        Command::Comment => 16513645,
        Command::ReviewFinding => 28931046,
        Command::InformationalNote => 37466857,
        Command::Reply => 12156144,
        Command::Delete => 14250725,
        Command::ApplySuggestion => 33306471,
        Command::ToggleResolved => 31191653,
        Command::DeferFinding => 26833897,
        Command::FileSearch => 22705253,
        Command::ToggleLayout => 26999404,
        Command::ToggleWhitespace => 35386089,
        Command::ToggleHelp => 22804581,
        Command::TabFiles => 18381289,
        Command::TabConversation => 33060709,
        Command::TabBrowse => 20476658,
        Command::ToggleSidebar => 29096307,
        Command::Submit => 14514797,
        Command::Connect => 16513646,
        Command::Disconnect => 22706798,
        Command::Commits => 16513517,
        Command::ScopeAll => 18413157,
        Command::ScopeByCommit => 28899961,
        Command::ScopeWorktree => 28898031,
        Command::ExpandContext => 29244003,
        Command::ContentSearch => 29095028,
        Command::ActionPalette => 28898032,
        Command::CopyPath => 18609264,
        Command::CopyCheckout => 26999397,
        Command::NewReview => 20544485,
        Command::GoHome => 14414575,
        Command::CopyReference => 29094630,
        Command::NextReply => 20544754,
        Command::PrevReply => 20757746,
        Command::CollapseParent => 31193701,
        Command::CollapseAll => 24901232,
        Command::ToggleFileCollapse => 39580389,
        Command::ExpandFile => 22950628,
        Command::FocusTree => 20706035,
        Command::FocusDiff => 20706163,
        Command::FocusThreads => 26999272,
        Command::FocusRequests => 29096421,
        Command::CheckCurrent => 26884725,
        Command::CheckRequested => 31076977,
        Command::CheckpointDelta => 33173737,
        Command::FocusCommits => 26999279,
        Command::Refresh => 16348274,
        Command::VisualMode => 22704876,
        Command::ExpandUp => 18757742,
        Command::ExpandDown => 22951780,
        Command::CommentOnFile => 29094644,
        Command::SideBase => 18510562,
        Command::SideHead => 18510440,
        Command::CenterView => 22641650,
        Command::ViewTop => 16414839,
        Command::ViewBottom => 22705903,
    }
}

#[verifier::rlimit(100)]
proof fn lemma_name_mark(command: Command)
    ensures
        mark(text::ascii_lower(command_name(command))) == name_mark(command),
        letters(command_name(command), command_name(command).len() as int),
{
    reveal_with_fuel(letters, 24);
    match command {
        Command::MoveDown => reveal_strlit("MoveDown"),
        Command::MoveUp => reveal_strlit("MoveUp"),
        Command::PageDown => reveal_strlit("PageDown"),
        Command::PageUp => reveal_strlit("PageUp"),
        Command::GoTop => reveal_strlit("GoTop"),
        Command::GoBottom => reveal_strlit("GoBottom"),
        Command::NextHunk => reveal_strlit("NextHunk"),
        Command::PrevHunk => reveal_strlit("PrevHunk"),
        Command::NextFile => reveal_strlit("NextFile"),
        Command::PrevFile => reveal_strlit("PrevFile"),
        Command::NextComment => reveal_strlit("NextComment"),
        Command::PrevComment => reveal_strlit("PrevComment"),
        Command::Open => reveal_strlit("Open"),
        Command::Back => reveal_strlit("Back"),
        Command::NextPanel => reveal_strlit("NextPanel"),
        Command::ToggleViewed => reveal_strlit("ToggleViewed"),
        Command::Comment => reveal_strlit("Comment"),
        Command::ReviewFinding => reveal_strlit("ReviewFinding"),
        Command::InformationalNote => reveal_strlit("InformationalNote"),
        Command::Reply => reveal_strlit("Reply"),
        Command::Delete => reveal_strlit("Delete"),
        Command::ApplySuggestion => reveal_strlit("ApplySuggestion"),
        Command::ToggleResolved => reveal_strlit("ToggleResolved"),
        Command::DeferFinding => reveal_strlit("DeferFinding"),
        Command::FileSearch => reveal_strlit("FileSearch"),
        Command::ToggleLayout => reveal_strlit("ToggleLayout"),
        Command::ToggleWhitespace => reveal_strlit("ToggleWhitespace"),
        Command::ToggleHelp => reveal_strlit("ToggleHelp"),
        Command::TabFiles => reveal_strlit("TabFiles"),
        Command::TabConversation => reveal_strlit("TabConversation"),
        Command::TabBrowse => reveal_strlit("TabBrowse"),
        Command::ToggleSidebar => reveal_strlit("ToggleSidebar"),
        Command::Submit => reveal_strlit("Submit"),
        Command::Connect => reveal_strlit("Connect"),
        Command::Disconnect => reveal_strlit("Disconnect"),
        Command::Commits => reveal_strlit("Commits"),
        Command::ScopeAll => reveal_strlit("ScopeAll"),
        Command::ScopeByCommit => reveal_strlit("ScopeByCommit"),
        Command::ScopeWorktree => reveal_strlit("ScopeWorktree"),
        Command::ExpandContext => reveal_strlit("ExpandContext"),
        Command::ContentSearch => reveal_strlit("ContentSearch"),
        Command::ActionPalette => reveal_strlit("ActionPalette"),
        Command::CopyPath => reveal_strlit("CopyPath"),
        Command::CopyCheckout => reveal_strlit("CopyCheckout"),
        Command::NewReview => reveal_strlit("NewReview"),
        Command::GoHome => reveal_strlit("GoHome"),
        Command::CopyReference => reveal_strlit("CopyReference"),
        Command::NextReply => reveal_strlit("NextReply"),
        Command::PrevReply => reveal_strlit("PrevReply"),
        Command::CollapseParent => reveal_strlit("CollapseParent"),
        Command::CollapseAll => reveal_strlit("CollapseAll"),
        Command::ToggleFileCollapse => reveal_strlit("ToggleFileCollapse"),
        Command::ExpandFile => reveal_strlit("ExpandFile"),
        Command::FocusTree => reveal_strlit("FocusTree"),
        Command::FocusDiff => reveal_strlit("FocusDiff"),
        Command::FocusThreads => reveal_strlit("FocusThreads"),
        Command::FocusRequests => reveal_strlit("FocusRequests"),
        Command::CheckCurrent => reveal_strlit("CheckCurrent"),
        Command::CheckRequested => reveal_strlit("CheckRequested"),
        Command::CheckpointDelta => reveal_strlit("CheckpointDelta"),
        Command::FocusCommits => reveal_strlit("FocusCommits"),
        Command::Refresh => reveal_strlit("Refresh"),
        Command::VisualMode => reveal_strlit("VisualMode"),
        Command::ExpandUp => reveal_strlit("ExpandUp"),
        Command::ExpandDown => reveal_strlit("ExpandDown"),
        Command::CommentOnFile => reveal_strlit("CommentOnFile"),
        Command::SideBase => reveal_strlit("SideBase"),
        Command::SideHead => reveal_strlit("SideHead"),
        Command::CenterView => reveal_strlit("CenterView"),
        Command::ViewTop => reveal_strlit("ViewTop"),
        Command::ViewBottom => reveal_strlit("ViewBottom"),
    }
}

proof fn lemma_names_tell_apart(a: Command, b: Command)
    requires
        normal_name(command_name(a)) == normal_name(command_name(b)),
    ensures
        a == b,
{
    lemma_name_mark(a);
    lemma_name_mark(b);
    assert(text::ascii_lower(command_name(a)) == text::ascii_lower(command_name(b))) by {
        let n = command_name(a);
        let m = command_name(b);
        lemma_normal_letters(n, n.len() as int);
        lemma_normal_letters(m, m.len() as int);
        assert(n.take(n.len() as int) =~= n);
        assert(m.take(m.len() as int) =~= m);
    }
}

proof fn lemma_found_by_name(all: Seq<Command>, command: Command)
    requires
        all.contains(command),
    ensures
        data::found(all, goes_by(normal_name(command_name(command)))) == Some(command),
{
    let wanted = goes_by(normal_name(command_name(command)));
    data::lemma_found(all, wanted);
    assert(wanted(command));
    lemma_names_tell_apart(command, data::found(all, wanted)->0);
}

/// The name a command has in a config is read as that command.
pub proof fn configured_names_are_known(command: Command)
    ensures
        data::found(all_commands(), goes_by(normal_name(snake(command_name(command))))) == Some(command),
{
    spellings_read_the_same(command_name(command));
    assert(all_commands().contains(command)) by {
        lemma_all_listed(command);
    }
    lemma_found_by_name(all_commands(), command);
}

} // verus!

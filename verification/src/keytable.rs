//! The built-in key table: vim-style movement, a `g` goto group and a leader
//! tree, one section per place the focus can be.
use vstd::prelude::*;

use crate::command::{Command, Context};
use crate::data;
use crate::keymap::{Binding, KeyChord, KeySeq, NamedKey, SpecBinding, SpecKeySeq};

verus! {

/// One row of the table.
pub open spec fn row(context: Context, chords: Seq<KeyChord>, command: Command, primary: bool) -> SpecBinding {
    SpecBinding { context, keys: SpecKeySeq { chords }, command, primary }
}

fn one(table: &mut Vec<Binding>, context: Context, chord: KeyChord, command: Command, primary: bool)
    ensures
        final(table).deep_view() == old(table).deep_view().push(row(context, seq![chord], command, primary)),
{
    data::push(table, Binding { context, keys: KeySeq::single(chord), command, primary });
}

fn two(
    table: &mut Vec<Binding>,
    context: Context,
    first: KeyChord,
    second: KeyChord,
    command: Command,
    primary: bool,
)
    ensures
        final(table).deep_view() == old(table).deep_view().push(
            row(context, seq![first, second], command, primary),
        ),
{
    data::push(table, Binding { context, keys: KeySeq::pair(first, second), command, primary });
}

/// Commands that apply everywhere.
pub open spec fn with_global(table: Seq<SpecBinding>, leader: KeyChord) -> Seq<SpecBinding> {
    table
        .push(row(Context::Global, seq![KeyChord::of_char('?')], Command::ToggleHelp, true))
        .push(row(Context::Global, seq![KeyChord::of_named(NamedKey::Tab)], Command::NextPanel, false))
        .push(row(Context::Global, seq![KeyChord::of_char('t')], Command::FileSearch, true))
        .push(row(Context::Global, seq![KeyChord::of_char('p').with_ctrl()], Command::FileSearch, false))
        .push(row(Context::Global, seq![KeyChord::of_char('p').with_meta()], Command::FileSearch, false))
        .push(row(Context::Global, seq![KeyChord::of_char('F')], Command::ContentSearch, false))
        .push(row(Context::Global, seq![KeyChord::of_char(':')], Command::ActionPalette, false))
        .push(row(Context::Global, seq![KeyChord::of_char('1')], Command::TabFiles, false))
        .push(row(Context::Global, seq![KeyChord::of_char('2')], Command::TabConversation, false))
        .push(row(Context::Global, seq![KeyChord::of_char('3')], Command::TabBrowse, false))
        .push(row(Context::Global, seq![KeyChord::of_char('s')], Command::ToggleLayout, false))
        .push(row(Context::Global, seq![KeyChord::of_char('w')], Command::ToggleWhitespace, false))
        .push(
            row(
                Context::Global,
                seq![KeyChord::of_char('g'), KeyChord::of_char('f')],
                Command::NextFile,
                false,
            ),
        )
        .push(
            row(
                Context::Global,
                seq![KeyChord::of_char('g'), KeyChord::of_char('F')],
                Command::PrevFile,
                false,
            ),
        )
        .push(
            row(
                Context::Global,
                seq![KeyChord::of_char('g'), KeyChord::of_char('e')],
                Command::FocusTree,
                false,
            ),
        )
        .push(
            row(
                Context::Global,
                seq![KeyChord::of_char('g'), KeyChord::of_char('d')],
                Command::FocusDiff,
                false,
            ),
        )
        .push(
            row(
                Context::Global,
                seq![KeyChord::of_char('g'), KeyChord::of_char('t')],
                Command::FocusThreads,
                false,
            ),
        )
        .push(
            row(
                Context::Global,
                seq![KeyChord::of_char('g'), KeyChord::of_char('r')],
                Command::FocusRequests,
                false,
            ),
        )
        .push(
            row(
                Context::Global,
                seq![KeyChord::of_char('g'), KeyChord::of_char('m')],
                Command::FocusCommits,
                false,
            ),
        )
}

fn add_global(table: &mut Vec<Binding>, leader: KeyChord)
    ensures
        final(table).deep_view() == with_global(old(table).deep_view(), leader),
{
    one(table, Context::Global, KeyChord::char('?'), Command::ToggleHelp, true);
    one(table, Context::Global, KeyChord::named(NamedKey::Tab), Command::NextPanel, false);
    one(table, Context::Global, KeyChord::char('t'), Command::FileSearch, true);
    one(table, Context::Global, KeyChord::char('p').ctrl(), Command::FileSearch, false);
    one(table, Context::Global, KeyChord::char('p').meta(), Command::FileSearch, false);
    one(table, Context::Global, KeyChord::char('F'), Command::ContentSearch, false);
    one(table, Context::Global, KeyChord::char(':'), Command::ActionPalette, false);
    one(table, Context::Global, KeyChord::char('1'), Command::TabFiles, false);
    one(table, Context::Global, KeyChord::char('2'), Command::TabConversation, false);
    one(table, Context::Global, KeyChord::char('3'), Command::TabBrowse, false);
    one(table, Context::Global, KeyChord::char('s'), Command::ToggleLayout, false);
    one(table, Context::Global, KeyChord::char('w'), Command::ToggleWhitespace, false);
    two(table, Context::Global, KeyChord::char('g'), KeyChord::char('f'), Command::NextFile, false);
    two(table, Context::Global, KeyChord::char('g'), KeyChord::char('F'), Command::PrevFile, false);
    two(table, Context::Global, KeyChord::char('g'), KeyChord::char('e'), Command::FocusTree, false);
    two(table, Context::Global, KeyChord::char('g'), KeyChord::char('d'), Command::FocusDiff, false);
    two(table, Context::Global, KeyChord::char('g'), KeyChord::char('t'), Command::FocusThreads, false);
    two(table, Context::Global, KeyChord::char('g'), KeyChord::char('r'), Command::FocusRequests, false);
    two(table, Context::Global, KeyChord::char('g'), KeyChord::char('m'), Command::FocusCommits, false);
}

/// The leader tree, and what leaves a level.
pub open spec fn with_leader_tree(table: Seq<SpecBinding>, leader: KeyChord) -> Seq<SpecBinding> {
    table
        .push(row(Context::Global, seq![leader, KeyChord::of_char('a')], Command::ScopeAll, false))
        .push(row(Context::Global, seq![leader, KeyChord::of_char('c')], Command::ScopeByCommit, false))
        .push(row(Context::Global, seq![leader, KeyChord::of_char('w')], Command::ScopeWorktree, false))
        .push(row(Context::Global, seq![leader, KeyChord::of_char('s')], Command::ToggleLayout, false))
        .push(row(Context::Global, seq![leader, KeyChord::of_char('h')], Command::ToggleWhitespace, false))
        .push(row(Context::Global, seq![leader, KeyChord::of_char('b')], Command::ToggleSidebar, false))
        .push(row(Context::Global, seq![leader, KeyChord::of_char('C')], Command::Commits, false))
        .push(row(Context::Global, seq![leader, KeyChord::of_char('i')], Command::InformationalNote, false))
        .push(row(Context::Global, seq![leader, KeyChord::of_char('k')], Command::CheckCurrent, false))
        .push(row(Context::Requests, seq![KeyChord::of_char('v')], Command::CheckRequested, false))
        .push(row(Context::Global, seq![leader, KeyChord::of_char('d')], Command::CheckpointDelta, false))
        .push(row(Context::Global, seq![leader, KeyChord::of_char('f')], Command::ReviewFinding, false))
        .push(row(Context::Global, seq![KeyChord::of_named(NamedKey::Esc)], Command::Back, false))
        .push(
            row(
                Context::Global,
                seq![KeyChord::of_char('c').with_shift().with_ctrl()],
                Command::Connect,
                false,
            ),
        )
        .push(
            row(
                Context::Global,
                seq![KeyChord::of_char('d').with_shift().with_ctrl()],
                Command::Disconnect,
                false,
            ),
        )
        .push(
            row(
                Context::Global,
                seq![KeyChord::of_char('g'), KeyChord::of_char('W')],
                Command::GoHome,
                false,
            ),
        )
}

fn add_leader_tree(table: &mut Vec<Binding>, leader: KeyChord)
    ensures
        final(table).deep_view() == with_leader_tree(old(table).deep_view(), leader),
{
    two(table, Context::Global, leader, KeyChord::char('a'), Command::ScopeAll, false);
    two(table, Context::Global, leader, KeyChord::char('c'), Command::ScopeByCommit, false);
    two(table, Context::Global, leader, KeyChord::char('w'), Command::ScopeWorktree, false);
    two(table, Context::Global, leader, KeyChord::char('s'), Command::ToggleLayout, false);
    two(table, Context::Global, leader, KeyChord::char('h'), Command::ToggleWhitespace, false);
    two(table, Context::Global, leader, KeyChord::char('b'), Command::ToggleSidebar, false);
    two(table, Context::Global, leader, KeyChord::char('C'), Command::Commits, false);
    two(table, Context::Global, leader, KeyChord::char('i'), Command::InformationalNote, false);
    two(table, Context::Global, leader, KeyChord::char('k'), Command::CheckCurrent, false);
    one(table, Context::Requests, KeyChord::char('v'), Command::CheckRequested, false);
    two(table, Context::Global, leader, KeyChord::char('d'), Command::CheckpointDelta, false);
    two(table, Context::Global, leader, KeyChord::char('f'), Command::ReviewFinding, false);
    one(table, Context::Global, KeyChord::named(NamedKey::Esc), Command::Back, false);
    one(table, Context::Global, KeyChord::char('c').shift().ctrl(), Command::Connect, false);
    one(table, Context::Global, KeyChord::char('d').shift().ctrl(), Command::Disconnect, false);
    two(table, Context::Global, KeyChord::char('g'), KeyChord::char('W'), Command::GoHome, false);
}

/// The review list.
pub open spec fn with_review_list(table: Seq<SpecBinding>, leader: KeyChord) -> Seq<SpecBinding> {
    table
        .push(row(Context::ReviewList, seq![KeyChord::of_char('j')], Command::MoveDown, true))
        .push(row(Context::ReviewList, seq![KeyChord::of_char('k')], Command::MoveUp, true))
        .push(row(Context::ReviewList, seq![KeyChord::of_named(NamedKey::Down)], Command::MoveDown, false))
        .push(row(Context::ReviewList, seq![KeyChord::of_named(NamedKey::Up)], Command::MoveUp, false))
        .push(
            row(
                Context::ReviewList,
                seq![KeyChord::of_char('g'), KeyChord::of_char('g')],
                Command::GoTop,
                false,
            ),
        )
        .push(row(Context::ReviewList, seq![KeyChord::of_char('G')], Command::GoBottom, false))
        .push(row(Context::ReviewList, seq![KeyChord::of_named(NamedKey::Enter)], Command::Open, true))
        .push(row(Context::ReviewList, seq![KeyChord::of_char('R')], Command::Refresh, false))
        .push(row(Context::ReviewList, seq![KeyChord::of_char('y')], Command::CopyCheckout, true))
        .push(row(Context::ReviewList, seq![KeyChord::of_char('N')], Command::NewReview, true))
}

fn add_review_list(table: &mut Vec<Binding>, leader: KeyChord)
    ensures
        final(table).deep_view() == with_review_list(old(table).deep_view(), leader),
{
    one(table, Context::ReviewList, KeyChord::char('j'), Command::MoveDown, true);
    one(table, Context::ReviewList, KeyChord::char('k'), Command::MoveUp, true);
    one(table, Context::ReviewList, KeyChord::named(NamedKey::Down), Command::MoveDown, false);
    one(table, Context::ReviewList, KeyChord::named(NamedKey::Up), Command::MoveUp, false);
    two(table, Context::ReviewList, KeyChord::char('g'), KeyChord::char('g'), Command::GoTop, false);
    one(table, Context::ReviewList, KeyChord::char('G'), Command::GoBottom, false);
    one(table, Context::ReviewList, KeyChord::named(NamedKey::Enter), Command::Open, true);
    one(table, Context::ReviewList, KeyChord::char('R'), Command::Refresh, false);
    one(table, Context::ReviewList, KeyChord::char('y'), Command::CopyCheckout, true);
    one(table, Context::ReviewList, KeyChord::char('N'), Command::NewReview, true);
}

/// The explorer.
pub open spec fn with_tree(table: Seq<SpecBinding>, leader: KeyChord) -> Seq<SpecBinding> {
    table
        .push(row(Context::Tree, seq![KeyChord::of_char('j')], Command::MoveDown, true))
        .push(row(Context::Tree, seq![KeyChord::of_char('k')], Command::MoveUp, true))
        .push(row(Context::Tree, seq![KeyChord::of_named(NamedKey::Down)], Command::MoveDown, false))
        .push(row(Context::Tree, seq![KeyChord::of_named(NamedKey::Up)], Command::MoveUp, false))
        .push(row(Context::Tree, seq![KeyChord::of_char('g'), KeyChord::of_char('g')], Command::GoTop, false))
        .push(row(Context::Tree, seq![KeyChord::of_char('G')], Command::GoBottom, false))
        .push(row(Context::Tree, seq![KeyChord::of_named(NamedKey::Enter)], Command::Open, true))
        .push(row(Context::Tree, seq![KeyChord::of_char('v')], Command::ToggleViewed, true))
        .push(
            row(Context::Tree, seq![KeyChord::of_char(']'), KeyChord::of_char('f')],
            Command::NextFile,
            false),
        )
        .push(
            row(
                Context::Tree,
                seq![KeyChord::of_char('['), KeyChord::of_char('f')], Command::PrevFile, false,
            ),
        )
        .push(row(Context::Tree, seq![KeyChord::of_char('n')], Command::NextHunk, false))
        .push(row(Context::Tree, seq![KeyChord::of_char('p')], Command::PrevHunk, false))
        .push(row(Context::Tree, seq![KeyChord::of_char('c')], Command::Comment, true))
        .push(row(Context::Tree, seq![KeyChord::of_char('y')], Command::CopyPath, false))
        .push(row(Context::Tree, seq![KeyChord::of_char('C')], Command::CollapseParent, false))
        .push(row(Context::Tree, seq![KeyChord::of_char('z')], Command::CollapseAll, false))
}

fn add_tree(table: &mut Vec<Binding>, leader: KeyChord)
    ensures
        final(table).deep_view() == with_tree(old(table).deep_view(), leader),
{
    one(table, Context::Tree, KeyChord::char('j'), Command::MoveDown, true);
    one(table, Context::Tree, KeyChord::char('k'), Command::MoveUp, true);
    one(table, Context::Tree, KeyChord::named(NamedKey::Down), Command::MoveDown, false);
    one(table, Context::Tree, KeyChord::named(NamedKey::Up), Command::MoveUp, false);
    two(table, Context::Tree, KeyChord::char('g'), KeyChord::char('g'), Command::GoTop, false);
    one(table, Context::Tree, KeyChord::char('G'), Command::GoBottom, false);
    one(table, Context::Tree, KeyChord::named(NamedKey::Enter), Command::Open, true);
    one(table, Context::Tree, KeyChord::char('v'), Command::ToggleViewed, true);
    two(table, Context::Tree, KeyChord::char(']'), KeyChord::char('f'), Command::NextFile, false);
    two(table, Context::Tree, KeyChord::char('['), KeyChord::char('f'), Command::PrevFile, false);
    one(table, Context::Tree, KeyChord::char('n'), Command::NextHunk, false);
    one(table, Context::Tree, KeyChord::char('p'), Command::PrevHunk, false);
    one(table, Context::Tree, KeyChord::char('c'), Command::Comment, true);
    one(table, Context::Tree, KeyChord::char('y'), Command::CopyPath, false);
    one(table, Context::Tree, KeyChord::char('C'), Command::CollapseParent, false);
    one(table, Context::Tree, KeyChord::char('z'), Command::CollapseAll, false);
}

/// The diff: motions, the expand and scroll group, and both halves of a row.
pub open spec fn with_diff(table: Seq<SpecBinding>, leader: KeyChord) -> Seq<SpecBinding> {
    table
        .push(row(Context::Diff, seq![KeyChord::of_char('j')], Command::MoveDown, true))
        .push(row(Context::Diff, seq![KeyChord::of_char('k')], Command::MoveUp, true))
        .push(row(Context::Diff, seq![KeyChord::of_named(NamedKey::Down)], Command::MoveDown, false))
        .push(row(Context::Diff, seq![KeyChord::of_named(NamedKey::Up)], Command::MoveUp, false))
        .push(row(Context::Diff, seq![KeyChord::of_char('d').with_ctrl()], Command::PageDown, false))
        .push(row(Context::Diff, seq![KeyChord::of_char('u').with_ctrl()], Command::PageUp, false))
        .push(row(Context::Diff, seq![KeyChord::of_named(NamedKey::PageDown)], Command::PageDown, false))
        .push(row(Context::Diff, seq![KeyChord::of_named(NamedKey::PageUp)], Command::PageUp, false))
        .push(row(Context::Diff, seq![KeyChord::of_char('g'), KeyChord::of_char('g')], Command::GoTop, false))
        .push(row(Context::Diff, seq![KeyChord::of_char('G')], Command::GoBottom, false))
        .push(row(Context::Diff, seq![KeyChord::of_char('n')], Command::NextHunk, true))
        .push(row(Context::Diff, seq![KeyChord::of_char('p')], Command::PrevHunk, true))
        .push(
            row(Context::Diff, seq![KeyChord::of_char(']'), KeyChord::of_char('f')],
            Command::NextFile,
            true),
        )
        .push(
            row(
                Context::Diff,
                seq![KeyChord::of_char('['), KeyChord::of_char('f')], Command::PrevFile, false,
            ),
        )
        .push(
            row(Context::Diff, seq![KeyChord::of_char(']'), KeyChord::of_char('c')],
            Command::NextComment,
            false),
        )
        .push(
            row(
                Context::Diff,
                seq![KeyChord::of_char('['), KeyChord::of_char('c')], Command::PrevComment, false,
            ),
        )
        .push(row(Context::Diff, seq![KeyChord::of_char('c')], Command::Comment, true))
        .push(row(Context::Diff, seq![KeyChord::of_char('v')], Command::ToggleViewed, true))
        .push(row(Context::Diff, seq![KeyChord::of_char('y')], Command::CopyPath, false))
        .push(row(Context::Diff, seq![KeyChord::of_char('x')], Command::ExpandContext, false))
        .push(row(Context::Diff, seq![KeyChord::of_char('C')], Command::ToggleFileCollapse, false))
        .push(row(Context::Diff, seq![KeyChord::of_char('X')], Command::ExpandFile, false))
        .push(row(Context::Diff, seq![KeyChord::of_char('V')], Command::VisualMode, false))
        .push(
            row(
                Context::Diff,
                seq![KeyChord::of_char('z'), KeyChord::of_char('u')],
                Command::ExpandUp,
                false,
            ),
        )
        .push(
            row(
                Context::Diff,
                seq![KeyChord::of_char('z'), KeyChord::of_char('d')],
                Command::ExpandDown,
                false,
            ),
        )
        .push(
            row(
                Context::Diff,
                seq![KeyChord::of_char('z'), KeyChord::of_char('c')],
                Command::CommentOnFile,
                false,
            ),
        )
        .push(row(Context::Diff, seq![KeyChord::of_char('h')], Command::SideBase, false))
        .push(row(Context::Diff, seq![KeyChord::of_char('l')], Command::SideHead, false))
        .push(row(Context::Diff, seq![KeyChord::of_named(NamedKey::Left)], Command::SideBase, false))
        .push(row(Context::Diff, seq![KeyChord::of_named(NamedKey::Right)], Command::SideHead, false))
        .push(
            row(
                Context::Diff,
                seq![KeyChord::of_char('z'), KeyChord::of_char('z')],
                Command::CenterView,
                false,
            ),
        )
        .push(
            row(Context::Diff, seq![KeyChord::of_char('z'), KeyChord::of_char('t')], Command::ViewTop, false),
        )
        .push(
            row(
                Context::Diff,
                seq![KeyChord::of_char('z'), KeyChord::of_char('b')],
                Command::ViewBottom,
                false,
            ),
        )
        .push(row(Context::Diff, seq![KeyChord::of_named(NamedKey::Enter)], Command::Open, false))
}

fn add_diff(table: &mut Vec<Binding>, leader: KeyChord)
    ensures
        final(table).deep_view() == with_diff(old(table).deep_view(), leader),
{
    one(table, Context::Diff, KeyChord::char('j'), Command::MoveDown, true);
    one(table, Context::Diff, KeyChord::char('k'), Command::MoveUp, true);
    one(table, Context::Diff, KeyChord::named(NamedKey::Down), Command::MoveDown, false);
    one(table, Context::Diff, KeyChord::named(NamedKey::Up), Command::MoveUp, false);
    one(table, Context::Diff, KeyChord::char('d').ctrl(), Command::PageDown, false);
    one(table, Context::Diff, KeyChord::char('u').ctrl(), Command::PageUp, false);
    one(table, Context::Diff, KeyChord::named(NamedKey::PageDown), Command::PageDown, false);
    one(table, Context::Diff, KeyChord::named(NamedKey::PageUp), Command::PageUp, false);
    two(table, Context::Diff, KeyChord::char('g'), KeyChord::char('g'), Command::GoTop, false);
    one(table, Context::Diff, KeyChord::char('G'), Command::GoBottom, false);
    one(table, Context::Diff, KeyChord::char('n'), Command::NextHunk, true);
    one(table, Context::Diff, KeyChord::char('p'), Command::PrevHunk, true);
    two(table, Context::Diff, KeyChord::char(']'), KeyChord::char('f'), Command::NextFile, true);
    two(table, Context::Diff, KeyChord::char('['), KeyChord::char('f'), Command::PrevFile, false);
    two(table, Context::Diff, KeyChord::char(']'), KeyChord::char('c'), Command::NextComment, false);
    two(table, Context::Diff, KeyChord::char('['), KeyChord::char('c'), Command::PrevComment, false);
    one(table, Context::Diff, KeyChord::char('c'), Command::Comment, true);
    one(table, Context::Diff, KeyChord::char('v'), Command::ToggleViewed, true);
    one(table, Context::Diff, KeyChord::char('y'), Command::CopyPath, false);
    one(table, Context::Diff, KeyChord::char('x'), Command::ExpandContext, false);
    one(table, Context::Diff, KeyChord::char('C'), Command::ToggleFileCollapse, false);
    one(table, Context::Diff, KeyChord::char('X'), Command::ExpandFile, false);
    one(table, Context::Diff, KeyChord::char('V'), Command::VisualMode, false);
    two(table, Context::Diff, KeyChord::char('z'), KeyChord::char('u'), Command::ExpandUp, false);
    two(table, Context::Diff, KeyChord::char('z'), KeyChord::char('d'), Command::ExpandDown, false);
    two(table, Context::Diff, KeyChord::char('z'), KeyChord::char('c'), Command::CommentOnFile, false);
    one(table, Context::Diff, KeyChord::char('h'), Command::SideBase, false);
    one(table, Context::Diff, KeyChord::char('l'), Command::SideHead, false);
    one(table, Context::Diff, KeyChord::named(NamedKey::Left), Command::SideBase, false);
    one(table, Context::Diff, KeyChord::named(NamedKey::Right), Command::SideHead, false);
    two(table, Context::Diff, KeyChord::char('z'), KeyChord::char('z'), Command::CenterView, false);
    two(table, Context::Diff, KeyChord::char('z'), KeyChord::char('t'), Command::ViewTop, false);
    two(table, Context::Diff, KeyChord::char('z'), KeyChord::char('b'), Command::ViewBottom, false);
    one(table, Context::Diff, KeyChord::named(NamedKey::Enter), Command::Open, false);
}

/// The review requests.
pub open spec fn with_requests(table: Seq<SpecBinding>, leader: KeyChord) -> Seq<SpecBinding> {
    table
        .push(row(Context::Requests, seq![KeyChord::of_char('j')], Command::MoveDown, true))
        .push(row(Context::Requests, seq![KeyChord::of_char('k')], Command::MoveUp, true))
        .push(row(Context::Requests, seq![KeyChord::of_named(NamedKey::Down)], Command::MoveDown, false))
        .push(row(Context::Requests, seq![KeyChord::of_named(NamedKey::Up)], Command::MoveUp, false))
        .push(
            row(
                Context::Requests,
                seq![KeyChord::of_char('g'), KeyChord::of_char('g')],
                Command::GoTop,
                false,
            ),
        )
        .push(row(Context::Requests, seq![KeyChord::of_char('G')], Command::GoBottom, false))
        .push(row(Context::Requests, seq![KeyChord::of_named(NamedKey::Enter)], Command::Open, true))
}

fn add_requests(table: &mut Vec<Binding>, leader: KeyChord)
    ensures
        final(table).deep_view() == with_requests(old(table).deep_view(), leader),
{
    one(table, Context::Requests, KeyChord::char('j'), Command::MoveDown, true);
    one(table, Context::Requests, KeyChord::char('k'), Command::MoveUp, true);
    one(table, Context::Requests, KeyChord::named(NamedKey::Down), Command::MoveDown, false);
    one(table, Context::Requests, KeyChord::named(NamedKey::Up), Command::MoveUp, false);
    two(table, Context::Requests, KeyChord::char('g'), KeyChord::char('g'), Command::GoTop, false);
    one(table, Context::Requests, KeyChord::char('G'), Command::GoBottom, false);
    one(table, Context::Requests, KeyChord::named(NamedKey::Enter), Command::Open, true);
}

/// The threads.
pub open spec fn with_thread(table: Seq<SpecBinding>, leader: KeyChord) -> Seq<SpecBinding> {
    table
        .push(row(Context::Thread, seq![KeyChord::of_char('y')], Command::CopyReference, true))
        .push(row(Context::Thread, seq![KeyChord::of_char(']')], Command::NextReply, false))
        .push(row(Context::Thread, seq![KeyChord::of_char('[')], Command::PrevReply, false))
        .push(row(Context::Thread, seq![KeyChord::of_char('j')], Command::MoveDown, true))
        .push(row(Context::Thread, seq![KeyChord::of_char('k')], Command::MoveUp, true))
        .push(row(Context::Thread, seq![KeyChord::of_named(NamedKey::Down)], Command::MoveDown, false))
        .push(row(Context::Thread, seq![KeyChord::of_named(NamedKey::Up)], Command::MoveUp, false))
        .push(
            row(Context::Thread, seq![KeyChord::of_char('g'), KeyChord::of_char('g')], Command::GoTop, false),
        )
        .push(row(Context::Thread, seq![KeyChord::of_char('G')], Command::GoBottom, false))
        .push(row(Context::Thread, seq![KeyChord::of_named(NamedKey::Enter)], Command::Open, true))
        .push(row(Context::Thread, seq![KeyChord::of_char('r')], Command::Reply, true))
        .push(row(Context::Thread, seq![KeyChord::of_char('x')], Command::ToggleResolved, true))
        .push(row(Context::Thread, seq![KeyChord::of_char('D')], Command::DeferFinding, true))
        .push(row(Context::Thread, seq![KeyChord::of_char('d')], Command::Delete, false))
        .push(row(Context::Thread, seq![KeyChord::of_char('a')], Command::ApplySuggestion, false))
}

fn add_thread(table: &mut Vec<Binding>, leader: KeyChord)
    ensures
        final(table).deep_view() == with_thread(old(table).deep_view(), leader),
{
    one(table, Context::Thread, KeyChord::char('y'), Command::CopyReference, true);
    one(table, Context::Thread, KeyChord::char(']'), Command::NextReply, false);
    one(table, Context::Thread, KeyChord::char('['), Command::PrevReply, false);
    one(table, Context::Thread, KeyChord::char('j'), Command::MoveDown, true);
    one(table, Context::Thread, KeyChord::char('k'), Command::MoveUp, true);
    one(table, Context::Thread, KeyChord::named(NamedKey::Down), Command::MoveDown, false);
    one(table, Context::Thread, KeyChord::named(NamedKey::Up), Command::MoveUp, false);
    two(table, Context::Thread, KeyChord::char('g'), KeyChord::char('g'), Command::GoTop, false);
    one(table, Context::Thread, KeyChord::char('G'), Command::GoBottom, false);
    one(table, Context::Thread, KeyChord::named(NamedKey::Enter), Command::Open, true);
    one(table, Context::Thread, KeyChord::char('r'), Command::Reply, true);
    one(table, Context::Thread, KeyChord::char('x'), Command::ToggleResolved, true);
    one(table, Context::Thread, KeyChord::char('D'), Command::DeferFinding, true);
    one(table, Context::Thread, KeyChord::char('d'), Command::Delete, false);
    one(table, Context::Thread, KeyChord::char('a'), Command::ApplySuggestion, false);
}

/// The composer: everything else is text.
pub open spec fn with_composer(table: Seq<SpecBinding>, leader: KeyChord) -> Seq<SpecBinding> {
    table
        .push(
            row(
                Context::Composer,
                seq![KeyChord::of_named(NamedKey::Enter).with_ctrl()],
                Command::Submit,
                true,
            ),
        )
        .push(row(Context::Composer, seq![KeyChord::of_named(NamedKey::Esc)], Command::Back, true))
}

fn add_composer(table: &mut Vec<Binding>, leader: KeyChord)
    ensures
        final(table).deep_view() == with_composer(old(table).deep_view(), leader),
{
    one(table, Context::Composer, KeyChord::named(NamedKey::Enter).ctrl(), Command::Submit, true);
    one(table, Context::Composer, KeyChord::named(NamedKey::Esc), Command::Back, true);
}

/// The commit list.
pub open spec fn with_commit_stepper(table: Seq<SpecBinding>, leader: KeyChord) -> Seq<SpecBinding> {
    table
        .push(row(Context::CommitStepper, seq![KeyChord::of_char('j')], Command::MoveDown, true))
        .push(row(Context::CommitStepper, seq![KeyChord::of_char('k')], Command::MoveUp, true))
        .push(row(Context::CommitStepper, seq![KeyChord::of_named(NamedKey::Down)], Command::MoveDown, false))
        .push(row(Context::CommitStepper, seq![KeyChord::of_named(NamedKey::Up)], Command::MoveUp, false))
        .push(row(Context::CommitStepper, seq![KeyChord::of_char('n')], Command::NextHunk, false))
        .push(row(Context::CommitStepper, seq![KeyChord::of_char('p')], Command::PrevHunk, false))
        .push(row(Context::CommitStepper, seq![KeyChord::of_named(NamedKey::Enter)], Command::Open, true))
        .push(
            row(
                Context::CommitStepper,
                seq![KeyChord::of_char('g'), KeyChord::of_char('g')],
                Command::GoTop,
                false,
            ),
        )
        .push(row(Context::CommitStepper, seq![KeyChord::of_char('G')], Command::GoBottom, false))
}

fn add_commit_stepper(table: &mut Vec<Binding>, leader: KeyChord)
    ensures
        final(table).deep_view() == with_commit_stepper(old(table).deep_view(), leader),
{
    one(table, Context::CommitStepper, KeyChord::char('j'), Command::MoveDown, true);
    one(table, Context::CommitStepper, KeyChord::char('k'), Command::MoveUp, true);
    one(table, Context::CommitStepper, KeyChord::named(NamedKey::Down), Command::MoveDown, false);
    one(table, Context::CommitStepper, KeyChord::named(NamedKey::Up), Command::MoveUp, false);
    one(table, Context::CommitStepper, KeyChord::char('n'), Command::NextHunk, false);
    one(table, Context::CommitStepper, KeyChord::char('p'), Command::PrevHunk, false);
    one(table, Context::CommitStepper, KeyChord::named(NamedKey::Enter), Command::Open, true);
    two(table, Context::CommitStepper, KeyChord::char('g'), KeyChord::char('g'), Command::GoTop, false);
    one(table, Context::CommitStepper, KeyChord::char('G'), Command::GoBottom, false);
}

/// The help overlay.
pub open spec fn with_help(table: Seq<SpecBinding>, leader: KeyChord) -> Seq<SpecBinding> {
    table
        .push(row(Context::Help, seq![KeyChord::of_char('j')], Command::MoveDown, false))
        .push(row(Context::Help, seq![KeyChord::of_char('k')], Command::MoveUp, false))
        .push(row(Context::Help, seq![KeyChord::of_char('?')], Command::ToggleHelp, true))
        .push(row(Context::Help, seq![KeyChord::of_named(NamedKey::Esc)], Command::Back, true))
}

fn add_help(table: &mut Vec<Binding>, leader: KeyChord)
    ensures
        final(table).deep_view() == with_help(old(table).deep_view(), leader),
{
    one(table, Context::Help, KeyChord::char('j'), Command::MoveDown, false);
    one(table, Context::Help, KeyChord::char('k'), Command::MoveUp, false);
    one(table, Context::Help, KeyChord::char('?'), Command::ToggleHelp, true);
    one(table, Context::Help, KeyChord::named(NamedKey::Esc), Command::Back, true);
}

/// Every binding of the built-in table.
pub open spec fn default_bindings(leader: KeyChord) -> Seq<SpecBinding> {
    let table = with_global(Seq::empty(), leader);
    let table = with_leader_tree(table, leader);
    let table = with_review_list(table, leader);
    let table = with_tree(table, leader);
    let table = with_diff(table, leader);
    let table = with_requests(table, leader);
    let table = with_thread(table, leader);
    let table = with_composer(table, leader);
    let table = with_commit_stepper(table, leader);
    let table = with_help(table, leader);
    table
}

pub fn default_table(leader: KeyChord) -> (r: Vec<Binding>)
    ensures
        r.deep_view() == default_bindings(leader),
{
    let mut table: Vec<Binding> = data::empty();
    add_global(&mut table, leader);
    add_leader_tree(&mut table, leader);
    add_review_list(&mut table, leader);
    add_tree(&mut table, leader);
    add_diff(&mut table, leader);
    add_requests(&mut table, leader);
    add_thread(&mut table, leader);
    add_composer(&mut table, leader);
    add_commit_stepper(&mut table, leader);
    add_help(&mut table, leader);
    table
}

} // verus!

//! Keyboard model: chords and sequences, their text form, a table from
//! context and sequence to command, and the hints and help made from it.
use vstd::prelude::*;

use crate::command;
use crate::command::{Command, Context, Mode};
use crate::data;
use crate::data::Value;
use crate::keytable;
use crate::text;

verus! {

/// A key that is not a character.
#[derive(Debug, Clone, Copy, PartialEq, Eq, Structural)]
pub enum NamedKey {
    Enter,
    Esc,
    Tab,
    Backspace,
    Space,
    Up,
    Down,
    Left,
    Right,
    PageUp,
    PageDown,
    Home,
    End,
}

impl DeepView for NamedKey {
    type V = NamedKey;

    open spec fn deep_view(&self) -> NamedKey {
        *self
    }
}

impl Value for NamedKey {
    fn dup(&self) -> (r: Self) {
        *self
    }

    fn same(&self, other: &Self) -> (b: bool) {
        *self == *other
    }
}

/// A key.
#[derive(Debug, Clone, Copy, PartialEq, Eq, Structural)]
pub enum KeyCode {
    Char { c: char },
    Named { key: NamedKey },
}

impl DeepView for KeyCode {
    type V = KeyCode;

    open spec fn deep_view(&self) -> KeyCode {
        *self
    }
}

impl Value for KeyCode {
    fn dup(&self) -> (r: Self) {
        *self
    }

    fn same(&self, other: &Self) -> (b: bool) {
        *self == *other
    }
}

/// Modifier keys held with a key. Shift is implied by an upper-case character
/// and only meaningful on named keys.
#[derive(Debug, Clone, Copy, PartialEq, Eq, Structural)]
pub struct Modifiers {
    pub ctrl: bool,
    pub alt: bool,
    pub shift: bool,
    /// Command on macOS, Super elsewhere.
    pub meta: bool,
}

impl DeepView for Modifiers {
    type V = Modifiers;

    open spec fn deep_view(&self) -> Modifiers {
        *self
    }
}

impl Value for Modifiers {
    fn dup(&self) -> (r: Self) {
        *self
    }

    fn same(&self, other: &Self) -> (b: bool) {
        *self == *other
    }
}

/// One key press with its modifiers.
#[derive(Debug, Clone, Copy, PartialEq, Eq, Structural)]
pub struct KeyChord {
    pub key: KeyCode,
    pub mods: Modifiers,
}

impl DeepView for KeyChord {
    type V = KeyChord;

    open spec fn deep_view(&self) -> KeyChord {
        *self
    }
}

impl Value for KeyChord {
    fn dup(&self) -> (r: Self) {
        *self
    }

    fn same(&self, other: &Self) -> (b: bool) {
        *self == *other
    }
}

/// Why the text of a chord or sequence could not be read.
#[derive(Debug, PartialEq, Eq)]
pub enum KeyParseError {
    Empty,
    UnknownModifier(String),
    UnknownKey(String),
}

/// Model of [`KeyParseError`].
#[verifier::ext_equal]
pub enum SpecKeyParseError {
    Empty,
    UnknownModifier(Seq<char>),
    UnknownKey(Seq<char>),
}

impl DeepView for KeyParseError {
    type V = SpecKeyParseError;

    open spec fn deep_view(&self) -> SpecKeyParseError {
        match self {
            KeyParseError::Empty => SpecKeyParseError::Empty,
            KeyParseError::UnknownModifier(a) => SpecKeyParseError::UnknownModifier(a.deep_view()),
            KeyParseError::UnknownKey(a) => SpecKeyParseError::UnknownKey(a.deep_view()),
        }
    }
}

impl Value for KeyParseError {
    fn dup(&self) -> (r: Self) {
        match self {
            KeyParseError::Empty => KeyParseError::Empty,
            KeyParseError::UnknownModifier(a) => KeyParseError::UnknownModifier(a.dup()),
            KeyParseError::UnknownKey(a) => KeyParseError::UnknownKey(a.dup()),
        }
    }

    fn same(&self, other: &Self) -> (b: bool) {
        match (self, other) {
            (KeyParseError::Empty, KeyParseError::Empty) => true,
            (KeyParseError::UnknownModifier(a0), KeyParseError::UnknownModifier(b0)) => a0.same(b0),
            (KeyParseError::UnknownKey(a0), KeyParseError::UnknownKey(b0)) => a0.same(b0),
            _ => false,
        }
    }
}

/// One or more chords pressed in order (`g g`, `] c`).
#[derive(Debug, PartialEq, Eq)]
pub struct KeySeq {
    pub(crate) chords: Vec<KeyChord>,
}

/// Model of [`KeySeq`].
#[verifier::ext_equal]
pub struct SpecKeySeq {
    pub chords: Seq<KeyChord>,
}

impl DeepView for KeySeq {
    type V = SpecKeySeq;

    open(crate) spec fn deep_view(&self) -> SpecKeySeq {
        SpecKeySeq {
            chords: self.chords.deep_view(),
        }
    }
}

impl Value for KeySeq {
    fn dup(&self) -> (r: Self) {
        KeySeq {
            chords: self.chords.dup(),
        }
    }

    fn same(&self, other: &Self) -> (b: bool) {
        self.chords.same(&other.chords)
    }
}

/// One row of the table.
#[derive(Debug, PartialEq, Eq)]
pub struct Binding {
    pub context: Context,
    pub keys: KeySeq,
    pub command: Command,
    /// Shown in the hint bar for its context.
    pub primary: bool,
}

/// Model of [`Binding`].
#[verifier::ext_equal]
pub struct SpecBinding {
    pub context: Context,
    pub keys: SpecKeySeq,
    pub command: Command,
    pub primary: bool,
}

impl DeepView for Binding {
    type V = SpecBinding;

    open spec fn deep_view(&self) -> SpecBinding {
        SpecBinding {
            context: self.context,
            keys: self.keys.deep_view(),
            command: self.command,
            primary: self.primary,
        }
    }
}

impl Value for Binding {
    fn dup(&self) -> (r: Self) {
        Binding {
            context: self.context,
            keys: self.keys.dup(),
            command: self.command,
            primary: self.primary,
        }
    }

    fn same(&self, other: &Self) -> (b: bool) {
        self.context == other.context
            && self.keys.same(&other.keys)
            && self.command == other.command
            && self.primary == other.primary
    }
}

/// Replaces every default binding of `command` in `context`; without keys it
/// unbinds the command there.
#[derive(Debug, PartialEq, Eq)]
pub struct Override {
    pub context: Context,
    pub command: Command,
    pub keys: Option<KeySeq>,
    pub primary: bool,
}

/// Model of [`Override`].
#[verifier::ext_equal]
pub struct SpecOverride {
    pub context: Context,
    pub command: Command,
    pub keys: Option<SpecKeySeq>,
    pub primary: bool,
}

impl DeepView for Override {
    type V = SpecOverride;

    open spec fn deep_view(&self) -> SpecOverride {
        SpecOverride {
            context: self.context,
            command: self.command,
            keys: self.keys.deep_view(),
            primary: self.primary,
        }
    }
}

impl Value for Override {
    fn dup(&self) -> (r: Self) {
        Override {
            context: self.context,
            command: self.command,
            keys: self.keys.dup(),
            primary: self.primary,
        }
    }

    fn same(&self, other: &Self) -> (b: bool) {
        self.context == other.context
            && self.command == other.command
            && self.keys.same(&other.keys)
            && self.primary == other.primary
    }
}

/// A list of overrides, applied in order.
#[derive(Debug, PartialEq, Eq)]
pub struct Overrides {
    pub bindings: Vec<Override>,
}

/// Model of [`Overrides`].
#[verifier::ext_equal]
pub struct SpecOverrides {
    pub bindings: Seq<SpecOverride>,
}

impl DeepView for Overrides {
    type V = SpecOverrides;

    open spec fn deep_view(&self) -> SpecOverrides {
        SpecOverrides {
            bindings: self.bindings.deep_view(),
        }
    }
}

impl Value for Overrides {
    fn dup(&self) -> (r: Self) {
        Overrides {
            bindings: self.bindings.dup(),
        }
    }

    fn same(&self, other: &Self) -> (b: bool) {
        self.bindings.same(&other.bindings)
    }
}

/// Bindings that cannot all fire.
#[derive(Debug, PartialEq, Eq)]
pub struct Conflict {
    pub context: Context,
    pub keys: KeySeq,
    pub commands: Vec<Command>,
}

/// Model of [`Conflict`].
#[verifier::ext_equal]
pub struct SpecConflict {
    pub context: Context,
    pub keys: SpecKeySeq,
    pub commands: Seq<Command>,
}

impl DeepView for Conflict {
    type V = SpecConflict;

    open spec fn deep_view(&self) -> SpecConflict {
        SpecConflict {
            context: self.context,
            keys: self.keys.deep_view(),
            commands: self.commands.deep_view(),
        }
    }
}

impl Value for Conflict {
    fn dup(&self) -> (r: Self) {
        Conflict {
            context: self.context,
            keys: self.keys.dup(),
            commands: self.commands.dup(),
        }
    }

    fn same(&self, other: &Self) -> (b: bool) {
        self.context == other.context
            && self.keys.same(&other.keys)
            && self.commands.same(&other.commands)
    }
}

/// A pending prefix and the name of the group behind it.
#[derive(Debug, PartialEq, Eq)]
pub struct Group {
    pub prefix: KeySeq,
    pub label: String,
}

/// Model of [`Group`].
#[verifier::ext_equal]
pub struct SpecGroup {
    pub prefix: SpecKeySeq,
    pub label: Seq<char>,
}

impl DeepView for Group {
    type V = SpecGroup;

    open spec fn deep_view(&self) -> SpecGroup {
        SpecGroup {
            prefix: self.prefix.deep_view(),
            label: self.label.deep_view(),
        }
    }
}

impl Value for Group {
    fn dup(&self) -> (r: Self) {
        Group {
            prefix: self.prefix.dup(),
            label: self.label.dup(),
        }
    }

    fn same(&self, other: &Self) -> (b: bool) {
        self.prefix.same(&other.prefix)
            && self.label.same(&other.label)
    }
}

/// The table, and which of its rows were overridden.
#[derive(Debug, PartialEq, Eq)]
pub struct Keymap {
    pub(crate) bindings: Vec<Binding>,
    pub(crate) overridden: Vec<(Context, Command)>,
    /// The chord `<leader>` stands for.
    pub(crate) leader: KeyChord,
    pub(crate) groups: Vec<Group>,
}

/// Model of [`Keymap`].
#[verifier::ext_equal]
pub struct SpecKeymap {
    pub bindings: Seq<SpecBinding>,
    pub overridden: Seq<(Context, Command)>,
    pub leader: KeyChord,
    pub groups: Seq<SpecGroup>,
}

impl DeepView for Keymap {
    type V = SpecKeymap;

    open(crate) spec fn deep_view(&self) -> SpecKeymap {
        SpecKeymap {
            bindings: self.bindings.deep_view(),
            overridden: self.overridden.deep_view(),
            leader: self.leader,
            groups: self.groups.deep_view(),
        }
    }
}

impl Value for Keymap {
    fn dup(&self) -> (r: Self) {
        Keymap {
            bindings: self.bindings.dup(),
            overridden: self.overridden.dup(),
            leader: self.leader,
            groups: self.groups.dup(),
        }
    }

    fn same(&self, other: &Self) -> (b: bool) {
        self.bindings.same(&other.bindings)
            && self.overridden.same(&other.overridden)
            && self.leader == other.leader
            && self.groups.same(&other.groups)
    }
}

/// Why a keys config was rejected. Collisions do not reject it: they are
/// reported by [`Keymap::conflicts`].
#[derive(Debug, PartialEq, Eq)]
pub enum KeysError {
    UnknownAction(String),
    BadKeys { action: String, source: KeyParseError },
    BadLeader(KeyParseError),
    WrongMode { action: String, mode: Mode, valid: String },
    BadGroup { prefix: String, source: KeyParseError },
}

/// Model of [`KeysError`].
#[verifier::ext_equal]
pub enum SpecKeysError {
    UnknownAction(Seq<char>),
    BadKeys { action: Seq<char>, source: SpecKeyParseError },
    BadLeader(SpecKeyParseError),
    WrongMode { action: Seq<char>, mode: Mode, valid: Seq<char> },
    BadGroup { prefix: Seq<char>, source: SpecKeyParseError },
}

impl DeepView for KeysError {
    type V = SpecKeysError;

    open spec fn deep_view(&self) -> SpecKeysError {
        match self {
            KeysError::UnknownAction(a) => SpecKeysError::UnknownAction(a.deep_view()),
            KeysError::BadKeys { action, source } => SpecKeysError::BadKeys {
                action: action.deep_view(),
                source: source.deep_view(),
            },
            KeysError::BadLeader(a) => SpecKeysError::BadLeader(a.deep_view()),
            KeysError::WrongMode { action, mode, valid } => SpecKeysError::WrongMode {
                action: action.deep_view(),
                mode: *mode,
                valid: valid.deep_view(),
            },
            KeysError::BadGroup { prefix, source } => SpecKeysError::BadGroup {
                prefix: prefix.deep_view(),
                source: source.deep_view(),
            },
        }
    }
}

impl Value for KeysError {
    fn dup(&self) -> (r: Self) {
        match self {
            KeysError::UnknownAction(a) => KeysError::UnknownAction(a.dup()),
            KeysError::BadKeys { action, source } => KeysError::BadKeys {
                action: action.dup(),
                source: source.dup(),
            },
            KeysError::BadLeader(a) => KeysError::BadLeader(a.dup()),
            KeysError::WrongMode { action, mode, valid } => KeysError::WrongMode {
                action: action.dup(),
                mode: *mode,
                valid: valid.dup(),
            },
            KeysError::BadGroup { prefix, source } => KeysError::BadGroup {
                prefix: prefix.dup(),
                source: source.dup(),
            },
        }
    }

    fn same(&self, other: &Self) -> (b: bool) {
        match (self, other) {
            (KeysError::UnknownAction(a0), KeysError::UnknownAction(b0)) => a0.same(b0),
            (KeysError::BadKeys { action: a0, source: a1 }, KeysError::BadKeys { action: b0, source: b1 }) => a0.same(b0) && a1.same(b1),
            (KeysError::BadLeader(a0), KeysError::BadLeader(b0)) => a0.same(b0),
            (KeysError::WrongMode { action: a0, mode: a1, valid: a2 }, KeysError::WrongMode { action: b0, mode: b1, valid: b2 }) => a0.same(b0) && *a1 == *b1 && a2.same(b2),
            (KeysError::BadGroup { prefix: a0, source: a1 }, KeysError::BadGroup { prefix: b0, source: b1 }) => a0.same(b0) && a1.same(b1),
            _ => false,
        }
    }
}

/// The sequences one action is bound to.
#[derive(Debug, PartialEq, Eq)]
pub struct ActionKeys {
    pub action: String,
    pub keys: Vec<String>,
}

/// Model of [`ActionKeys`].
#[verifier::ext_equal]
pub struct SpecActionKeys {
    pub action: Seq<char>,
    pub keys: Seq<Seq<char>>,
}

impl DeepView for ActionKeys {
    type V = SpecActionKeys;

    open spec fn deep_view(&self) -> SpecActionKeys {
        SpecActionKeys {
            action: self.action.deep_view(),
            keys: self.keys.deep_view(),
        }
    }
}

impl Value for ActionKeys {
    fn dup(&self) -> (r: Self) {
        ActionKeys {
            action: self.action.dup(),
            keys: self.keys.dup(),
        }
    }

    fn same(&self, other: &Self) -> (b: bool) {
        self.action.same(&other.action)
            && self.keys.same(&other.keys)
    }
}

/// The actions bound in one mode.
#[derive(Debug, PartialEq, Eq)]
pub struct ModeKeys {
    pub mode: Mode,
    pub actions: Vec<ActionKeys>,
}

/// Model of [`ModeKeys`].
#[verifier::ext_equal]
pub struct SpecModeKeys {
    pub mode: Mode,
    pub actions: Seq<SpecActionKeys>,
}

impl DeepView for ModeKeys {
    type V = SpecModeKeys;

    open spec fn deep_view(&self) -> SpecModeKeys {
        SpecModeKeys {
            mode: self.mode,
            actions: self.actions.deep_view(),
        }
    }
}

impl Value for ModeKeys {
    fn dup(&self) -> (r: Self) {
        ModeKeys {
            mode: self.mode,
            actions: self.actions.dup(),
        }
    }

    fn same(&self, other: &Self) -> (b: bool) {
        self.mode == other.mode
            && self.actions.same(&other.actions)
    }
}

/// A prefix sequence and its label, as configured.
#[derive(Debug, PartialEq, Eq)]
pub struct GroupLabel {
    pub prefix: String,
    pub label: String,
}

/// Model of [`GroupLabel`].
#[verifier::ext_equal]
pub struct SpecGroupLabel {
    pub prefix: Seq<char>,
    pub label: Seq<char>,
}

impl DeepView for GroupLabel {
    type V = SpecGroupLabel;

    open spec fn deep_view(&self) -> SpecGroupLabel {
        SpecGroupLabel {
            prefix: self.prefix.deep_view(),
            label: self.label.deep_view(),
        }
    }
}

impl Value for GroupLabel {
    fn dup(&self) -> (r: Self) {
        GroupLabel {
            prefix: self.prefix.dup(),
            label: self.label.dup(),
        }
    }

    fn same(&self, other: &Self) -> (b: bool) {
        self.prefix.same(&other.prefix)
            && self.label.same(&other.label)
    }
}

/// The keys a user configured. Action names are command names; sequences may
/// use `<leader>`. An action that is listed replaces its default bindings in
/// that mode; with no sequences it is unbound. Entries apply in order.
#[derive(Debug, PartialEq, Eq)]
pub struct KeysConfig {
    /// The leader chord; space if absent.
    pub leader: Option<String>,
    pub bindings: Vec<ModeKeys>,
    pub groups: Vec<GroupLabel>,
}

/// Model of [`KeysConfig`].
#[verifier::ext_equal]
pub struct SpecKeysConfig {
    pub leader: Option<Seq<char>>,
    pub bindings: Seq<SpecModeKeys>,
    pub groups: Seq<SpecGroupLabel>,
}

impl DeepView for KeysConfig {
    type V = SpecKeysConfig;

    open spec fn deep_view(&self) -> SpecKeysConfig {
        SpecKeysConfig {
            leader: self.leader.deep_view(),
            bindings: self.bindings.deep_view(),
            groups: self.groups.deep_view(),
        }
    }
}

impl Value for KeysConfig {
    fn dup(&self) -> (r: Self) {
        KeysConfig {
            leader: self.leader.dup(),
            bindings: self.bindings.dup(),
            groups: self.groups.dup(),
        }
    }

    fn same(&self, other: &Self) -> (b: bool) {
        self.leader.same(&other.leader)
            && self.bindings.same(&other.bindings)
            && self.groups.same(&other.groups)
    }
}

/// How a chord sequence matched the table.
#[derive(Debug, Clone, Copy, PartialEq, Eq, Structural)]
pub enum Lookup {
    Command(Command),
    /// Some binding starts with the sequence; wait for more.
    Prefix,
    /// No binding matches or continues the sequence.
    Unbound,
}

impl DeepView for Lookup {
    type V = Lookup;

    open spec fn deep_view(&self) -> Lookup {
        *self
    }
}

impl Value for Lookup {
    fn dup(&self) -> (r: Self) {
        *self
    }

    fn same(&self, other: &Self) -> (b: bool) {
        *self == *other
    }
}

/// One hint-bar entry.
#[derive(Debug, PartialEq, Eq)]
pub struct Hint {
    pub keys: String,
    pub command: Command,
    pub label: String,
}

/// Model of [`Hint`].
#[verifier::ext_equal]
pub struct SpecHint {
    pub keys: Seq<char>,
    pub command: Command,
    pub label: Seq<char>,
}

impl DeepView for Hint {
    type V = SpecHint;

    open spec fn deep_view(&self) -> SpecHint {
        SpecHint {
            keys: self.keys.deep_view(),
            command: self.command,
            label: self.label.deep_view(),
        }
    }
}

impl Value for Hint {
    fn dup(&self) -> (r: Self) {
        Hint {
            keys: self.keys.dup(),
            command: self.command,
            label: self.label.dup(),
        }
    }

    fn same(&self, other: &Self) -> (b: bool) {
        self.keys.same(&other.keys)
            && self.command == other.command
            && self.label.same(&other.label)
    }
}

/// One line of the help overlay.
#[derive(Debug, PartialEq, Eq)]
pub struct HelpEntry {
    pub keys: String,
    pub command: Command,
    pub label: String,
    pub primary: bool,
    pub overridden: bool,
}

/// Model of [`HelpEntry`].
#[verifier::ext_equal]
pub struct SpecHelpEntry {
    pub keys: Seq<char>,
    pub command: Command,
    pub label: Seq<char>,
    pub primary: bool,
    pub overridden: bool,
}

impl DeepView for HelpEntry {
    type V = SpecHelpEntry;

    open spec fn deep_view(&self) -> SpecHelpEntry {
        SpecHelpEntry {
            keys: self.keys.deep_view(),
            command: self.command,
            label: self.label.deep_view(),
            primary: self.primary,
            overridden: self.overridden,
        }
    }
}

impl Value for HelpEntry {
    fn dup(&self) -> (r: Self) {
        HelpEntry {
            keys: self.keys.dup(),
            command: self.command,
            label: self.label.dup(),
            primary: self.primary,
            overridden: self.overridden,
        }
    }

    fn same(&self, other: &Self) -> (b: bool) {
        self.keys.same(&other.keys)
            && self.command == other.command
            && self.label.same(&other.label)
            && self.primary == other.primary
            && self.overridden == other.overridden
    }
}

/// The bindings of one context.
#[derive(Debug, PartialEq, Eq)]
pub struct HelpGroup {
    pub context: Context,
    pub entries: Vec<HelpEntry>,
}

/// Model of [`HelpGroup`].
#[verifier::ext_equal]
pub struct SpecHelpGroup {
    pub context: Context,
    pub entries: Seq<SpecHelpEntry>,
}

impl DeepView for HelpGroup {
    type V = SpecHelpGroup;

    open spec fn deep_view(&self) -> SpecHelpGroup {
        SpecHelpGroup {
            context: self.context,
            entries: self.entries.deep_view(),
        }
    }
}

impl Value for HelpGroup {
    fn dup(&self) -> (r: Self) {
        HelpGroup {
            context: self.context,
            entries: self.entries.dup(),
        }
    }

    fn same(&self, other: &Self) -> (b: bool) {
        self.context == other.context
            && self.entries.same(&other.entries)
    }
}

/// The help overlay.
#[derive(Debug, PartialEq, Eq)]
pub struct HelpView {
    pub groups: Vec<HelpGroup>,
    pub conflicts: Vec<Conflict>,
}

/// Model of [`HelpView`].
#[verifier::ext_equal]
pub struct SpecHelpView {
    pub groups: Seq<SpecHelpGroup>,
    pub conflicts: Seq<SpecConflict>,
}

impl DeepView for HelpView {
    type V = SpecHelpView;

    open spec fn deep_view(&self) -> SpecHelpView {
        SpecHelpView {
            groups: self.groups.deep_view(),
            conflicts: self.conflicts.deep_view(),
        }
    }
}

impl Value for HelpView {
    fn dup(&self) -> (r: Self) {
        HelpView {
            groups: self.groups.dup(),
            conflicts: self.conflicts.dup(),
        }
    }

    fn same(&self, other: &Self) -> (b: bool) {
        self.groups.same(&other.groups)
            && self.conflicts.same(&other.conflicts)
    }
}


// ---- chords ---------------------------------------------------------------

impl Modifiers {
    pub open spec fn none() -> Modifiers {
        Modifiers { ctrl: false, alt: false, shift: false, meta: false }
    }
}

impl KeyChord {
    pub open spec fn of_char(c: char) -> KeyChord {
        KeyChord { key: KeyCode::Char { c }, mods: Modifiers::none() }
    }

    pub open spec fn of_named(key: NamedKey) -> KeyChord {
        KeyChord { key: KeyCode::Named { key }, mods: Modifiers::none() }
    }

    pub open spec fn with_ctrl(self) -> KeyChord {
        KeyChord { mods: Modifiers { ctrl: true, ..self.mods }, ..self }
    }

    pub open spec fn with_shift(self) -> KeyChord {
        KeyChord { mods: Modifiers { shift: true, ..self.mods }, ..self }
    }

    pub open spec fn with_meta(self) -> KeyChord {
        KeyChord { mods: Modifiers { meta: true, ..self.mods }, ..self }
    }

    pub fn char(c: char) -> (r: Self)
        ensures
            r == KeyChord::of_char(c),
    {
        KeyChord {
            key: KeyCode::Char { c },
            mods: Modifiers { ctrl: false, alt: false, shift: false, meta: false },
        }
    }

    pub fn named(key: NamedKey) -> (r: Self)
        ensures
            r == KeyChord::of_named(key),
    {
        KeyChord {
            key: KeyCode::Named { key },
            mods: Modifiers { ctrl: false, alt: false, shift: false, meta: false },
        }
    }

    /// The same chord with Control held.
    pub fn ctrl(self) -> (r: Self)
        ensures
            r == self.with_ctrl(),
    {
        KeyChord {
            key: self.key,
            mods: Modifiers { ctrl: true, alt: self.mods.alt, shift: self.mods.shift, meta: self.mods.meta },
        }
    }

    /// The same chord with Shift held.
    pub fn shift(self) -> (r: Self)
        ensures
            r == self.with_shift(),
    {
        KeyChord {
            key: self.key,
            mods: Modifiers { ctrl: self.mods.ctrl, alt: self.mods.alt, shift: true, meta: self.mods.meta },
        }
    }

    /// The same chord with Meta held.
    pub fn meta(self) -> (r: Self)
        ensures
            r == self.with_meta(),
    {
        KeyChord {
            key: self.key,
            mods: Modifiers { ctrl: self.mods.ctrl, alt: self.mods.alt, shift: self.mods.shift, meta: true },
        }
    }
}

// ---- text form ------------------------------------------------------------

/// The text of a named key.
pub open spec fn key_name(key: NamedKey) -> Seq<char> {
    match key {
        NamedKey::Enter => "enter"@,
        NamedKey::Esc => "esc"@,
        NamedKey::Tab => "tab"@,
        NamedKey::Backspace => "backspace"@,
        NamedKey::Space => "space"@,
        NamedKey::Up => "up"@,
        NamedKey::Down => "down"@,
        NamedKey::Left => "left"@,
        NamedKey::Right => "right"@,
        NamedKey::PageUp => "pageup"@,
        NamedKey::PageDown => "pagedown"@,
        NamedKey::Home => "home"@,
        NamedKey::End => "end"@,
    }
}

fn name_of_key(key: NamedKey) -> (r: &'static str)
    ensures
        r@ == key_name(key),
{
    match key {
        NamedKey::Enter => "enter",
        NamedKey::Esc => "esc",
        NamedKey::Tab => "tab",
        NamedKey::Backspace => "backspace",
        NamedKey::Space => "space",
        NamedKey::Up => "up",
        NamedKey::Down => "down",
        NamedKey::Left => "left",
        NamedKey::Right => "right",
        NamedKey::PageUp => "pageup",
        NamedKey::PageDown => "pagedown",
        NamedKey::Home => "home",
        NamedKey::End => "end",
    }
}

/// The named key a text is the name of.
pub open spec fn key_named(s: Seq<char>) -> Option<NamedKey> {
    if s == "enter"@ {
        Some(NamedKey::Enter)
    } else if s == "esc"@ {
        Some(NamedKey::Esc)
    } else if s == "tab"@ {
        Some(NamedKey::Tab)
    } else if s == "backspace"@ {
        Some(NamedKey::Backspace)
    } else if s == "space"@ {
        Some(NamedKey::Space)
    } else if s == "up"@ {
        Some(NamedKey::Up)
    } else if s == "down"@ {
        Some(NamedKey::Down)
    } else if s == "left"@ {
        Some(NamedKey::Left)
    } else if s == "right"@ {
        Some(NamedKey::Right)
    } else if s == "pageup"@ {
        Some(NamedKey::PageUp)
    } else if s == "pagedown"@ {
        Some(NamedKey::PageDown)
    } else if s == "home"@ {
        Some(NamedKey::Home)
    } else if s == "end"@ {
        Some(NamedKey::End)
    } else {
        None
    }
}

fn key_by_name(s: &str) -> (r: Option<NamedKey>)
    ensures
        r == key_named(s@),
{
    if text::is(s, "enter") {
        Some(NamedKey::Enter)
    } else if text::is(s, "esc") {
        Some(NamedKey::Esc)
    } else if text::is(s, "tab") {
        Some(NamedKey::Tab)
    } else if text::is(s, "backspace") {
        Some(NamedKey::Backspace)
    } else if text::is(s, "space") {
        Some(NamedKey::Space)
    } else if text::is(s, "up") {
        Some(NamedKey::Up)
    } else if text::is(s, "down") {
        Some(NamedKey::Down)
    } else if text::is(s, "left") {
        Some(NamedKey::Left)
    } else if text::is(s, "right") {
        Some(NamedKey::Right)
    } else if text::is(s, "pageup") {
        Some(NamedKey::PageUp)
    } else if text::is(s, "pagedown") {
        Some(NamedKey::PageDown)
    } else if text::is(s, "home") {
        Some(NamedKey::Home)
    } else if text::is(s, "end") {
        Some(NamedKey::End)
    } else {
        None
    }
}

/// `word` if `held`, nothing otherwise.
pub open spec fn when(held: bool, word: Seq<char>) -> Seq<char> {
    if held {
        word
    } else {
        Seq::empty()
    }
}

/// The text of a key alone.
pub open spec fn code_text(key: KeyCode) -> Seq<char> {
    match key {
        KeyCode::Char { c } => if c == ' ' {
            "space"@
        } else {
            seq![c]
        },
        KeyCode::Named { key } => key_name(key),
    }
}

/// The text of a chord: `ctrl+p`, `shift+enter`, `?`, `space`.
pub open spec fn chord_text(chord: KeyChord) -> Seq<char> {
    when(chord.mods.ctrl, "ctrl+"@) + when(chord.mods.alt, "alt+"@) + when(chord.mods.shift, "shift+"@) + when(
        chord.mods.meta,
        "meta+"@,
    ) + code_text(chord.key)
}

/// The texts of chords, separated by single spaces.
pub open spec fn chords_text(chords: Seq<KeyChord>) -> Seq<char>
    decreases chords.len(),
{
    if chords.len() == 0 {
        Seq::empty()
    } else if chords.len() == 1 {
        chord_text(chords[0])
    } else {
        chords_text(chords.drop_last()) + " "@ + chord_text(chords.last())
    }
}

impl KeyChord {
    /// The chord's text form.
    pub fn to_string(&self) -> (r: String)
        ensures
            r@ == chord_text(*self),
    {
        let mut out = String::new();
        if self.mods.ctrl {
            out.append("ctrl+");
        }
        assert(out@ =~= when(self.mods.ctrl, "ctrl+"@));
        let ghost a = out@;
        if self.mods.alt {
            out.append("alt+");
        }
        assert(out@ =~= a + when(self.mods.alt, "alt+"@));
        let ghost b = out@;
        if self.mods.shift {
            out.append("shift+");
        }
        assert(out@ =~= b + when(self.mods.shift, "shift+"@));
        let ghost c = out@;
        if self.mods.meta {
            out.append("meta+");
        }
        assert(out@ =~= c + when(self.mods.meta, "meta+"@));
        let ghost d = out@;
        match self.key {
            KeyCode::Char { c } => if c == ' ' {
                out.append("space");
            } else {
                out.push(c);
                assert(out@ =~= d + seq![c]);
            },
            KeyCode::Named { key } => out.append(name_of_key(key)),
        }
        out
    }
}

/// The text of the chords from `from` on.
fn text_from(chords: &Vec<KeyChord>, from: usize) -> (r: String)
    requires
        from <= chords@.len(),
    ensures
        r@ == chords_text(chords@.skip(from as int)),
{
    let n: usize = chords.len();
    let mut out = String::new();
    let ghost rest = chords@.skip(from as int);
    for i in from..n
        invariant
            from <= i <= n,
            n == chords@.len(),
            rest == chords@.skip(from as int),
            out@ == chords_text(rest.take(i - from)),
    {
        let ghost k = i - from;
        assert(rest.take(k + 1).drop_last() =~= rest.take(k));
        assert(rest.take(k + 1).last() == chords@[i as int]);
        if i > from {
            out.append(" ");
        }
        let t = chords[i].to_string();
        let ghost before = out@;
        out.append(t.as_str());
        assert(i == from ==> before =~= Seq::empty());
        assert(i == from ==> out@ =~= t@);
    }
    assert(rest.take(n - from) =~= rest);
    out
}

impl KeySeq {
    pub fn single(chord: KeyChord) -> (r: Self)
        ensures
            r.deep_view().chords == seq![chord],
    {
        KeySeq { chords: data::one(chord) }
    }

    pub fn pair(first: KeyChord, second: KeyChord) -> (r: Self)
        ensures
            r.deep_view().chords == seq![first, second],
    {
        KeySeq { chords: data::two(first, second) }
    }

    pub fn new(chords: Vec<KeyChord>) -> (r: Result<Self, KeyParseError>)
        ensures
            match r {
                Ok(s) => chords@.len() > 0 && s.deep_view().chords == chords@,
                Err(e) => chords@.len() == 0 && e is Empty,
            },
    {
        if chords.len() == 0 {
            Err(KeyParseError::Empty)
        } else {
            assert(chords.deep_view() =~= chords@);
            Ok(KeySeq { chords })
        }
    }

    pub fn chords(&self) -> (r: &[KeyChord])
        ensures
            r@ == self.deep_view().chords,
    {
        assert(self.chords.deep_view() =~= self.chords@);
        self.chords.as_slice()
    }

    pub fn starts_with(&self, prefix: &[KeyChord]) -> (b: bool)
        ensures
            b == prefix@.is_prefix_of(self.deep_view().chords),
    {
        assert(self.chords.deep_view() =~= self.chords@);
        let n: usize = prefix.len();
        if n > self.chords.len() {
            return false;
        }
        for i in 0..n
            invariant
                n == prefix@.len(),
                n <= self.chords@.len(),
                self.chords.deep_view() == self.chords@,
                forall|j: int| 0 <= j < i ==> prefix@[j] == self.chords@[j],
        {
            if prefix[i] != self.chords[i] {
                assert(prefix@[i as int] != self.chords@.take(n as int)[i as int]);
                return false;
            }
        }
        assert(prefix@ =~= self.chords@.subrange(0, n as int));
        true
    }

    /// Whether these are exactly the chords pressed.
    pub fn is(&self, pressed: &[KeyChord]) -> (b: bool)
        ensures
            b == (self.deep_view().chords == pressed@),
    {
        if self.chords.len() != pressed.len() {
            assert(self.deep_view().chords.len() != pressed@.len());
            return false;
        }
        let b = self.starts_with(pressed);
        assert(self.chords.deep_view() =~= self.chords@);
        assert(b ==> self.chords@ =~= pressed@);
        assert(self.chords@ == pressed@ ==> self.chords@.subrange(0, pressed@.len() as int) =~= pressed@);
        b
    }

    /// The sequence's text form.
    pub fn to_string(&self) -> (r: String)
        ensures
            r@ == chords_text(self.deep_view().chords),
    {
        assert(self.chords.deep_view() =~= self.chords@);
        assert(self.chords@.skip(0) =~= self.chords@);
        text_from(&self.chords, 0)
    }
}

// ---- reading --------------------------------------------------------------

/// A modifier's effect, by its lower-case name.
pub open spec fn hold(mods: Modifiers, name: Seq<char>) -> Option<Modifiers> {
    if name == "ctrl"@ || name == "control"@ || name == "c"@ {
        Some(Modifiers { ctrl: true, ..mods })
    } else if name == "alt"@ || name == "option"@ || name == "a"@ {
        Some(Modifiers { alt: true, ..mods })
    } else if name == "shift"@ || name == "s"@ {
        Some(Modifiers { shift: true, ..mods })
    } else if name == "meta"@ || name == "cmd"@ || name == "super"@ || name == "win"@ || name == "m"@ {
        Some(Modifiers { meta: true, ..mods })
    } else {
        None
    }
}

/// The modifiers named, or the first name that is none.
pub open spec fn hold_all(mods: Modifiers, names: Seq<Seq<char>>) -> Result<Modifiers, SpecKeyParseError>
    decreases names.len(),
{
    if names.len() == 0 {
        Ok(mods)
    } else {
        let name = text::ascii_lower(names[0]);
        match hold(mods, name) {
            Some(mods) => hold_all(mods, names.drop_first()),
            None => Err(SpecKeyParseError::UnknownModifier(name)),
        }
    }
}

/// The key a text names: one character as it is, more as a named key.
pub open spec fn read_code(s: Seq<char>) -> Result<KeyCode, SpecKeyParseError> {
    if s.len() == 0 {
        Err(SpecKeyParseError::Empty)
    } else if s.len() == 1 {
        Ok(KeyCode::Char { c: s[0] })
    } else {
        match key_named(text::ascii_lower(s)) {
            Some(key) => Ok(KeyCode::Named { key }),
            None => Err(SpecKeyParseError::UnknownKey(s)),
        }
    }
}

/// A chord as text: modifiers, then the key, joined by `+`; a `+` at the end
/// is the key itself.
pub open spec fn read_chord(s: Seq<char>) -> Result<KeyChord, SpecKeyParseError> {
    if s.len() == 0 {
        Err(SpecKeyParseError::Empty)
    } else {
        let parts = text::parts(s, '+');
        let n = parts.len() as int;
        let (names, last) = if n >= 2 && parts[n - 1].len() == 0 {
            (parts.take(n - 2), "+"@)
        } else {
            (parts.take(n - 1), parts[n - 1])
        };
        match hold_all(Modifiers::none(), names) {
            Err(e) => Err(e),
            Ok(mods) => match read_code(last) {
                Err(e) => Err(e),
                Ok(key) => Ok(KeyChord { key, mods }),
            },
        }
    }
}

/// A chord as text, where `<leader>` may stand for the leader.
pub open spec fn read_token(s: Seq<char>, leader: Option<KeyChord>) -> Result<KeyChord, SpecKeyParseError> {
    match leader {
        Some(chord) => if text::ascii_lower(s) == "<leader>"@ {
            Ok(chord)
        } else {
            read_chord(s)
        },
        None => read_chord(s),
    }
}

/// Each word read as a chord, or the first failure.
pub open spec fn read_tokens(
    words: Seq<Seq<char>>,
    leader: Option<KeyChord>,
) -> Result<Seq<KeyChord>, SpecKeyParseError>
    decreases words.len(),
{
    if words.len() == 0 {
        Ok(Seq::empty())
    } else {
        match read_tokens(words.drop_last(), leader) {
            Err(e) => Err(e),
            Ok(chords) => match read_token(words.last(), leader) {
                Err(e) => Err(e),
                Ok(chord) => Ok(chords.push(chord)),
            },
        }
    }
}

/// A sequence as text: chords separated by whitespace, at least one.
pub open spec fn read_seq(s: Seq<char>, leader: Option<KeyChord>) -> Result<SpecKeySeq, SpecKeyParseError> {
    match read_tokens(text::words(s), leader) {
        Err(e) => Err(e),
        Ok(chords) => if chords.len() == 0 {
            Err(SpecKeyParseError::Empty)
        } else {
            Ok(SpecKeySeq { chords })
        },
    }
}

fn hold_one(mods: Modifiers, name: &str) -> (r: Option<Modifiers>)
    ensures
        r == hold(mods, name@),
{
    let mut mods = mods;
    if text::is(name, "ctrl") || text::is(name, "control") || text::is(name, "c") {
        mods.ctrl = true;
        Some(mods)
    } else if text::is(name, "alt") || text::is(name, "option") || text::is(name, "a") {
        mods.alt = true;
        Some(mods)
    } else if text::is(name, "shift") || text::is(name, "s") {
        mods.shift = true;
        Some(mods)
    } else if text::is(name, "meta") || text::is(name, "cmd") || text::is(name, "super") || text::is(name, "win")
        || text::is(name, "m") {
        mods.meta = true;
        Some(mods)
    } else {
        None
    }
}

fn code_of(s: &str) -> (r: Result<KeyCode, KeyParseError>)
    ensures
        match r {
            Ok(key) => read_code(s@) == Ok::<KeyCode, SpecKeyParseError>(key),
            Err(e) => read_code(s@) == Err::<KeyCode, SpecKeyParseError>(e.deep_view()),
        },
{
    let v = text::chars(s);
    if v.len() == 0 {
        Err(KeyParseError::Empty)
    } else if v.len() == 1 {
        Ok(KeyCode::Char { c: v[0] })
    } else {
        let low = text::ascii_lowercase(s);
        match key_by_name(low.as_str()) {
            Some(key) => Ok(KeyCode::Named { key }),
            None => Err(KeyParseError::UnknownKey(s.to_owned())),
        }
    }
}

proof fn lemma_parts_nonempty(s: Seq<char>, c: char)
    ensures
        text::parts(s, c).len() >= 1,
{
}

impl KeyChord {
    /// Read a chord: `ctrl+p`, `shift+enter`, `?`, `space`. Modifiers may be
    /// in any case; a single character is taken as it is.
    pub fn parse(s: &str) -> (r: Result<Self, KeyParseError>)
        ensures
            match r {
                Ok(chord) => read_chord(s@) == Ok::<KeyChord, SpecKeyParseError>(chord),
                Err(e) => read_chord(s@) == Err::<KeyChord, SpecKeyParseError>(e.deep_view()),
            },
    {
        if s.is_empty() {
            return Err(KeyParseError::Empty);
        }
        let parts = text::split_all(s, '+');
        proof {
            lemma_parts_nonempty(s@, '+');
            assert(parts.deep_view().len() == parts@.len());
        }
        let n: usize = parts.len();
        let plus = n >= 2 && parts[n - 1].as_str().is_empty();
        assert(parts.deep_view()[n - 1] == parts@[n - 1]@);
        let count: usize = if plus {
            n - 2
        } else {
            n - 1
        };
        let mut mods = Modifiers { ctrl: false, alt: false, shift: false, meta: false };
        let ghost names = parts.deep_view().take(count as int);
        assert(names.skip(0) =~= names);
        for i in 0..count
            invariant
                count <= n,
                n == parts@.len(),
                names == parts.deep_view().take(count as int),
                hold_all(Modifiers::none(), names) == hold_all(mods, names.skip(i as int)),
                s@.len() > 0,
                plus == (n >= 2 && parts@[n - 1]@.len() == 0),
                count == if plus { n - 2 } else { n - 1 },
                parts.deep_view() == text::parts(s@, '+'),
        {
            let low = text::ascii_lowercase(parts[i].as_str());
            assert(names.skip(i as int)[0] == parts@[i as int]@);
            assert(names.skip(i as int).drop_first() =~= names.skip(i + 1));
            match hold_one(mods, low.as_str()) {
                Some(more) => {
                    mods = more;
                },
                None => {
                    assert(parts.deep_view()[n - 1] == parts@[n - 1]@);
                    return Err(KeyParseError::UnknownModifier(low));
                },
            }
        }
        assert(names.skip(count as int) =~= Seq::empty());
        assert(parts.deep_view()[n - 1] == parts@[n - 1]@);
        let code = if plus {
            code_of("+")
        } else {
            code_of(parts[n - 1].as_str())
        };
        match code {
            Ok(key) => Ok(KeyChord { key, mods }),
            Err(e) => Err(e),
        }
    }
}

fn read(s: &str, leader: Option<KeyChord>) -> (r: Result<KeySeq, KeyParseError>)
    ensures
        match r {
            Ok(keys) => read_seq(s@, leader) == Ok::<SpecKeySeq, SpecKeyParseError>(keys.deep_view()),
            Err(e) => read_seq(s@, leader) == Err::<SpecKeySeq, SpecKeyParseError>(e.deep_view()),
        },
{
    let words = text::split_words(s);
    let n: usize = words.len();
    let mut chords: Vec<KeyChord> = Vec::new();
    let ghost all = words.deep_view();
    assert(chords@ =~= Seq::empty());
    for i in 0..n
        invariant
            n == words@.len(),
            all == words.deep_view(),
            all == text::words(s@),
            read_tokens(all.take(i as int), leader) == Ok::<Seq<KeyChord>, SpecKeyParseError>(chords@),
    {
        assert(all.take(i + 1).drop_last() =~= all.take(i as int));
        assert(all.take(i + 1).last() == words@[i as int]@);
        let is_leader = leader.is_some() && text::is(
            text::ascii_lowercase(words[i].as_str()).as_str(),
            "<leader>",
        );
        let token = match leader {
            Some(chord) => if is_leader {
                Ok(chord)
            } else {
                KeyChord::parse(words[i].as_str())
            },
            None => KeyChord::parse(words[i].as_str()),
        };
        match token {
            Ok(chord) => {
                chords.push(chord);
            },
            Err(e) => {
                proof {
                    lemma_first_bad_token(all, leader, i as int);
                }
                return Err(e);
            },
        }
    }
    assert(all.take(n as int) =~= all);
    KeySeq::new(chords)
}

/// A word that cannot be read decides the whole text.
proof fn lemma_first_bad_token(words: Seq<Seq<char>>, leader: Option<KeyChord>, i: int)
    requires
        0 <= i < words.len(),
        read_tokens(words.take(i + 1), leader) is Err,
    ensures
        read_tokens(words, leader) == read_tokens(words.take(i + 1), leader),
    decreases words.len() - i,
{
    if i + 1 == words.len() {
        assert(words.take(i + 1) =~= words);
    } else {
        assert(words.take(i + 2).drop_last() =~= words.take(i + 1));
        lemma_first_bad_token(words, leader, i + 1);
    }
}

impl KeySeq {
    /// Read a sequence of chords separated by whitespace.
    pub fn parse(s: &str) -> (r: Result<Self, KeyParseError>)
        ensures
            match r {
                Ok(keys) => read_seq(s@, None) == Ok::<SpecKeySeq, SpecKeyParseError>(keys.deep_view()),
                Err(e) => read_seq(s@, None) == Err::<SpecKeySeq, SpecKeyParseError>(e.deep_view()),
            },
    {
        read(s, None)
    }
}

/// Read a sequence that may use `<leader>`.
pub fn resolve_seq(text: &str, leader: KeyChord) -> (r: Result<KeySeq, KeyParseError>)
    ensures
        match r {
            Ok(keys) => read_seq(text@, Some(leader)) == Ok::<SpecKeySeq, SpecKeyParseError>(keys.deep_view()),
            Err(e) => read_seq(text@, Some(leader)) == Err::<SpecKeySeq, SpecKeyParseError>(e.deep_view()),
        },
{
    read(text, Some(leader))
}

// ---- the table ------------------------------------------------------------

pub open spec fn in_context(context: Context) -> spec_fn(SpecBinding) -> bool {
    |b: SpecBinding| b.context == context
}

/// Bindings that apply in `context`: its own and the global ones.
pub open spec fn applies(context: Context) -> spec_fn(SpecBinding) -> bool {
    |b: SpecBinding| b.context == context || (b.context == Context::Global && context != Context::Global)
}

pub open spec fn exactly(context: Context, pressed: Seq<KeyChord>) -> spec_fn(SpecBinding) -> bool {
    |b: SpecBinding| b.context == context && b.keys.chords == pressed
}

/// The binding goes on where `pressed` ends.
pub open spec fn continues(b: SpecBinding, pressed: Seq<KeyChord>) -> bool {
    b.keys.chords.len() > pressed.len() && pressed.is_prefix_of(b.keys.chords)
}

/// Rows other than those of `command` in `context`.
pub open spec fn not_bound(context: Context, command: Command) -> spec_fn(SpecBinding) -> bool {
    |b: SpecBinding| !(b.context == context && b.command == command)
}

impl SpecBinding {
    pub open spec fn hint(self) -> SpecHint {
        SpecHint {
            keys: chords_text(self.keys.chords),
            command: self.command,
            label: command::label_text(self.command),
        }
    }
}

impl Binding {
    pub fn hint(&self) -> (r: Hint)
        ensures
            r.deep_view() == self.deep_view().hint(),
    {
        Hint {
            keys: self.keys.to_string(),
            command: self.command,
            label: command::label(self.command).to_owned(),
        }
    }
}

pub open spec fn hint_for(command: Command) -> spec_fn(SpecHint) -> bool {
    |h: SpecHint| h.command == command
}

/// One hint per command: the first of its rows.
pub open spec fn first_hints(rows: Seq<SpecBinding>) -> Seq<SpecHint>
    decreases rows.len(),
{
    if rows.len() == 0 {
        Seq::empty()
    } else {
        let before = first_hints(rows.drop_last());
        if data::some_where(before, hint_for(rows.last().command)) {
            before
        } else {
            before.push(rows.last().hint())
        }
    }
}

fn hints_of(rows: &Vec<Binding>) -> (r: Vec<Hint>)
    ensures
        r.deep_view() == first_hints(rows.deep_view()),
{
    let n: usize = rows.len();
    let mut out: Vec<Hint> = data::empty();
    let ghost all = rows.deep_view();
    for i in 0..n
        invariant
            n == rows@.len(),
            all == rows.deep_view(),
            out.deep_view() == first_hints(all.take(i as int)),
    {
        assert(all.take(i + 1).drop_last() =~= all.take(i as int));
        assert(all.take(i + 1).last() == rows@[i as int].deep_view());
        let command = rows[i].command;
        let known = data::any(
            &out,
            |h: &Hint| -> (b: bool)
                ensures
                    b == hint_for(command)(h.deep_view())
            { h.command == command },
            Ghost(hint_for(command)),
        );
        if !known {
            data::push(&mut out, rows[i].hint());
        }
    }
    assert(all.take(n as int) =~= all);
    out
}

/// What the hint bar shows first: `help` last, the context before global.
pub open spec fn ranked(rank: nat) -> spec_fn(SpecBinding) -> bool {
    |b: SpecBinding| b.primary && rank == (if b.command == Command::ToggleHelp { 2nat } else { 0nat }) + (if b.context
        == Context::Global { 1nat } else { 0nat })
}

/// The hint a pending sequence still offers: its keys are those still to type.
pub open spec fn rest_hint(b: SpecBinding, pressed: Seq<KeyChord>) -> SpecHint {
    SpecHint {
        keys: chords_text(b.keys.chords.skip(pressed.len() as int)),
        command: b.command,
        label: command::label_text(b.command),
    }
}

pub open spec fn same_hint(hint: SpecHint) -> spec_fn(SpecHint) -> bool {
    |h: SpecHint| h.keys == hint.keys && h.command == hint.command
}

/// Every continuation of `pressed` among `rows`, each once.
pub open spec fn continuations(rows: Seq<SpecBinding>, pressed: Seq<KeyChord>) -> Seq<SpecHint>
    decreases rows.len(),
{
    if rows.len() == 0 {
        Seq::empty()
    } else {
        let before = continuations(rows.drop_last(), pressed);
        let b = rows.last();
        if continues(b, pressed) && !data::some_where(before, same_hint(rest_hint(b, pressed))) {
            before.push(rest_hint(b, pressed))
        } else {
            before
        }
    }
}

// ---- conflicts ------------------------------------------------------------

/// Two rows of one context that cannot both fire: same keys, or one sequence
/// the start of the other, for different commands.
pub open spec fn clash(a: SpecBinding, b: SpecBinding) -> bool {
    (a.keys.chords.is_prefix_of(b.keys.chords) || b.keys.chords.is_prefix_of(a.keys.chords)) && a.command != b.command
}

pub open spec fn conflict_on(context: Context, keys: SpecKeySeq) -> spec_fn(SpecConflict) -> bool {
    |c: SpecConflict| c.context == context && c.keys == keys
}

pub open spec fn with_command(commands: Seq<Command>, command: Command) -> Seq<Command> {
    if commands.contains(command) {
        commands
    } else {
        commands.push(command)
    }
}

/// The conflicts once the clash of `a` and `b` is recorded under the shorter
/// of their sequences.
pub open spec fn noted(out: Seq<SpecConflict>, a: SpecBinding, b: SpecBinding) -> Seq<SpecConflict> {
    let keys = if a.keys.chords.len() <= b.keys.chords.len() {
        a.keys
    } else {
        b.keys
    };
    match data::first_where(out, conflict_on(a.context, keys)) {
        Some(i) => out.update(
            i,
            SpecConflict {
                commands: with_command(with_command(out[i].commands, a.command), b.command),
                ..out[i]
            },
        ),
        None => out.push(SpecConflict { context: a.context, keys, commands: seq![a.command, b.command] }),
    }
}

/// The conflicts of `a` with each of `rows`, added to `out`.
pub open spec fn noted_all(
    out: Seq<SpecConflict>,
    a: SpecBinding,
    rows: Seq<SpecBinding>,
) -> Seq<SpecConflict>
    decreases rows.len(),
{
    if rows.len() == 0 {
        out
    } else {
        let before = noted_all(out, a, rows.drop_last());
        if clash(a, rows.last()) {
            noted(before, a, rows.last())
        } else {
            before
        }
    }
}

/// The conflicts among the first `n` of `rows` and all that follow each.
pub open spec fn noted_within(out: Seq<SpecConflict>, rows: Seq<SpecBinding>, n: nat) -> Seq<SpecConflict>
    decreases n,
{
    if n == 0 || n > rows.len() {
        out
    } else {
        noted_all(noted_within(out, rows, (n - 1) as nat), rows[n - 1], rows.skip(n as int))
    }
}

/// The conflicts of the rows of each of `contexts`.
pub open spec fn conflicts_in(bindings: Seq<SpecBinding>, contexts: Seq<Context>) -> Seq<SpecConflict>
    decreases contexts.len(),
{
    if contexts.len() == 0 {
        Seq::empty()
    } else {
        let rows = bindings.filter(in_context(contexts.last()));
        noted_within(conflicts_in(bindings, contexts.drop_last()), rows, rows.len())
    }
}

fn clashes(a: &Binding, b: &Binding) -> (r: bool)
    ensures
        r == clash(a.deep_view(), b.deep_view()),
{
    (b.keys.starts_with(a.keys.chords()) || a.keys.starts_with(b.keys.chords())) && a.command != b.command
}

fn add_command(commands: &mut Vec<Command>, command: Command)
    ensures
        final(commands).deep_view() == with_command(old(commands).deep_view(), command),
{
    if !data::contains(commands, &command) {
        data::push(commands, command);
    }
}

fn note(out: &mut Vec<Conflict>, a: &Binding, b: &Binding)
    ensures
        final(out).deep_view() == noted(old(out).deep_view(), a.deep_view(), b.deep_view()),
{
    let context = a.context;
    assert(a.keys.chords.deep_view().len() == a.keys.chords@.len());
    assert(b.keys.chords.deep_view().len() == b.keys.chords@.len());
    let keys = if a.keys.chords.len() <= b.keys.chords.len() {
        a.keys.dup()
    } else {
        b.keys.dup()
    };
    let at = data::position(
        out,
        |c: &Conflict| -> (r: bool)
            ensures
                r == conflict_on(context, keys.deep_view())(c.deep_view())
        { c.context == context && c.keys.same(&keys) },
        Ghost(conflict_on(context, keys.deep_view())),
    );
    match at {
        Some(i) => {
            let mut commands = out[i].commands.dup();
            add_command(&mut commands, a.command);
            add_command(&mut commands, b.command);
            let changed = Conflict { context: out[i].context, keys: out[i].keys.dup(), commands };
            data::set(out, i, changed);
        },
        None => data::push(out, Conflict { context, keys, commands: data::two(a.command, b.command) }),
    }
}

// ---- the keymap -----------------------------------------------------------

impl SpecKeymap {
    /// The built-in table with `leader` as its leader.
    pub open spec fn default_with(leader: KeyChord) -> SpecKeymap {
        SpecKeymap {
            bindings: keytable::default_bindings(leader),
            overridden: Seq::empty(),
            leader,
            groups: seq![
                SpecGroup { prefix: SpecKeySeq { chords: seq![leader] }, label: "Leader"@ },
                SpecGroup { prefix: SpecKeySeq { chords: seq![KeyChord::of_char('g')] }, label: "Go"@ },
                SpecGroup {
                    prefix: SpecKeySeq { chords: seq![KeyChord::of_char('z')] },
                    label: "Expand/scroll"@,
                },
            ],
        }
    }

    /// The bindings that apply in `context`: its own, then the global ones.
    pub open spec fn applicable(self, context: Context) -> Seq<SpecBinding> {
        self.bindings.filter(in_context(context)) + (if context == Context::Global {
            Seq::empty()
        } else {
            self.bindings.filter(in_context(Context::Global))
        })
    }

    /// How `pressed` matches in `context`: a binding of the context shadows a
    /// global one with the same keys, and an exact match shadows longer ones.
    pub open spec fn lookup(self, context: Context, pressed: Seq<KeyChord>) -> Lookup {
        match data::found(self.bindings, exactly(context, pressed)) {
            Some(b) => Lookup::Command(b.command),
            None => match data::found(self.bindings, exactly(Context::Global, pressed)) {
                Some(b) => Lookup::Command(b.command),
                None => if data::some_where(
                    self.bindings,
                    |b: SpecBinding| applies(context)(b) && continues(b, pressed),
                ) {
                    Lookup::Prefix
                } else {
                    Lookup::Unbound
                },
            },
        }
    }

    pub open spec fn conflicts(self) -> Seq<SpecConflict> {
        conflicts_in(self.bindings, command::all_contexts())
    }

    pub open spec fn hints(self, context: Context) -> Seq<SpecHint> {
        let rows = self.applicable(context);
        first_hints(
            rows.filter(ranked(0)) + rows.filter(ranked(1)) + rows.filter(ranked(2)) + rows.filter(ranked(3)),
        )
    }

    pub open spec fn applicable_bindings(self, context: Context) -> Seq<SpecHint> {
        self.applicable(context).map_values(|b: SpecBinding| b.hint())
    }

    pub open spec fn pending_hints(self, context: Context, pressed: Seq<KeyChord>) -> Seq<SpecHint> {
        continuations(self.applicable(context), pressed)
    }

    pub open spec fn chrome(self) -> Seq<SpecHint> {
        first_hints(self.bindings.filter(in_context(Context::Global)) + self.bindings)
    }

    pub open spec fn help_group(self, context: Context) -> SpecHelpGroup {
        SpecHelpGroup {
            context,
            entries: self.bindings.filter(in_context(context)).map_values(
                |b: SpecBinding|
                    SpecHelpEntry {
                        keys: chords_text(b.keys.chords),
                        command: b.command,
                        label: command::label_text(b.command),
                        primary: b.primary,
                        overridden: self.overridden.contains((context, b.command)),
                    },
            ),
        }
    }

    pub open spec fn help(self, context: Context) -> SpecHelpView {
        SpecHelpView {
            groups: if context == Context::Global {
                seq![self.help_group(context)]
            } else {
                seq![self.help_group(context), self.help_group(Context::Global)]
            },
            conflicts: self.conflicts(),
        }
    }

    pub open spec fn pending_label(self, pressed: Seq<KeyChord>) -> Option<Seq<char>> {
        match data::found(self.groups, |g: SpecGroup| g.prefix.chords == pressed) {
            Some(g) => Some(g.label),
            None => None,
        }
    }

    pub open spec fn with_override(self, o: SpecOverride) -> SpecKeymap {
        let others = self.bindings.filter(not_bound(o.context, o.command));
        SpecKeymap {
            bindings: match o.keys {
                Some(keys) => others.push(
                    SpecBinding { context: o.context, keys, command: o.command, primary: o.primary },
                ),
                None => others,
            },
            overridden: self.overridden.push((o.context, o.command)),
            ..self
        }
    }

    pub open spec fn with_overrides(self, overrides: Seq<SpecOverride>) -> SpecKeymap
        decreases overrides.len(),
    {
        if overrides.len() == 0 {
            self
        } else {
            self.with_overrides(overrides.drop_last()).with_override(overrides.last())
        }
    }
}

impl Keymap {
    /// The built-in table with the default leader, space.
    pub fn default_table() -> (r: Self)
        ensures
            r.deep_view() == SpecKeymap::default_with(KeyChord::of_named(NamedKey::Space)),
    {
        Self::default_table_with(KeyChord::named(NamedKey::Space))
    }

    /// The built-in table with another leader.
    pub fn default_table_with(leader: KeyChord) -> (r: Self)
        ensures
            r.deep_view() == SpecKeymap::default_with(leader),
    {
        let mut groups: Vec<Group> = data::two(
            Group { prefix: KeySeq::single(leader), label: "Leader".to_owned() },
            Group { prefix: KeySeq::single(KeyChord::char('g')), label: "Go".to_owned() },
        );
        data::push(
            &mut groups,
            Group { prefix: KeySeq::single(KeyChord::char('z')), label: "Expand/scroll".to_owned() },
        );
        let map = Keymap {
            bindings: keytable::default_table(leader),
            overridden: data::empty(),
            leader,
            groups,
        };
        assert(map.deep_view().groups =~= SpecKeymap::default_with(leader).groups);
        map
    }

    /// The chord `<leader>` stands for.
    pub fn leader(&self) -> (r: KeyChord)
        ensures
            r == self.deep_view().leader,
    {
        self.leader
    }

    /// The label of a pending prefix, when it has one.
    pub fn pending_label(&self, pressed: &[KeyChord]) -> (r: Option<String>)
        ensures
            r.deep_view() == self.deep_view().pending_label(pressed@),
    {
        match data::find(
            &self.groups,
            |g: &Group| -> (b: bool)
                ensures
                    b == (g.deep_view().prefix.chords == pressed@)
            { g.prefix.is(pressed) },
            Ghost(|g: SpecGroup| g.prefix.chords == pressed@),
        ) {
            Some(g) => Some(g.label.dup()),
            None => None,
        }
    }

    /// The default table with `overrides` applied.
    pub fn with_overrides(overrides: &Overrides) -> (r: Self)
        ensures
            r.deep_view() == SpecKeymap::default_with(KeyChord::of_named(NamedKey::Space)).with_overrides(
                overrides.deep_view().bindings,
            ),
    {
        let mut map = Self::default_table();
        let ghost start = map.deep_view();
        let ghost all = overrides.bindings.deep_view();
        let n: usize = overrides.bindings.len();
        assert(all.take(0) =~= Seq::empty());
        for i in 0..n
            invariant
                n == overrides.bindings@.len(),
                all == overrides.bindings.deep_view(),
                map.deep_view() == start.with_overrides(all.take(i as int)),
        {
            assert(all.take(i + 1).drop_last() =~= all.take(i as int));
            assert(all.take(i + 1).last() == overrides.bindings@[i as int].deep_view());
            map.apply_override(&overrides.bindings[i]);
        }
        assert(all.take(n as int) =~= all);
        map
    }

    fn apply_override(&mut self, o: &Override)
        ensures
            final(self).deep_view() == old(self).deep_view().with_override(o.deep_view()),
    {
        let context = o.context;
        let command = o.command;
        data::retain(
            &mut self.bindings,
            |b: &Binding| -> (r: bool)
                ensures
                    r == not_bound(context, command)(b.deep_view())
            { !(b.context == context && b.command == command) },
            Ghost(not_bound(context, command)),
        );
        if let Some(keys) = &o.keys {
            data::push(
                &mut self.bindings,
                Binding { context, keys: keys.dup(), command, primary: o.primary },
            );
        }
        data::push(&mut self.overridden, (context, command));
    }

    pub fn bindings(&self) -> (r: &Vec<Binding>)
        ensures
            r.deep_view() == self.deep_view().bindings,
    {
        &self.bindings
    }

    pub fn is_overridden(&self, context: Context, command: Command) -> (b: bool)
        ensures
            b == self.deep_view().overridden.contains((context, command)),
    {
        data::contains(&self.overridden, &(context, command))
    }

    /// Bindings that apply in `context`: its own, then the global ones.
    pub fn applicable(&self, context: Context) -> (r: Vec<Binding>)
        ensures
            r.deep_view() == self.deep_view().applicable(context),
    {
        let mut rows = self.rows_of(context);
        if context == Context::Global {
            assert(rows.deep_view() =~= self.deep_view().applicable(context));
        } else {
            data::append(&mut rows, self.rows_of(Context::Global));
        }
        rows
    }

    fn exact(&self, context: Context, pressed: &[KeyChord]) -> (r: Option<Command>)
        ensures
            match data::found(self.deep_view().bindings, exactly(context, pressed@)) {
                Some(b) => r == Some(b.command),
                None => r is None,
            },
    {
        match data::find(
            &self.bindings,
            |b: &Binding| -> (r: bool)
                ensures
                    r == exactly(context, pressed@)(b.deep_view())
            { b.context == context && b.keys.is(pressed) },
            Ghost(exactly(context, pressed@)),
        ) {
            Some(b) => Some(b.command),
            None => None,
        }
    }

    /// Match `pressed` against the bindings for `context`.
    pub fn lookup(&self, context: Context, pressed: &[KeyChord]) -> (r: Lookup)
        ensures
            r == self.deep_view().lookup(context, pressed@),
    {
        if let Some(c) = self.exact(context, pressed) {
            return Lookup::Command(c);
        }
        if let Some(c) = self.exact(Context::Global, pressed) {
            return Lookup::Command(c);
        }
        let prefix = data::any(
            &self.bindings,
            |b: &Binding| -> (r: bool)
                ensures
                    r == (applies(context)(b.deep_view()) && continues(b.deep_view(), pressed@))
            {
                assert(b.keys.chords.deep_view().len() == b.keys.chords@.len());
                (b.context == context || (b.context == Context::Global && context != Context::Global))
                    && b.keys.chords.len() > pressed.len() && b.keys.starts_with(pressed)
            },
            Ghost(|b: SpecBinding| applies(context)(b) && continues(b, pressed@)),
        );
        if prefix {
            Lookup::Prefix
        } else {
            Lookup::Unbound
        }
    }

    fn rows_of(&self, context: Context) -> (r: Vec<Binding>)
        ensures
            r.deep_view() == self.deep_view().bindings.filter(in_context(context)),
    {
        data::filtered(
            &self.bindings,
            |b: &Binding| -> (r: bool)
                ensures
                    r == in_context(context)(b.deep_view())
            { b.context == context },
            Ghost(in_context(context)),
        )
    }

    fn note_against(out: &mut Vec<Conflict>, rows: &Vec<Binding>, i: usize)
        requires
            i < rows@.len(),
        ensures
            final(out).deep_view() == noted_all(
                old(out).deep_view(),
                rows.deep_view()[i as int],
                rows.deep_view().skip(i + 1),
            ),
    {
        let n: usize = rows.len();
        let ghost all = rows.deep_view();
        let ghost later = all.skip(i + 1);
        let ghost start = out.deep_view();
        assert(later.take(0) =~= Seq::empty());
        for j in i + 1..n
            invariant
                i < j <= n,
                n == rows@.len(),
                all == rows.deep_view(),
                later == all.skip(i + 1),
                out.deep_view() == noted_all(start, all[i as int], later.take(j - i - 1)),
        {
            let ghost k = j - i - 1;
            assert(later.take(k + 1).drop_last() =~= later.take(k));
            assert(later.take(k + 1).last() == rows@[j as int].deep_view());
            if clashes(&rows[i], &rows[j]) {
                note(out, &rows[i], &rows[j]);
            }
        }
        assert(later.take(n - i - 1) =~= later);
    }

    /// Bindings that cannot both fire: the same keys in one context, or one
    /// sequence the start of another, which would always win.
    pub fn conflicts(&self) -> (r: Vec<Conflict>)
        ensures
            r.deep_view() == self.deep_view().conflicts(),
    {
        let contexts = command::contexts();
        let ghost all = contexts@;
        let m: usize = contexts.len();
        let mut out: Vec<Conflict> = data::empty();
        assert(all.take(0) =~= Seq::empty());
        for c in 0..m
            invariant
                m == contexts@.len(),
                all == contexts@,
                out.deep_view() == conflicts_in(self.deep_view().bindings, all.take(c as int)),
        {
            assert(all.take(c + 1).drop_last() =~= all.take(c as int));
            let rows = self.rows_of(contexts[c]);
            let n: usize = rows.len();
            let ghost start = out.deep_view();
            for i in 0..n
                invariant
                    n == rows@.len(),
                    out.deep_view() == noted_within(start, rows.deep_view(), i as nat),
            {
                Self::note_against(&mut out, &rows, i);
            }
        }
        assert(all.take(m as int) =~= all);
        out
    }

    fn ranked_rows(rows: &Vec<Binding>, help: bool, global: bool) -> (r: Vec<Binding>)
        ensures
            r.deep_view() == rows.deep_view().filter(
                ranked((if help { 2nat } else { 0nat }) + (if global { 1nat } else { 0nat })),
            ),
    {
        let ghost rank = (if help { 2nat } else { 0nat }) + (if global { 1nat } else { 0nat });
        data::filtered(
            rows,
            |b: &Binding| -> (r: bool)
                ensures
                    r == ranked(rank)(b.deep_view())
            { b.primary && (b.command == Command::ToggleHelp) == help && (b.context == Context::Global) == global },
            Ghost(ranked(rank)),
        )
    }

    /// The hint bar for `context`: its primary bindings, then the global ones,
    /// help last; one key per command.
    pub fn hints(&self, context: Context) -> (r: Vec<Hint>)
        ensures
            r.deep_view() == self.deep_view().hints(context),
    {
        let rows = self.applicable(context);
        let mut sorted = Self::ranked_rows(&rows, false, false);
        data::append(&mut sorted, Self::ranked_rows(&rows, false, true));
        data::append(&mut sorted, Self::ranked_rows(&rows, true, false));
        data::append(&mut sorted, Self::ranked_rows(&rows, true, true));
        hints_of(&sorted)
    }

    /// Every binding that applies in `context`, aliases included.
    pub fn applicable_bindings(&self, context: Context) -> (r: Vec<Hint>)
        ensures
            r.deep_view() == self.deep_view().applicable_bindings(context),
    {
        let rows = self.applicable(context);
        data::map(
            &rows,
            |b: &Binding| -> (h: Hint)
                ensures
                    h.deep_view() == b.deep_view().hint()
            { b.hint() },
            Ghost(|b: SpecBinding| b.hint()),
        )
    }

    /// The hint bar while a sequence is pending: every applicable binding
    /// that starts with `pressed`, keyed by the chords still to type. The same
    /// continuation may name several commands when an override conflicts.
    pub fn pending_hints(&self, context: Context, pressed: &[KeyChord]) -> (r: Vec<Hint>)
        ensures
            r.deep_view() == self.deep_view().pending_hints(context, pressed@),
    {
        let rows = self.applicable(context);
        let ghost all = rows.deep_view();
        let n: usize = rows.len();
        let mut out: Vec<Hint> = data::empty();
        for i in 0..n
            invariant
                n == rows@.len(),
                all == rows.deep_view(),
                out.deep_view() == continuations(all.take(i as int), pressed@),
        {
            assert(all.take(i + 1).drop_last() =~= all.take(i as int));
            assert(all.take(i + 1).last() == rows@[i as int].deep_view());
            let b = &rows[i];
            assert(b.keys.chords.deep_view() =~= b.keys.chords@);
            if b.keys.chords.len() > pressed.len() && b.keys.starts_with(pressed) {
                let hint = Hint {
                    keys: text_from(&b.keys.chords, pressed.len()),
                    command: b.command,
                    label: command::label(b.command).to_owned(),
                };
                let known = data::any(
                    &out,
                    |h: &Hint| -> (r: bool)
                        ensures
                            r == same_hint(hint.deep_view())(h.deep_view())
                    { h.keys.same(&hint.keys) && h.command == hint.command },
                    Ghost(same_hint(hint.deep_view())),
                );
                if !known {
                    data::push(&mut out, hint);
                }
            }
        }
        assert(all.take(n as int) =~= all);
        out
    }

    /// One hint per bound command, for button tooltips: its first global
    /// binding, else its first binding.
    pub fn chrome(&self) -> (r: Vec<Hint>)
        ensures
            r.deep_view() == self.deep_view().chrome(),
    {
        let mut rows = self.rows_of(Context::Global);
        data::append(&mut rows, self.bindings.dup());
        hints_of(&rows)
    }

    fn help_group(&self, context: Context) -> (r: HelpGroup)
        ensures
            r.deep_view() == self.deep_view().help_group(context),
    {
        let rows = self.rows_of(context);
        let ghost map = self.deep_view();
        let entries = data::map(
            &rows,
            |b: &Binding| -> (e: HelpEntry)
                ensures
                    e.deep_view() == (SpecHelpEntry {
                        keys: chords_text(b.deep_view().keys.chords),
                        command: b.deep_view().command,
                        label: command::label_text(b.deep_view().command),
                        primary: b.deep_view().primary,
                        overridden: map.overridden.contains((context, b.deep_view().command)),
                    })
            {
                HelpEntry {
                    keys: b.keys.to_string(),
                    command: b.command,
                    label: command::label(b.command).to_owned(),
                    primary: b.primary,
                    overridden: self.is_overridden(context, b.command),
                }
            },
            Ghost(
                |b: SpecBinding|
                    SpecHelpEntry {
                        keys: chords_text(b.keys.chords),
                        command: b.command,
                        label: command::label_text(b.command),
                        primary: b.primary,
                        overridden: map.overridden.contains((context, b.command)),
                    },
            ),
        );
        HelpGroup { context, entries }
    }

    /// The help overlay for `context`: its bindings, then the global ones,
    /// and the conflicts.
    pub fn help(&self, context: Context) -> (r: HelpView)
        ensures
            r.deep_view() == self.deep_view().help(context),
    {
        let groups = if context == Context::Global {
            data::one(self.help_group(context))
        } else {
            data::two(self.help_group(context), self.help_group(Context::Global))
        };
        HelpView { groups, conflicts: self.conflicts() }
    }
}

// ---- configuration --------------------------------------------------------

/// Whether bindings of `context` belong to `mode`. A selection reuses the
/// rows of the diff.
pub open spec fn mode_has(mode: Mode, context: Context) -> bool {
    match mode {
        Mode::Insert => context == Context::Composer,
        Mode::Normal => context != Context::Composer,
        Mode::Visual => context == Context::Diff,
    }
}

pub open spec fn bound_in(command: Command, mode: Mode) -> spec_fn(SpecBinding) -> bool {
    |b: SpecBinding| b.command == command && mode_has(mode, b.context)
}

pub open spec fn not_bound_in(command: Command, mode: Mode) -> spec_fn(SpecBinding) -> bool {
    |b: SpecBinding| !(b.command == command && mode_has(mode, b.context))
}

/// The first place of each run of places in one context.
pub open spec fn runs(places: Seq<(Context, bool)>) -> Seq<(Context, bool)>
    decreases places.len(),
{
    if places.len() == 0 {
        Seq::empty()
    } else {
        let before = runs(places.drop_last());
        if before.len() > 0 && before.last().0 == places.last().0 {
            before
        } else {
            before.push(places.last())
        }
    }
}

/// Where a configured command is bound, and whether it is primary there: in
/// the contexts its bindings in that mode have now; in none, the composer or
/// everywhere.
pub open spec fn places(bindings: Seq<SpecBinding>, command: Command, mode: Mode) -> Seq<(Context, bool)> {
    let now = runs(
        bindings.filter(bound_in(command, mode)).map_values(|b: SpecBinding| (b.context, b.primary)),
    );
    if now.len() == 0 {
        seq![(if mode == Mode::Insert { Context::Composer } else { Context::Global }, false)]
    } else {
        now
    }
}

/// One row per place and sequence; only the first sequence is primary.
pub open spec fn rows_for(
    seqs: Seq<SpecKeySeq>,
    places: Seq<(Context, bool)>,
    command: Command,
) -> Seq<SpecBinding>
    decreases seqs.len(),
{
    if seqs.len() == 0 {
        Seq::empty()
    } else {
        rows_for(seqs.drop_last(), places, command) + places.map_values(
            |p: (Context, bool)|
                SpecBinding { context: p.0, keys: seqs.last(), command, primary: p.1 && seqs.len() == 1 },
        )
    }
}

/// Each text read as a sequence, or the first failure.
pub open spec fn read_seqs(
    texts: Seq<Seq<char>>,
    leader: KeyChord,
) -> Result<Seq<SpecKeySeq>, SpecKeyParseError>
    decreases texts.len(),
{
    if texts.len() == 0 {
        Ok(Seq::empty())
    } else {
        match read_seqs(texts.drop_last(), leader) {
            Err(e) => Err(e),
            Ok(seqs) => match read_seq(texts.last(), Some(leader)) {
                Err(e) => Err(e),
                Ok(keys) => Ok(seqs.push(keys)),
            },
        }
    }
}

/// The names of modes, separated by commas.
pub open spec fn mode_names(modes: Seq<Mode>) -> Seq<char>
    decreases modes.len(),
{
    if modes.len() == 0 {
        Seq::empty()
    } else if modes.len() == 1 {
        modes[0].spec_name()
    } else {
        mode_names(modes.drop_last()) + ", "@ + modes.last().spec_name()
    }
}

impl SpecKeymap {
    /// The keymap with the sequences of one action in one mode replaced.
    #[verifier::opaque]
    pub open spec fn with_action(self, mode: Mode, action: SpecActionKeys) -> Result<SpecKeymap, SpecKeysError> {
        match data::found(command::all_commands(), command::goes_by(command::normal_name(action.action))) {
            None => Err(SpecKeysError::UnknownAction(action.action)),
            Some(command) => if !command::command_modes(command).contains(mode) {
                Err(
                    SpecKeysError::WrongMode {
                        action: action.action,
                        mode,
                        valid: mode_names(command::command_modes(command)),
                    },
                )
            } else {
                match read_seqs(action.keys, self.leader) {
                    Err(source) => Err(SpecKeysError::BadKeys { action: action.action, source }),
                    Ok(seqs) => {
                        let at = places(self.bindings, command, mode);
                        Ok(
                            SpecKeymap {
                                bindings: self.bindings.filter(not_bound_in(command, mode)) + rows_for(
                                    seqs,
                                    at,
                                    command,
                                ),
                                overridden: self.overridden + at.map_values(|p: (Context, bool)| (p.0, command)),
                                ..self
                            },
                        )
                    },
                }
            },
        }
    }

    pub open spec fn with_actions(
        self,
        mode: Mode,
        actions: Seq<SpecActionKeys>,
    ) -> Result<SpecKeymap, SpecKeysError>
        decreases actions.len(),
    {
        if actions.len() == 0 {
            Ok(self)
        } else {
            match self.with_actions(mode, actions.drop_last()) {
                Err(e) => Err(e),
                Ok(map) => map.with_action(mode, actions.last()),
            }
        }
    }

    pub open spec fn with_modes(self, modes: Seq<SpecModeKeys>) -> Result<SpecKeymap, SpecKeysError>
        decreases modes.len(),
    {
        if modes.len() == 0 {
            Ok(self)
        } else {
            match self.with_modes(modes.drop_last()) {
                Err(e) => Err(e),
                Ok(map) => map.with_actions(modes.last().mode, modes.last().actions),
            }
        }
    }

    pub open spec fn with_group(self, group: SpecGroupLabel) -> Result<SpecKeymap, SpecKeysError> {
        match read_seq(group.prefix, Some(self.leader)) {
            Err(source) => Err(SpecKeysError::BadGroup { prefix: group.prefix, source }),
            Ok(prefix) => Ok(
                SpecKeymap {
                    groups: self.groups.filter(|g: SpecGroup| g.prefix != prefix).push(
                        SpecGroup { prefix, label: group.label },
                    ),
                    ..self
                },
            ),
        }
    }

    pub open spec fn with_groups(self, groups: Seq<SpecGroupLabel>) -> Result<SpecKeymap, SpecKeysError>
        decreases groups.len(),
    {
        if groups.len() == 0 {
            Ok(self)
        } else {
            match self.with_groups(groups.drop_last()) {
                Err(e) => Err(e),
                Ok(map) => map.with_group(groups.last()),
            }
        }
    }
}

/// The leader a config asks for: one chord, space if none is given.
pub open spec fn leader_of(config: SpecKeysConfig) -> Result<KeyChord, SpecKeysError> {
    match config.leader {
        None => Ok(KeyChord::of_named(NamedKey::Space)),
        Some(text) => match read_seq(text, Some(KeyChord::of_named(NamedKey::Space))) {
            Err(e) => Err(SpecKeysError::BadLeader(e)),
            Ok(keys) => if keys.chords.len() == 1 {
                Ok(keys.chords[0])
            } else {
                Err(SpecKeysError::BadLeader(SpecKeyParseError::Empty))
            },
        },
    }
}

impl SpecKeymap {
    /// The default table with `config` applied.
    pub open spec fn configured(config: SpecKeysConfig) -> Result<SpecKeymap, SpecKeysError> {
        match leader_of(config) {
            Err(e) => Err(e),
            Ok(leader) => match SpecKeymap::default_with(leader).with_modes(config.bindings) {
                Err(e) => Err(e),
                Ok(map) => map.with_groups(config.groups),
            },
        }
    }
}

/// `r` is what `model` says it is.
pub open spec fn keymap_is(r: Result<Keymap, KeysError>, model: Result<SpecKeymap, SpecKeysError>) -> bool {
    match r {
        Ok(map) => model == Ok::<SpecKeymap, SpecKeysError>(map.deep_view()),
        Err(e) => model == Err::<SpecKeymap, SpecKeysError>(e.deep_view()),
    }
}

fn has(mode: Mode, context: Context) -> (b: bool)
    ensures
        b == mode_has(mode, context),
{
    match mode {
        Mode::Insert => context == Context::Composer,
        Mode::Normal => context != Context::Composer,
        Mode::Visual => context == Context::Diff,
    }
}

fn names_of(modes: &Vec<Mode>) -> (r: String)
    ensures
        r@ == mode_names(modes@),
{
    let n: usize = modes.len();
    let mut out = String::new();
    for i in 0..n
        invariant
            n == modes@.len(),
            out@ == mode_names(modes@.take(i as int)),
    {
        assert(modes@.take(i + 1).drop_last() =~= modes@.take(i as int));
        if i > 0 {
            out.append(", ");
        }
        let name = modes[i].to_string();
        let ghost before = out@;
        out.append(name.as_str());
        assert(i == 0 ==> before =~= Seq::empty());
        assert(i == 0 ==> out@ =~= name@);
    }
    assert(modes@.take(n as int) =~= modes@);
    out
}

fn read_all(texts: &Vec<String>, leader: KeyChord) -> (r: Result<Vec<KeySeq>, KeyParseError>)
    ensures
        match r {
            Ok(seqs) => read_seqs(texts.deep_view(), leader) == Ok::<Seq<SpecKeySeq>, SpecKeyParseError>(
                seqs.deep_view(),
            ),
            Err(e) => read_seqs(texts.deep_view(), leader) == Err::<Seq<SpecKeySeq>, SpecKeyParseError>(e.deep_view()),
        },
{
    let n: usize = texts.len();
    let ghost all = texts.deep_view();
    let mut state: Result<Vec<KeySeq>, KeyParseError> = Ok(data::empty());
    assert(all.take(0) =~= Seq::empty());
    for i in 0..n
        invariant
            n == texts@.len(),
            all == texts.deep_view(),
            match state {
                Ok(seqs) => read_seqs(all.take(i as int), leader) == Ok::<Seq<SpecKeySeq>, SpecKeyParseError>(
                    seqs.deep_view(),
                ),
                Err(e) => read_seqs(all.take(i as int), leader) == Err::<Seq<SpecKeySeq>, SpecKeyParseError>(
                    e.deep_view(),
                ),
            },
    {
        assert(all.take(i + 1).drop_last() =~= all.take(i as int));
        assert(all.take(i + 1).last() == texts@[i as int]@);
        state = match state {
            Err(e) => Err(e),
            Ok(seqs) => match resolve_seq(texts[i].as_str(), leader) {
                Err(e) => Err(e),
                Ok(keys) => {
                    let mut seqs = seqs;
                    data::push(&mut seqs, keys);
                    Ok(seqs)
                },
            },
        };
    }
    assert(all.take(n as int) =~= all);
    state
}

fn find_places(bindings: &Vec<Binding>, command: Command, mode: Mode) -> (r: Vec<(Context, bool)>)
    ensures
        r.deep_view() == places(bindings.deep_view(), command, mode),
{
    let rows = data::filtered(
        bindings,
        |b: &Binding| -> (r: bool)
            ensures
                r == bound_in(command, mode)(b.deep_view())
        { b.command == command && has(mode, b.context) },
        Ghost(bound_in(command, mode)),
    );
    let ghost all = rows.deep_view().map_values(|b: SpecBinding| (b.context, b.primary));
    let n: usize = rows.len();
    let mut out: Vec<(Context, bool)> = data::empty();
    assert(all.take(0) =~= Seq::empty());
    for i in 0..n
        invariant
            n == rows@.len(),
            all == rows.deep_view().map_values(|b: SpecBinding| (b.context, b.primary)),
            out.deep_view() == runs(all.take(i as int)),
    {
        assert(all.take(i + 1).drop_last() =~= all.take(i as int));
        assert(all.take(i + 1).last() == (rows@[i as int].context, rows@[i as int].primary));
        assert(out.deep_view().len() == out@.len());
        let m: usize = out.len();
        if m > 0 {
            assert(out.deep_view().last() == out@[m - 1].deep_view());
        }
        let again = m > 0 && out[m - 1].0 == rows[i].context;
        if !again {
            data::push(&mut out, (rows[i].context, rows[i].primary));
        }
    }
    assert(all.take(n as int) =~= all);
    assert(out.deep_view().len() == out@.len());
    if out.len() == 0 {
        let context = if mode == Mode::Insert {
            Context::Composer
        } else {
            Context::Global
        };
        data::one((context, false))
    } else {
        out
    }
}

impl Keymap {
    fn configure(self, mode: Mode, action: &ActionKeys) -> (r: Result<Self, KeysError>)
        ensures
            keymap_is(r, self.deep_view().with_action(mode, action.deep_view())),
    {
        proof {
            reveal(SpecKeymap::with_action);
        }
        let mut map = self;
        let command = match command::command_named(action.action.as_str()) {
            None => {
                return Err(KeysError::UnknownAction(action.action.dup()));
            },
            Some(command) => command,
        };
        let modes = command::modes_of(command);
        assert(modes.deep_view() =~= modes@);
        if !data::contains(&modes, &mode) {
            return Err(KeysError::WrongMode { action: action.action.dup(), mode, valid: names_of(&modes) });
        }
        let seqs = match read_all(&action.keys, map.leader) {
            Err(source) => {
                return Err(KeysError::BadKeys { action: action.action.dup(), source });
            },
            Ok(seqs) => seqs,
        };
        let at = find_places(&map.bindings, command, mode);
        data::retain(
            &mut map.bindings,
            |b: &Binding| -> (r: bool)
                ensures
                    r == not_bound_in(command, mode)(b.deep_view())
            { !(b.command == command && has(mode, b.context)) },
            Ghost(not_bound_in(command, mode)),
        );
        let n: usize = seqs.len();
        let ghost all = seqs.deep_view();
        let ghost kept = map.bindings.deep_view();
        let ghost rest = map.deep_view();
        assert(all.take(0) =~= Seq::empty());
        assert(kept + rows_for(all.take(0), at.deep_view(), command) =~= kept);
        for i in 0..n
            invariant
                n == seqs@.len(),
                all == seqs.deep_view(),
                map.deep_view() == (SpecKeymap {
                    bindings: kept + rows_for(all.take(i as int), at.deep_view(), command),
                    ..rest
                }),
        {
            assert(all.take(i + 1).drop_last() =~= all.take(i as int));
            assert(all.take(i + 1).last() == seqs@[i as int].deep_view());
            let keys = &seqs[i];
            let ghost first = all.take(i + 1).len() == 1;
            let more = data::map(
                &at,
                |p: &(Context, bool)| -> (b: Binding)
                    ensures
                        b.deep_view() == (SpecBinding {
                            context: p.deep_view().0,
                            keys: keys.deep_view(),
                            command,
                            primary: p.deep_view().1 && i == 0,
                        })
                { Binding { context: p.0, keys: keys.dup(), command, primary: p.1 && i == 0 } },
                Ghost(
                    |p: (Context, bool)|
                        SpecBinding { context: p.0, keys: keys.deep_view(), command, primary: p.1 && i == 0 },
                ),
            );
            let ghost before = map.bindings.deep_view();
            let ghost added = more.deep_view();
            data::append(&mut map.bindings, more);
            proof {
                let whole = rows_for(all.take(i + 1), at.deep_view(), command);
                assert(added =~= at.deep_view().map_values(
                    |p: (Context, bool)|
                        SpecBinding {
                            context: p.0,
                            keys: all.take(i + 1).last(),
                            command,
                            primary: p.1 && all.take(i + 1).len() == 1,
                        },
                ));
                assert(before + added =~= kept + whole);
            }
        }
        assert(all.take(n as int) =~= all);
        let marks = data::map(
            &at,
            |p: &(Context, bool)| -> (m: (Context, Command))
                ensures
                    m.deep_view() == (p.deep_view().0, command)
            { (p.0, command) },
            Ghost(|p: (Context, bool)| (p.0, command)),
        );
        data::append(&mut map.overridden, marks);
        Ok(map)
    }

    fn configure_mode(self, mode: &ModeKeys) -> (r: Result<Self, KeysError>)
        ensures
            keymap_is(r, self.deep_view().with_actions(mode.mode, mode.deep_view().actions)),
    {
        let ghost start = self.deep_view();
        let ghost all = mode.actions.deep_view();
        let n: usize = mode.actions.len();
        let mut state: Result<Keymap, KeysError> = Ok(self);
        assert(all.take(0) =~= Seq::empty());
        for i in 0..n
            invariant
                n == mode.actions@.len(),
                all == mode.actions.deep_view(),
                keymap_is(state, start.with_actions(mode.mode, all.take(i as int))),
        {
            assert(all.take(i + 1).drop_last() =~= all.take(i as int));
            assert(all.take(i + 1).last() == mode.actions@[i as int].deep_view());
            state = match state {
                Err(e) => Err(e),
                Ok(map) => map.configure(mode.mode, &mode.actions[i]),
            };
        }
        assert(all.take(n as int) =~= all);
        state
    }

    fn configure_group(self, group: &GroupLabel) -> (r: Result<Self, KeysError>)
        ensures
            keymap_is(r, self.deep_view().with_group(group.deep_view())),
    {
        let mut map = self;
        match resolve_seq(group.prefix.as_str(), map.leader) {
            Err(source) => Err(KeysError::BadGroup { prefix: group.prefix.dup(), source }),
            Ok(prefix) => {
                data::retain(
                    &mut map.groups,
                    |g: &Group| -> (b: bool)
                        ensures
                            b == (g.deep_view().prefix != prefix.deep_view())
                    { !g.prefix.same(&prefix) },
                    Ghost(|g: SpecGroup| g.prefix != prefix.deep_view()),
                );
                data::push(&mut map.groups, Group { prefix, label: group.label.dup() });
                Ok(map)
            },
        }
    }

    /// The default table with `config` applied. Only input that cannot be
    /// read rejects it.
    pub fn with_config(config: &KeysConfig) -> (r: Result<Self, KeysError>)
        ensures
            keymap_is(r, SpecKeymap::configured(config.deep_view())),
    {
        let leader = match &config.leader {
            None => KeyChord::named(NamedKey::Space),
            Some(text) => match resolve_seq(text.as_str(), KeyChord::named(NamedKey::Space)) {
                Err(e) => {
                    return Err(KeysError::BadLeader(e));
                },
                Ok(keys) => {
                    assert(keys.chords.deep_view() =~= keys.chords@);
                    if keys.chords.len() == 1 {
                        keys.chords[0]
                    } else {
                        return Err(KeysError::BadLeader(KeyParseError::Empty));
                    }
                },
            },
        };
        let map = Self::default_table_with(leader);
        let ghost start = map.deep_view();
        let ghost modes = config.bindings.deep_view();
        let n: usize = config.bindings.len();
        let mut state: Result<Keymap, KeysError> = Ok(map);
        assert(modes.take(0) =~= Seq::empty());
        for i in 0..n
            invariant
                n == config.bindings@.len(),
                modes == config.bindings.deep_view(),
                keymap_is(state, start.with_modes(modes.take(i as int))),
        {
            assert(modes.take(i + 1).drop_last() =~= modes.take(i as int));
            assert(modes.take(i + 1).last() == config.bindings@[i as int].deep_view());
            state = match state {
                Err(e) => Err(e),
                Ok(map) => map.configure_mode(&config.bindings[i]),
            };
        }
        assert(modes.take(n as int) =~= modes);
        let map = match state {
            Err(e) => {
                return Err(e);
            },
            Ok(map) => map,
        };
        let ghost start = map.deep_view();
        let ghost groups = config.groups.deep_view();
        let n: usize = config.groups.len();
        let mut state: Result<Keymap, KeysError> = Ok(map);
        assert(groups.take(0) =~= Seq::empty());
        for i in 0..n
            invariant
                n == config.groups@.len(),
                groups == config.groups.deep_view(),
                keymap_is(state, start.with_groups(groups.take(i as int))),
        {
            assert(groups.take(i + 1).drop_last() =~= groups.take(i as int));
            assert(groups.take(i + 1).last() == config.groups@[i as int].deep_view());
            state = match state {
                Err(e) => Err(e),
                Ok(map) => map.configure_group(&config.groups[i]),
            };
        }
        assert(groups.take(n as int) =~= groups);
        state
    }
}


// ---- laws: the text form --------------------------------------------------

/// `name` in a list if `held`, an empty list otherwise.
pub open spec fn listed(held: bool, name: Seq<char>) -> Seq<Seq<char>> {
    if held {
        seq![name]
    } else {
        Seq::empty()
    }
}

/// The names of the modifiers that are held.
pub open spec fn held_names(mods: Modifiers) -> Seq<Seq<char>> {
    listed(mods.ctrl, "ctrl"@) + (listed(mods.alt, "alt"@) + (listed(mods.shift, "shift"@) + listed(
        mods.meta,
        "meta"@,
    )))
}

proof fn lemma_prefix(held: bool, name: Seq<char>, word: Seq<char>, rest: Seq<char>)
    requires
        word == name + seq!['+'],
        !name.contains('+'),
    ensures
        text::parts(when(held, word) + rest, '+') == listed(held, name) + text::parts(rest, '+'),
{
    if held {
        text::lemma_parts_first(name, rest, '+');
        assert(word + rest =~= name + seq!['+'] + rest);
    } else {
        assert(when(held, word) + rest =~= rest);
        assert(listed(held, name) + text::parts(rest, '+') =~= text::parts(rest, '+'));
    }
}

proof fn lemma_chord_parts(chord: KeyChord)
    ensures
        text::parts(chord_text(chord), '+') == held_names(chord.mods) + text::parts(code_text(chord.key), '+'),
{
    reveal_strlit("ctrl");
    reveal_strlit("alt");
    reveal_strlit("shift");
    reveal_strlit("meta");
    reveal_strlit("ctrl+");
    reveal_strlit("alt+");
    reveal_strlit("shift+");
    reveal_strlit("meta+");
    let m = chord.mods;
    let e = code_text(chord.key);
    let d = when(m.meta, "meta+"@) + e;
    let c = when(m.shift, "shift+"@) + d;
    let b = when(m.alt, "alt+"@) + c;
    assert("ctrl+"@ =~= "ctrl"@ + seq!['+']);
    assert("alt+"@ =~= "alt"@ + seq!['+']);
    assert("shift+"@ =~= "shift"@ + seq!['+']);
    assert("meta+"@ =~= "meta"@ + seq!['+']);
    lemma_prefix(m.meta, "meta"@, "meta+"@, e);
    lemma_prefix(m.shift, "shift"@, "shift+"@, d);
    lemma_prefix(m.alt, "alt"@, "alt+"@, c);
    lemma_prefix(m.ctrl, "ctrl"@, "ctrl+"@, b);
    assert(chord_text(chord) =~= when(m.ctrl, "ctrl+"@) + b);
    let p = text::parts(e, '+');
    assert(text::parts(chord_text(chord), '+') =~= held_names(m) + p);
}

proof fn lemma_lower_names()
    ensures
        text::ascii_lower("ctrl"@) == "ctrl"@,
        text::ascii_lower("alt"@) == "alt"@,
        text::ascii_lower("shift"@) == "shift"@,
        text::ascii_lower("meta"@) == "meta"@,
{
    reveal_strlit("ctrl");
    reveal_strlit("alt");
    reveal_strlit("shift");
    reveal_strlit("meta");
    assert(text::ascii_lower("ctrl"@) =~= "ctrl"@);
    assert(text::ascii_lower("alt"@) =~= "alt"@);
    assert(text::ascii_lower("shift"@) =~= "shift"@);
    assert(text::ascii_lower("meta"@) =~= "meta"@);
}

proof fn lemma_hold_one(mods: Modifiers, held: bool, name: Seq<char>, next: Modifiers, rest: Seq<Seq<char>>)
    requires
        text::ascii_lower(name) == name,
        held ==> hold(mods, name) == Some(next),
        !held ==> next == mods,
    ensures
        hold_all(mods, listed(held, name) + rest) == hold_all(next, rest),
{
    if held {
        assert((seq![name] + rest)[0] == name);
        assert((seq![name] + rest).drop_first() =~= rest);
    } else {
        assert(listed(held, name) + rest =~= rest);
    }
}

proof fn lemma_hold_all(mods: Modifiers)
    ensures
        hold_all(Modifiers::none(), held_names(mods)) == Ok::<Modifiers, SpecKeyParseError>(mods),
{
    lemma_lower_names();
    reveal_strlit("ctrl");
    reveal_strlit("control");
    reveal_strlit("c");
    reveal_strlit("alt");
    reveal_strlit("option");
    reveal_strlit("a");
    reveal_strlit("shift");
    reveal_strlit("s");
    reveal_strlit("meta");
    assert("meta"@[0] == 'm' && "ctrl"@[0] == 'c');
    let none = Modifiers::none();
    let a = Modifiers { ctrl: mods.ctrl, ..none };
    let b = Modifiers { alt: mods.alt, ..a };
    let c = Modifiers { shift: mods.shift, ..b };
    let empty = Seq::<Seq<char>>::empty();
    let d = listed(mods.meta, "meta"@);
    assert(d + empty =~= d);
    lemma_hold_one(c, mods.meta, "meta"@, mods, empty);
    lemma_hold_one(b, mods.shift, "shift"@, c, d);
    lemma_hold_one(a, mods.alt, "alt"@, b, listed(mods.shift, "shift"@) + d);
    lemma_hold_one(
        none,
        mods.ctrl,
        "ctrl"@,
        a,
        listed(mods.alt, "alt"@) + (listed(mods.shift, "shift"@) + d),
    );
}

/// A key that is named is found under its name, and its name is no single
/// character.
proof fn lemma_key_names(key: NamedKey)
    ensures
        key_name(key).len() > 1,
        text::ascii_lower(key_name(key)) == key_name(key),
        key_named(key_name(key)) == Some(key),
        !key_name(key).contains('+'),
        text::without_space(key_name(key)),
{
    reveal_strlit("enter");
    reveal_strlit("esc");
    reveal_strlit("tab");
    reveal_strlit("backspace");
    reveal_strlit("space");
    reveal_strlit("up");
    reveal_strlit("down");
    reveal_strlit("left");
    reveal_strlit("right");
    reveal_strlit("pageup");
    reveal_strlit("pagedown");
    reveal_strlit("home");
    reveal_strlit("end");
    assert(text::ascii_lower(key_name(key)) =~= key_name(key));
    assert("enter"@[0] == 'e' && "space"@[0] == 's' && "right"@[0] == 'r');
    assert("down"@[0] == 'd' && "left"@[0] == 'l' && "home"@[0] == 'h');
    assert("esc"@[1] == 's' && "tab"@[1] == 'a' && "end"@[1] == 'n');
}

proof fn lemma_code_parts(key: KeyCode)
    requires
        key != (KeyCode::Char { c: ' ' }),
    ensures
        read_code(code_text(key)) == Ok::<KeyCode, SpecKeyParseError>(key),
        code_text(key).len() > 0,
        key == (KeyCode::Char { c: '+' }) ==> text::parts(code_text(key), '+') == seq![
            Seq::<char>::empty(),
            Seq::<char>::empty(),
        ],
        key != (KeyCode::Char { c: '+' }) ==> text::parts(code_text(key), '+') == seq![code_text(key)],
{
    let code = code_text(key);
    if key == (KeyCode::Char { c: '+' }) {
        let empty = Seq::<char>::empty();
        text::lemma_parts_first(empty, empty, '+');
        text::lemma_parts_only(empty, '+');
        assert(code =~= empty + seq!['+'] + empty);
        assert(text::parts(code, '+') =~= seq![empty, empty]);
    } else {
        if let KeyCode::Named { key } = key {
            lemma_key_names(key);
        }
        text::lemma_parts_only(code, '+');
    }
}

/// A chord's text form reads back as the chord, unless its key is the blank
/// as a character, which is written like the named key.
pub proof fn chords_read_back(chord: KeyChord)
    requires
        chord.key != (KeyCode::Char { c: ' ' }),
    ensures
        read_chord(chord_text(chord)) == Ok::<KeyChord, SpecKeyParseError>(chord),
{
    let code = code_text(chord.key);
    let names = held_names(chord.mods);
    let all = text::parts(chord_text(chord), '+');
    let n = all.len() as int;
    lemma_chord_parts(chord);
    lemma_hold_all(chord.mods);
    lemma_code_parts(chord.key);
    assert(chord_text(chord).len() > 0) by {
        assert(chord_text(chord).last() == code.last());
    }
    if chord.key == (KeyCode::Char { c: '+' }) {
        reveal_strlit("+");
        assert("+"@ =~= seq!['+']);
        assert(all[n - 1].len() == 0);
        assert(all.take(n - 2) =~= names);
    } else {
        assert(all[n - 1] == code);
        assert(all.take(n - 1) =~= names);
    }
}

/// A chord whose key is no whitespace character.
pub open spec fn is_plain(chord: KeyChord) -> bool {
    match chord.key {
        KeyCode::Char { c } => !text::is_space(c),
        KeyCode::Named { .. } => true,
    }
}

proof fn lemma_chord_has_no_space(chord: KeyChord)
    requires
        is_plain(chord),
    ensures
        chord_text(chord).len() > 0,
        text::without_space(chord_text(chord)),
{
    reveal_strlit("ctrl+");
    reveal_strlit("alt+");
    reveal_strlit("shift+");
    reveal_strlit("meta+");
    reveal_strlit("space");
    if let KeyCode::Named { key } = chord.key {
        lemma_key_names(key);
    }
    assert(chord_text(chord).last() == code_text(chord.key).last());
}

proof fn lemma_regroup(a: Seq<char>, s: Seq<char>, b: Seq<char>, c: Seq<char>)
    ensures
        a + (s + b) + s + c == a + (s + (b + s + c)),
{
    assert(a + (s + b) + s + c =~= a + (s + (b + s + c)));
}

proof fn lemma_chords_from_the_front(chords: Seq<KeyChord>)
    requires
        chords.len() >= 2,
    ensures
        chords_text(chords) == chord_text(chords[0]) + (" "@ + chords_text(chords.drop_first())),
    decreases chords.len(),
{
    let rest = chords.drop_first();
    if chords.len() == 2 {
        assert(chords.drop_last()[0] == chords[0]);
        assert(rest[0] == chords.last());
        assert(chords_text(chords.drop_last()) == chord_text(chords[0]));
        assert(chords_text(rest) == chord_text(chords.last()));
        assert(chords_text(chords) =~= chord_text(chords[0]) + (" "@ + chords_text(rest)));
    } else {
        let init = chords.drop_last();
        lemma_chords_from_the_front(init);
        let a = chord_text(chords[0]);
        let b = chords_text(rest.drop_last());
        let c = chord_text(chords.last());
        assert(init.drop_first() =~= rest.drop_last());
        assert(init[0] == chords[0]);
        assert(rest.last() == chords.last());
        lemma_regroup(a, " "@, b, c);
    }
}

proof fn lemma_words_of_chords(chords: Seq<KeyChord>)
    requires
        forall|i: int| 0 <= i < chords.len() ==> is_plain(#[trigger] chords[i]),
    ensures
        text::words(chords_text(chords)) == chords.map_values(|c: KeyChord| chord_text(c)),
    decreases chords.len(),
{
    let texts = chords.map_values(|c: KeyChord| chord_text(c));
    if chords.len() == 0 {
        assert(texts =~= Seq::empty());
    } else if chords.len() == 1 {
        let w = chord_text(chords[0]);
        lemma_chord_has_no_space(chords[0]);
        text::lemma_words_first(w, Seq::empty());
        assert(w + Seq::<char>::empty() =~= w);
        assert(text::words(Seq::<char>::empty()) =~= Seq::empty());
        assert(texts =~= seq![w] + Seq::<Seq<char>>::empty());
    } else {
        reveal_strlit(" ");
        let w = chord_text(chords[0]);
        let rest = chords_text(chords.drop_first());
        lemma_chords_from_the_front(chords);
        lemma_chord_has_no_space(chords[0]);
        assert forall|i: int| 0 <= i < chords.drop_first().len() implies is_plain(
            #[trigger] chords.drop_first()[i],
        ) by {
            assert(chords.drop_first()[i] == chords[i + 1]);
        }
        lemma_words_of_chords(chords.drop_first());
        text::lemma_words_first(w, " "@ + rest);
        text::lemma_words_skip_space(" "@ + rest);
        assert((" "@ + rest).drop_first() =~= rest);
        assert(texts =~= seq![w] + chords.drop_first().map_values(|c: KeyChord| chord_text(c)));
    }
}

proof fn lemma_tokens(chords: Seq<KeyChord>, words: Seq<Seq<char>>)
    requires
        words == chords.map_values(|c: KeyChord| chord_text(c)),
        forall|i: int| 0 <= i < chords.len() ==> is_plain(#[trigger] chords[i]),
    ensures
        read_tokens(words, None) == Ok::<Seq<KeyChord>, SpecKeyParseError>(chords),
    decreases chords.len(),
{
    if chords.len() > 0 {
        let init = chords.drop_last();
        assert(words.drop_last() =~= init.map_values(|c: KeyChord| chord_text(c)));
        lemma_tokens(init, words.drop_last());
        chords_read_back(chords.last());
        assert(init.push(chords.last()) =~= chords);
    } else {
        assert(chords =~= Seq::empty());
    }
}

/// A sequence's text form reads back as the sequence, unless one of its
/// keys is a whitespace character.
pub proof fn sequences_read_back(keys: SpecKeySeq)
    requires
        keys.chords.len() > 0,
        forall|i: int| 0 <= i < keys.chords.len() ==> is_plain(#[trigger] keys.chords[i]),
    ensures
        read_seq(chords_text(keys.chords), None) == Ok::<SpecKeySeq, SpecKeyParseError>(keys),
{
    lemma_words_of_chords(keys.chords);
    lemma_tokens(keys.chords, text::words(chords_text(keys.chords)));
}

} // verus!

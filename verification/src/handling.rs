//! One input in, effects out.
use vstd::prelude::*;

use crate::client;
use crate::client::{
    ClientCore, CoreError, Input, Resolved, SpecClientCore, SpecCoreError, SpecInput, SpecKeys,
    SpecResolved, SpecStored, Stored,
    SEQ_TIMEOUT_MS,
};
use crate::command::{Command, Context};
use crate::data;
use crate::data::Value;
use crate::flow;
use crate::flow::{Effect, Errand, Key, SpecEffect, SpecErrand, SpecFlow, SpecKey};
use crate::keymap;
use crate::keymap::{KeyChord, Keymap, Lookup, SpecKeymap};
use crate::protocol::ViewSection;
use crate::serving;
use crate::settling;
use crate::view;
use crate::view::{LastKey, SpecViewDelta, SpecViewModel, ViewDelta};

verus! {

pub open spec fn as_effect() -> spec_fn(SpecErrand) -> SpecEffect {
    |e: SpecErrand|
        match e {
            SpecErrand::Connect => SpecEffect::Connect,
            SpecErrand::Disconnect => SpecEffect::Disconnect,
            SpecErrand::Send(msg) => SpecEffect::Send(msg),
            SpecErrand::Persist { key, value } => SpecEffect::Persist { key, value },
            SpecErrand::Load { key } => SpecEffect::Load { key },
            SpecErrand::Remove { key } => SpecEffect::Remove { key },
            SpecErrand::ManageDaemon { id, request } => SpecEffect::ManageDaemon { id, request },
        }
}

fn effect(e: &Errand) -> (r: Effect)
    ensures
        r.deep_view() == as_effect()(e.deep_view()),
{
    match e {
        Errand::Connect => Effect::Connect,
        Errand::Disconnect => Effect::Disconnect,
        Errand::Send(msg) => Effect::Send(msg.dup()),
        Errand::Persist { key, value } => Effect::Persist { key: key.dup(), value: value.dup() },
        Errand::Load { key } => Effect::Load { key: key.dup() },
        Errand::Remove { key } => Effect::Remove { key: key.dup() },
        Errand::ManageDaemon { id, request } => Effect::ManageDaemon { id: *id, request: *request },
    }
}

impl SpecClientCore {
    /// The stored preferences came, or there were none.
    #[verifier::opaque]
    pub open spec fn prefs_stored(self, value: SpecStored) -> SpecClientCore {
        let c = SpecClientCore { prefs_loaded: true, ..self };
        match value {
            SpecStored::Prefs { prefs } => if prefs == c.view.prefs {
                c
            } else {
                c.apply_prefs(prefs, false)
            },
            _ => c,
        }
    }

    /// The stored key configuration came. One that cannot be read or used
    /// leaves the table as it is.
    #[verifier::opaque]
    pub open spec fn keymap_stored(self, value: SpecStored) -> SpecClientCore {
        match value {
            SpecStored::Keys { config } => match SpecKeymap::configured(config) {
                Ok(keymap) => self.with_keys(SpecKeys { keymap, ..self.keys }),
                Err(_) => self,
            },
            _ => self,
        }
    }

    /// The clock, which never goes back.
    pub open spec fn at(self, ms: u64) -> SpecClientCore {
        SpecClientCore {
            now: if ms > self.now {
                ms
            } else {
                self.now
            },
            ..self
        }
    }

    /// A sequence waits for its next chord, but not for ever.
    pub open spec fn timed_out(self) -> bool {
        self.keys.chords.len() > 0 && self.now > self.keys.last_chord + SEQ_TIMEOUT_MS
    }

    #[verifier::opaque]
    pub open spec fn ticked(self, ms: u64) -> SpecClientCore {
        let c = self.at(ms);
        (if c.timed_out() {
            c.with_chords(Seq::empty())
        } else {
            c
        }).restart_tick()
    }

    /// What a command means here is done, if it means anything.
    #[verifier::opaque]
    pub open spec fn ran(self, target: SpecResolved) -> Result<SpecClientCore, SpecCoreError> {
        match target {
            SpecResolved::Action { action } => self.acted(action),
            SpecResolved::Nowhere { reason } => Err(SpecCoreError::NoTarget(reason)),
        }
    }

    /// What the next chord would mean where the focus is.
    pub open spec fn next_key(self, chord: KeyChord) -> Lookup {
        self.keys.keymap.lookup(self.view.focus.spec_context(), self.keys.chords.push(chord))
    }

    pub open spec fn with_chords(self, chords: Seq<KeyChord>) -> SpecClientCore {
        self.with_keys(SpecKeys { chords, ..self.keys })
    }

    /// A key continues a sequence.
    #[verifier::opaque]
    pub open spec fn continued(self, chord: KeyChord) -> SpecClientCore {
        self.with_keys(
            SpecKeys {
                chords: self.keys.chords.push(chord),
                last_chord: self.now,
                ..self.keys
            },
        )
    }

    /// What a key does, the command it completed, and why it was refused.
    /// A refused key ends the sequence in progress all the same.
    #[verifier::opaque]
    pub open spec fn keyed(self, chord: KeyChord, target: SpecResolved) -> (
        SpecClientCore,
        Option<Command>,
        Option<SpecCoreError>,
    ) {
        let fresh = self.with_chords(Seq::empty());
        match self.next_key(chord) {
            Lookup::Prefix => (self.continued(chord), None, None),
            Lookup::Command(command) => match fresh.ran(target) {
                Ok(c) => (c, Some(command), None),
                Err(e) => (fresh, None, Some(e)),
            },
            Lookup::Unbound => if self.view.focus.spec_context() is Composer || self.keys.chords.len() > 0 {
                (fresh, None, None)
            } else {
                (
                    fresh,
                    None,
                    Some(SpecCoreError::UnboundKey(keymap::chords_text(self.keys.chords.push(chord)))),
                )
            },
        }
    }

    /// Every key is counted, whatever comes of it.
    pub open spec fn counted(self) -> SpecClientCore {
        self.with_keys(SpecKeys { keys_handled: flow::next(self.keys.keys_handled), ..self.keys })
    }

    /// The verdict on the last key. The view carries that of a refused key
    /// at once, as nothing is derived then.
    #[verifier::opaque]
    pub open spec fn judged(self, last_key: LastKey, refused: bool) -> SpecClientCore {
        let c = self.with_keys(SpecKeys { last_key: Some(last_key), ..self.keys });
        if refused {
            c.with_view(SpecViewModel { last_key: Some(last_key), ..c.view })
        } else {
            c
        }
    }

    #[verifier::opaque]
    pub open spec fn pressed(self, chord: KeyChord, target: SpecResolved) -> (SpecClientCore, Option<SpecCoreError>) {
        let seq = flow::next(self.keys.keys_handled);
        let (c, command, refused) = self.counted().keyed(chord, target);
        (c.judged(LastKey { seq, command }, refused is Some), refused)
    }

    /// What an input makes of the core before anything is derived.
    #[verifier::opaque]
    pub open spec fn taken(self, input: SpecInput) -> (SpecClientCore, Option<SpecCoreError>) {
        match input {
            SpecInput::User(action) => self.outcome_of(self.acted(action)),
            SpecInput::Server(msg) => self.served(msg),
            SpecInput::Transport(event) => (self.transported(event), None),
            SpecInput::Stored { key, value } => match key {
                SpecKey::Prefs => (self.prefs_stored(value), None),
                SpecKey::Keymap => (self.keymap_stored(value), None),
                SpecKey::Content { key } => self.outcome_of(self.stored(key, value)),
            },
            SpecInput::Tick(ms) => (self.ticked(ms), None),
            SpecInput::Key { chord, target } => self.pressed(chord, target),
            SpecInput::Run { target, .. } => self.outcome_of(self.ran(target)),
            SpecInput::RestartNotice { operation } => (self.restart_notice(operation), None),
            SpecInput::Managed { id, reply } => (self.managed_daemon(id, reply), None),
        }
    }

    /// The effects that are due: one render of everything touched comes
    /// last.
    #[verifier::opaque]
    pub open spec fn due(self) -> Seq<SpecEffect> {
        let errands = self.flow.out.map_values(as_effect());
        if self.flow.touched.len() == 0 {
            errands
        } else {
            errands.push(SpecEffect::Render(SpecViewDelta { sections: view::deduped(self.flow.touched) }))
        }
    }

    #[verifier::opaque]
    pub open spec fn flushed(self) -> SpecClientCore {
        self.with_flow(SpecFlow { out: Seq::empty(), touched: Seq::empty(), ..self.flow })
    }

    /// What an input makes of the core, and the effects or the refusal.
    #[verifier::opaque]
    pub open spec fn handled(self, input: SpecInput) -> (SpecClientCore, Result<Seq<SpecEffect>, SpecCoreError>) {
        let (c, refused) = self.taken(input);
        match refused {
            Some(e) => (c, Err(e)),
            None => (c.derived().flushed(), Ok(c.derived().due())),
        }
    }
}

impl ClientCore {
    fn prefs_stored(&mut self, value: Stored)
        ensures
            final(self).deep_view() == old(self).deep_view().prefs_stored(value.deep_view()),
    {
        proof {
            reveal(ClientCore::model);
            reveal(SpecClientCore::prefs_stored);
        }
        self.prefs_loaded = true;
        match value {
            Stored::Prefs { prefs } => {
                if prefs != self.view.prefs() {
                    self.apply_prefs(prefs, false);
                }
            },
            _ => {},
        }
    }

    fn keymap_stored(&mut self, value: Stored)
        ensures
            final(self).deep_view() == old(self).deep_view().keymap_stored(value.deep_view()),
    {
        proof {
            reveal(ClientCore::model);
            reveal(SpecClientCore::keymap_stored);
        }
        match value {
            Stored::Keys { config } => match Keymap::with_config(&config) {
                Ok(keymap) => {
                    self.keys.keymap = keymap;
                },
                Err(_) => {},
            },
            _ => {},
        }
    }

    fn tick(&mut self, ms: u64)
        ensures
            final(self).deep_view() == old(self).deep_view().ticked(ms),
    {
        proof {
            reveal(ClientCore::model);
            reveal(SpecClientCore::ticked);
        }
        if ms > self.now {
            self.now = ms;
        }
        assert(self.keys.chords.deep_view().len() == self.keys.chords@.len());
        if self.keys.chords.len() > 0 && self.now > self.keys.last_chord && self.now - self.keys.last_chord
            > SEQ_TIMEOUT_MS {
            self.keys.chords = data::empty();
        }
        self.restart_tick();
    }

    fn run(&mut self, target: Resolved) -> (r: Result<(), CoreError>)
        ensures
            client::settled(
                old(self).deep_view(),
                final(self).deep_view(),
                r,
                old(self).deep_view().ran(target.deep_view()),
            ),
    {
        proof {
            reveal(SpecClientCore::ran);
        }
        match target {
            Resolved::Action { action } => self.user(action),
            Resolved::Nowhere { reason } => Err(CoreError::NoTarget(reason)),
        }
    }

    fn after(&self, chord: KeyChord) -> (r: Vec<KeyChord>)
        ensures
            r@ == self.deep_view().keys.chords.push(chord),
    {
        proof {
            reveal(ClientCore::model);
        }
        let mut chords = self.keys.chords.dup();
        assert(chords.deep_view() =~= chords@);
        chords.push(chord);
        chords
    }

    fn context(&self) -> (r: Context)
        ensures
            r == self.deep_view().view.focus.spec_context(),
    {
        proof {
            reveal(ClientCore::model);
        }
        self.view.focus().context()
    }

    /// What the next chord would mean: the command it would complete, so
    /// that the host can tell what that command does here.
    pub fn next_key(&self, chord: KeyChord) -> (r: Lookup)
        ensures
            r == self.deep_view().next_key(chord),
    {
        proof {
            reveal(ClientCore::model);
        }
        let pressed = self.after(chord);
        self.keys.keymap.lookup(self.context(), pressed.as_slice())
    }

    fn proceed(&mut self, chord: KeyChord)
        ensures
            final(self).deep_view() == old(self).deep_view().continued(chord),
    {
        proof {
            reveal(ClientCore::model);
            reveal(SpecClientCore::continued);
        }
        self.keys.last_chord = self.now;
        data::push(&mut self.keys.chords, chord);
    }

    fn clear_chords(&mut self) -> (pending: bool)
        ensures
            final(self).deep_view() == old(self).deep_view().with_chords(Seq::empty()),
            pending == (old(self).deep_view().keys.chords.len() > 0),
    {
        proof {
            reveal(ClientCore::model);
        }
        assert(self.keys.chords.deep_view().len() == self.keys.chords@.len());
        let pending = self.keys.chords.len() > 0;
        self.keys.chords = data::empty();
        pending
    }

    /// Take a key; tells the command it completed.
    fn key(&mut self, chord: KeyChord, target: Resolved) -> (r: Result<Option<Command>, CoreError>)
        ensures
            match r {
                Ok(command) => old(self).deep_view().keyed(chord, target.deep_view()) == (
                    final(self).deep_view(),
                    command,
                    None::<SpecCoreError>,
                ),
                Err(e) => old(self).deep_view().keyed(chord, target.deep_view()) == (
                    final(self).deep_view(),
                    None::<Command>,
                    Some(e.deep_view()),
                ),
            },
    {
        proof {
            reveal(SpecClientCore::keyed);
        }
        let pressed = self.after(chord);
        let context = self.context();
        match self.next_key(chord) {
            Lookup::Prefix => {
                self.proceed(chord);
                Ok(None)
            },
            Lookup::Command(command) => {
                let _ = self.clear_chords();
                match self.run(target) {
                    Ok(()) => Ok(Some(command)),
                    Err(e) => Err(e),
                }
            },
            Lookup::Unbound => {
                let pending = self.clear_chords();
                if context == Context::Composer || pending {
                    Ok(None)
                } else {
                    assert(pressed.deep_view() =~= pressed@);
                    match keymap::KeySeq::new(pressed) {
                        Ok(keys) => Err(CoreError::UnboundKey(keys.to_string())),
                        Err(_) => Err(CoreError::UnboundKey(chord.to_string())),
                    }
                }
            },
        }
    }

    fn count_key(&mut self) -> (seq: u64)
        ensures
            final(self).deep_view() == old(self).deep_view().counted(),
            seq == flow::next(old(self).deep_view().keys.keys_handled),
    {
        proof {
            reveal(ClientCore::model);
        }
        self.keys.keys_handled = self.keys.keys_handled.wrapping_add(1);
        self.keys.keys_handled
    }

    fn judge(&mut self, last_key: LastKey, refused: bool)
        ensures
            final(self).deep_view() == old(self).deep_view().judged(last_key, refused),
    {
        proof {
            reveal(ClientCore::model);
            reveal(SpecClientCore::judged);
        }
        self.keys.last_key = Some(last_key);
        if refused {
            self.view.set_last_key(Some(last_key));
        }
    }

    fn press(&mut self, chord: KeyChord, target: Resolved) -> (r: Result<(), CoreError>)
        ensures
            serving::concluded(
                final(self).deep_view(),
                r,
                old(self).deep_view().pressed(chord, target.deep_view()),
            ),
    {
        proof {
            reveal(SpecClientCore::pressed);
        }
        let seq: u64 = self.count_key();
        match self.key(chord, target) {
            Ok(command) => {
                self.judge(LastKey { seq, command }, false);
                Ok(())
            },
            Err(e) => {
                self.judge(LastKey { seq, command: None }, true);
                Err(e)
            },
        }
    }

    fn take(&mut self, input: Input) -> (r: Result<(), CoreError>)
        ensures
            serving::concluded(final(self).deep_view(), r, old(self).deep_view().taken(input.deep_view())),
    {
        proof {
            reveal(SpecClientCore::taken);
        }
        match input {
            Input::User(action) => self.user(action),
            Input::Server(msg) => self.server(msg),
            Input::Transport(event) => {
                self.transport(event);
                Ok(())
            },
            Input::Stored { key, value } => match key {
                Key::Prefs => {
                    self.prefs_stored(value);
                    Ok(())
                },
                Key::Keymap => {
                    self.keymap_stored(value);
                    Ok(())
                },
                Key::Content { key } => self.stored(key, value),
            },
            Input::Tick(ms) => {
                self.tick(ms);
                Ok(())
            },
            Input::Key { chord, target } => self.press(chord, target),
            Input::Run { target, .. } => self.run(target),
            Input::RestartNotice { operation } => {
                self.restart_notice(operation);
                Ok(())
            },
            Input::Managed { id, reply } => {
                self.managed_daemon(id, reply);
                Ok(())
            },
        }
    }

    fn flush(&mut self) -> (r: Vec<Effect>)
        ensures
            r.deep_view() == old(self).deep_view().due(),
            final(self).deep_view() == old(self).deep_view().flushed(),
    {
        proof {
            reveal(ClientCore::model);
            reveal(SpecClientCore::due);
            reveal(SpecClientCore::flushed);
        }
        let mut effects = data::map(
            &self.flow.out,
            |e: &Errand| -> (r: Effect)
                ensures
                    r.deep_view() == as_effect()(e.deep_view())
            { effect(e) },
            Ghost(as_effect()),
        );
        self.flow.out = data::empty();
        let mut touched: Vec<ViewSection> = data::empty();
        std::mem::swap(&mut touched, &mut self.flow.touched);
        assert(touched.deep_view().len() == touched@.len());
        if touched.len() > 0 {
            data::push(&mut effects, Effect::Render(ViewDelta::new(&touched)));
        }
        effects
    }

    /// Apply one input. A refused input changes nothing and asks for
    /// nothing, except that a key is counted and ends its sequence, and
    /// that being turned away takes the connection down.
    pub fn handle(&mut self, input: Input) -> (r: Result<Vec<Effect>, CoreError>)
        ensures
            match r {
                Ok(effects) => old(self).deep_view().handled(input.deep_view()) == (
                    final(self).deep_view(),
                    Ok::<Seq<SpecEffect>, SpecCoreError>(effects.deep_view()),
                ),
                Err(e) => old(self).deep_view().handled(input.deep_view()) == (
                    final(self).deep_view(),
                    Err::<Seq<SpecEffect>, SpecCoreError>(e.deep_view()),
                ),
            },
    {
        proof {
            reveal(SpecClientCore::handled);
        }
        match self.take(input) {
            Ok(()) => {
                self.derive();
                Ok(self.flush())
            },
            Err(e) => Err(e),
        }
    }
}

impl SpecClientCore {
    /// Nothing is left over from an earlier input.
    pub open spec fn idle(self) -> bool {
        self.flow.out.len() == 0 && self.flow.touched.len() == 0
    }
}

/// An input that is refused leaves the core exactly as it was, unless it is
/// a key or the daemon turning the client away while it connects.
pub proof fn refused_inputs_change_nothing(core: SpecClientCore, input: SpecInput)
    requires
        core.handled(input).1 is Err,
        !(input is Key),
        !(input matches SpecInput::Server(msg) && msg is Rejected && core.connection is Connecting),
    ensures
        core.handled(input).0 == core,
{
    reveal(SpecClientCore::handled);
    reveal(SpecClientCore::taken);
    reveal(SpecClientCore::served);
}

/// A key that is refused is counted and ends the sequence in progress; that
/// is all it changes.
pub proof fn refused_keys_only_end_their_sequence(core: SpecClientCore, chord: KeyChord, target: SpecResolved)
    requires
        core.handled(SpecInput::Key { chord, target }).1 is Err,
    ensures
        ({
            let last_key = Some(LastKey { seq: flow::next(core.keys.keys_handled), command: None });
            core.handled(SpecInput::Key { chord, target }).0 == SpecClientCore {
                keys: SpecKeys {
                    chords: Seq::empty(),
                    keys_handled: flow::next(core.keys.keys_handled),
                    last_key,
                    ..core.keys
                },
                view: SpecViewModel { last_key, ..core.view },
                ..core
            }
        }),
{
    reveal(SpecClientCore::handled);
    reveal(SpecClientCore::taken);
    reveal(SpecClientCore::pressed);
    reveal(SpecClientCore::keyed);
    reveal(SpecClientCore::judged);
}

/// An input asks for at most one render. It comes after everything else,
/// and names no section twice.
pub proof fn renders_come_once_and_last(core: SpecClientCore, input: SpecInput, i: int)
    requires
        core.handled(input).1 is Ok,
        0 <= i < core.handled(input).1->Ok_0.len(),
        core.handled(input).1->Ok_0[i] is Render,
    ensures
        i == core.handled(input).1->Ok_0.len() - 1,
        core.handled(input).1->Ok_0[i]->Render_0.sections.no_duplicates(),
        core.handled(input).1->Ok_0[i]->Render_0.sections.len() > 0,
{
    reveal(SpecClientCore::handled);
    reveal(SpecClientCore::due);
    let c = core.taken(input).0.derived();
    view::deltas_name_each_section_once(c.flow.touched);
}

/// After an input that is applied nothing is left over.
pub proof fn applied_inputs_leave_the_core_idle(core: SpecClientCore, input: SpecInput)
    requires
        core.handled(input).1 is Ok,
    ensures
        core.handled(input).0.idle(),
{
    reveal(SpecClientCore::handled);
    reveal(SpecClientCore::flushed);
}

/// An input that is refused leaves an idle core idle.
pub proof fn refused_inputs_leave_the_core_idle(core: SpecClientCore, input: SpecInput)
    requires
        core.idle(),
        core.handled(input).1 is Err,
    ensures
        core.handled(input).0.idle(),
{
    if input is Key {
        refused_keys_only_end_their_sequence(core, input->chord, input->Key_target);
    } else if input matches SpecInput::Server(msg) && msg is Rejected {
        reveal(SpecClientCore::handled);
        reveal(SpecClientCore::taken);
        reveal(SpecClientCore::served);
        reveal(SpecClientCore::turned_away);
        reveal(SpecClientCore::cleared);
        reveal(SpecFlow::cleared);
    } else {
        refused_inputs_change_nothing(core, input);
    }
}

/// When the clock moves, a pending sequence is dropped exactly if its last
/// chord is more than the pause ago; else it stays as it is.
pub proof fn a_pause_drops_the_pending_sequence(core: SpecClientCore, ms: u64)
    requires
        core.now <= ms,
    ensures
        core.handled(SpecInput::Tick(ms)).1 is Ok,
        core.handled(SpecInput::Tick(ms)).0.keys.chords == (if ms > core.keys.last_chord + SEQ_TIMEOUT_MS {
            Seq::empty()
        } else {
            core.keys.chords
        }),
{
    reveal(SpecClientCore::handled);
    reveal(SpecClientCore::taken);
    reveal(SpecClientCore::ticked);
    reveal(SpecClientCore::flushed);
    reveal(SpecClientCore::restart_tick);
    reveal(SpecClientCore::restart_overdue);
    reveal(SpecClientCore::restart_attempt);
    reveal(SpecClientCore::cleared);
    reveal(SpecClientCore::with_connection_view);
    let c = core.ticked(ms);
    settling::deriving_keeps_the_keys(c);
    if core.keys.chords.len() == 0 {
        assert(core.keys.chords =~= Seq::empty());
    }
}

} // verus!

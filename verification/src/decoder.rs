//! The keystroke decoder. It keeps the identity of the keymap in use, the
//! keys that are held and the modifiers that the layout engine last
//! reported. The engine itself stays with the caller: the decoder says what
//! the engine is to be told, and takes in what the engine answered.

use crate::keystrokes::{KeyEvent, KeyTransition, Keystrokes};
use crate::modifiers::{Modifier, Modifiers};
use crate::rmlvo::{Component, Names, Rmlvo};
use crate::tracker::{after_event, direction_of, held_after, KeyDirection, KeyTracker};
use vstd::prelude::*;

verus! {

/// By how much the engine's keycode of a key lies above its scancode.
pub const EVDEV_OFFSET: u32 = 8;

/// How the layout engine answered the request to compile a keymap.
#[derive(Clone, Copy, Debug, PartialEq, Eq, Structural)]
pub enum KeymapBuild {
    /// The engine compiled the keymap and put it to use.
    Built,
    /// The engine found no keymap for the names.
    Rejected,
}

/// Why there is no keymap for an identity.
#[derive(Clone, Copy, Debug, PartialEq, Eq, Structural)]
pub enum KeymapError {
    /// Rules, model, layout or variant holds a NUL character.
    MalformedIdentity,
    /// The engine found no keymap for the names.
    Unbuildable,
}

/// A decoder as the contracts see it.
pub struct DecoderState {
    /// The identity of the keymap in use.
    pub names: Names,
    /// The keys that are held, the most recently pressed last.
    pub pressed: Seq<u32>,
    /// The modifiers that the engine last reported.
    pub modifiers: Modifiers,
}

impl DecoderState {
    /// A decoder that has seen no event.
    pub open spec fn initial(names: Names) -> DecoderState {
        DecoderState { names, pressed: Seq::empty(), modifiers: Modifiers::none() }
    }

    /// What the engine is to be told of an event of `keycode`.
    pub open spec fn transition(self, keycode: u32) -> KeyTransition {
        KeyTransition {
            keycode: (keycode + EVDEV_OFFSET) as u32,
            direction: direction_of(self.pressed, keycode),
        }
    }

    /// The decoder after an event of `keycode`.
    pub open spec fn after_decode(self, keycode: u32) -> DecoderState {
        DecoderState { pressed: after_event(self.pressed, keycode), ..self }
    }

    /// The decoder after the events `codes`.
    pub open spec fn after_decoding(self, codes: Seq<u32>) -> DecoderState
        decreases codes.len(),
    {
        if codes.len() == 0 {
            self
        } else {
            self.after_decoding(codes.drop_last()).after_decode(codes.last())
        }
    }

    /// Whether a switch to `layout` takes place, given the engine's answer.
    pub open spec fn accepts(self, layout: Seq<char>, keymap: KeymapBuild) -> bool {
        keymap == KeymapBuild::Built && !self.names.with(Component::Layout, layout).holds_nul()
    }

    /// The decoder after an attempt to switch to `layout`. Where the switch
    /// takes place the new layout is part of the identity and no modifier
    /// is active in the engine's fresh state; where it does not, nothing
    /// changes.
    pub open spec fn after_switch(self, layout: Seq<char>, keymap: KeymapBuild) -> DecoderState {
        if self.accepts(layout, keymap) {
            DecoderState {
                names: self.names.with(Component::Layout, layout),
                pressed: self.pressed,
                modifiers: Modifiers::none(),
            }
        } else {
            self
        }
    }
}

/// Decoding from the start holds exactly the keys that the events leave
/// held, and touches neither the identity nor the modifiers.
pub proof fn lemma_decoding_from_start(names: Names, codes: Seq<u32>)
    ensures
        DecoderState::initial(names).after_decoding(codes) == (DecoderState {
            pressed: held_after(codes),
            ..DecoderState::initial(names)
        }),
    decreases codes.len(),
{
    if codes.len() > 0 {
        lemma_decoding_from_start(names, codes.drop_last());
    }
}

/// A switch of layout that the engine rejects is no switch: whatever
/// events follow are decoded as if it had not been tried.
pub proof fn lemma_rejected_switch_is_no_op(state: DecoderState, layout: Seq<char>, codes: Seq<u32>)
    ensures
        state.after_switch(layout, KeymapBuild::Rejected) == state,
        state.after_switch(layout, KeymapBuild::Rejected).after_decoding(codes)
            == state.after_decoding(codes),
        forall|keycode: u32|
            state.after_switch(layout, KeymapBuild::Rejected).after_decoding(codes).transition(
                keycode,
            ) == #[trigger] state.after_decoding(codes).transition(keycode),
{
}

/// Decodes the scancodes of a keyboard.
pub struct KeystrokeDecoder {
    rmlvo: Rmlvo,
    tracker: KeyTracker,
    modifiers: Modifiers,
}

impl View for KeystrokeDecoder {
    type V = DecoderState;

    closed spec fn view(&self) -> DecoderState {
        DecoderState { names: self.rmlvo@, pressed: self.tracker@, modifiers: self.modifiers }
    }
}

impl KeystrokeDecoder {
    /// A decoder for the keymap of `rmlvo`, where there is one. `keymap`
    /// tells how the engine answered the request to compile it. There is no
    /// decoder without a keymap: not where the engine rejected the names,
    /// and not where a name holds a NUL character, which no engine is ever
    /// asked about.
    pub fn new(rmlvo: Rmlvo, keymap: KeymapBuild) -> (made: Result<KeystrokeDecoder, KeymapError>)
        ensures
            match made {
                Ok(decoder) => !rmlvo@.holds_nul() && keymap == KeymapBuild::Built && decoder@
                    == DecoderState::initial(rmlvo@),
                Err(KeymapError::MalformedIdentity) => rmlvo@.holds_nul(),
                Err(KeymapError::Unbuildable) => !rmlvo@.holds_nul() && keymap
                    == KeymapBuild::Rejected,
            },
    {
        if rmlvo.holds_nul() {
            return Err(KeymapError::MalformedIdentity);
        }
        match keymap {
            KeymapBuild::Built => Ok(
                KeystrokeDecoder { rmlvo, tracker: KeyTracker::new(), modifiers: Modifiers::none() },
            ),
            KeymapBuild::Rejected => Err(KeymapError::Unbuildable),
        }
    }

    /// Takes in the scancode of a key event and says what the engine is to
    /// be told: the key's engine keycode, which lies `EVDEV_OFFSET` above
    /// the scancode, and the direction. The event of a key that is not held
    /// is a press, after which the key is held; the event of a held key is
    /// a release, after which it is not.
    pub fn decode(&mut self, keycode: u32) -> (transition: KeyTransition)
        requires
            keycode + EVDEV_OFFSET <= u32::MAX,
        ensures
            transition == old(self)@.transition(keycode),
            transition.keycode == keycode + EVDEV_OFFSET,
            final(self)@ == old(self)@.after_decode(keycode),
            final(self)@.pressed.no_duplicates(),
    {
        let direction = self.tracker.track(keycode);
        let keycode: u32 = keycode + EVDEV_OFFSET;
        KeyTransition { keycode, direction }
    }

    /// Takes in what the engine answered once it had been told of
    /// `transition`: the symbols and the text of the key, and the modifiers
    /// now active. The decoder keeps the modifiers; all of it makes up the
    /// decoded event.
    pub fn resolve(
        &mut self,
        transition: KeyTransition,
        symbols: Vec<u32>,
        text: String,
        modifiers: Modifiers,
    ) -> (keys: Keystrokes)
        ensures
            keys@ == (KeyEvent {
                keycode: transition.keycode,
                direction: transition.direction,
                symbols: symbols@,
                text: text@,
                modifiers,
            }),
            final(self)@ == (DecoderState { modifiers, ..old(self)@ }),
    {
        self.modifiers = modifiers;
        Keystrokes::new(transition, symbols, text, modifiers)
    }

    /// The identity of the keymap in use.
    pub fn identity(&self) -> (rmlvo: &Rmlvo)
        ensures
            rmlvo@ == self@.names,
    {
        &self.rmlvo
    }

    /// The layout in use.
    pub fn layout(&self) -> (layout: &String)
        ensures
            layout@ == self@.names.layout,
    {
        self.rmlvo.layout()
    }

    /// The keys that are held, the most recently pressed last. No key is
    /// among them twice.
    pub fn pressed_keys(&self) -> (keys: &Vec<u32>)
        ensures
            keys@ == self@.pressed,
            keys@.no_duplicates(),
    {
        self.tracker.pressed()
    }

    /// The names to ask the engine about before a switch to `layout`: those
    /// in use, but for the layout.
    pub fn layout_candidate(&self, layout: String) -> (rmlvo: Rmlvo)
        ensures
            rmlvo@ == self@.names.with(Component::Layout, layout@),
    {
        self.rmlvo.with_layout(layout)
    }

    /// Switches to `layout` if the engine compiled the keymap of the
    /// candidate names, as `keymap` tells, and says whether it did. After a
    /// switch the layout is part of the identity, and no modifier is active
    /// in the engine's fresh state. Without one the decoder is as it was.
    pub fn set_layout(&mut self, layout: String, keymap: KeymapBuild) -> (switched: bool)
        ensures
            switched == old(self)@.accepts(layout@, keymap),
            final(self)@ == old(self)@.after_switch(layout@, keymap),
            !switched ==> *final(self) == *old(self),
    {
        match keymap {
            KeymapBuild::Built => {
                let candidate = self.rmlvo.with_layout(layout);
                if candidate.holds_nul() {
                    false
                } else {
                    self.rmlvo = candidate;
                    self.modifiers = Modifiers::none();
                    true
                }
            },
            KeymapBuild::Rejected => false,
        }
    }

    pub fn is_ctrl_pressed(&self) -> (active: bool)
        ensures
            active == self@.modifiers.is_active(Modifier::Ctrl),
    {
        self.modifiers.ctrl
    }

    pub fn is_alt_pressed(&self) -> (active: bool)
        ensures
            active == self@.modifiers.is_active(Modifier::Alt),
    {
        self.modifiers.alt
    }

    pub fn is_shift_pressed(&self) -> (active: bool)
        ensures
            active == self@.modifiers.is_active(Modifier::Shift),
    {
        self.modifiers.shift
    }

    pub fn is_logo_pressed(&self) -> (active: bool)
        ensures
            active == self@.modifiers.is_active(Modifier::Logo),
    {
        self.modifiers.logo
    }

    pub fn is_caps_lock_pressed(&self) -> (active: bool)
        ensures
            active == self@.modifiers.is_active(Modifier::CapsLock),
    {
        self.modifiers.caps_lock
    }

    pub fn is_num_lock_pressed(&self) -> (active: bool)
        ensures
            active == self@.modifiers.is_active(Modifier::NumLock),
    {
        self.modifiers.num_lock
    }
}

} // verus!

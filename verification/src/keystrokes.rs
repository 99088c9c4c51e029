//! One decoded key event: the key, its direction, and what the layout
//! engine answered for it.

use crate::modifiers::{Modifier, Modifiers};
use crate::text::{chars_of, to_uppercase, uppercased};
use crate::tracker::KeyDirection;
use vstd::prelude::*;

verus! {

/// What the layout engine is to be told: the key with this engine keycode
/// went in this direction.
#[derive(Clone, Copy, Debug, PartialEq, Eq, Structural)]
pub struct KeyTransition {
    pub keycode: u32,
    pub direction: KeyDirection,
}

/// A key event as the contracts see it.
pub struct KeyEvent {
    /// The key, in the engine's numbering.
    pub keycode: u32,
    pub direction: KeyDirection,
    /// The symbols that the engine binds to the key in its present state.
    pub symbols: Seq<u32>,
    /// The text that the engine resolves the key to in its present state.
    pub text: Seq<char>,
    /// The modifiers that were active once the engine had taken the event in.
    pub modifiers: Modifiers,
}

/// Each of `symbols` together with `direction`.
pub open spec fn with_direction(symbols: Seq<u32>, direction: KeyDirection) -> Seq<
    (u32, KeyDirection),
> {
    Seq::new(symbols.len(), |i: int| (symbols[i], direction))
}

/// The text that a key event commits: none on release; on press what the
/// engine resolved, in upper case while Shift is active.
pub open spec fn committed_text(direction: KeyDirection, shift: bool, text: Seq<char>) -> Seq<
    char,
> {
    match direction {
        KeyDirection::Up => Seq::empty(),
        KeyDirection::Down => if shift {
            uppercased(text)
        } else {
            text
        },
    }
}

/// Pairs each symbol with the direction of the event.
pub fn pair_with_direction(symbols: &Vec<u32>, direction: KeyDirection) -> (pairs: Vec<
    (u32, KeyDirection),
>)
    ensures
        pairs@ == with_direction(symbols@, direction),
{
    let mut pairs: Vec<(u32, KeyDirection)> = Vec::new();
    let mut i: usize = 0;
    while i < symbols.len()
        invariant
            i <= symbols.len(),
            pairs@ == with_direction(symbols@.take(i as int), direction),
        decreases symbols.len() - i,
    {
        pairs.push((symbols[i], direction));
        i += 1;
        assert(pairs@ =~= with_direction(symbols@.take(i as int), direction));
    }
    proof {
        assert(symbols@.take(i as int) =~= symbols@);
    }
    pairs
}

/// The characters that an event commits, given what the engine resolved
/// the key to and whether Shift is active.
pub fn commit_text(direction: KeyDirection, shift: bool, text: &str) -> (chars: Vec<char>)
    ensures
        chars@ == committed_text(direction, shift, text@),
{
    match direction {
        KeyDirection::Up => Vec::new(),
        KeyDirection::Down => {
            let chars = chars_of(text);
            if shift {
                to_uppercase(&chars)
            } else {
                chars
            }
        },
    }
}

/// One decoded key event. It holds the engine's answers as they were when
/// the event was decoded, and does not change with later events.
pub struct Keystrokes {
    keycode: u32,
    direction: KeyDirection,
    symbols: Vec<u32>,
    text: String,
    modifiers: Modifiers,
}

impl View for Keystrokes {
    type V = KeyEvent;

    closed spec fn view(&self) -> KeyEvent {
        KeyEvent {
            keycode: self.keycode,
            direction: self.direction,
            symbols: self.symbols@,
            text: self.text@,
            modifiers: self.modifiers,
        }
    }
}

impl Keystrokes {
    /// The event of `transition`, with what the engine answered after it
    /// had been told of it.
    pub fn new(
        transition: KeyTransition,
        symbols: Vec<u32>,
        text: String,
        modifiers: Modifiers,
    ) -> (keys: Keystrokes)
        ensures
            keys@ == (KeyEvent {
                keycode: transition.keycode,
                direction: transition.direction,
                symbols: symbols@,
                text: text@,
                modifiers,
            }),
    {
        Keystrokes {
            keycode: transition.keycode,
            direction: transition.direction,
            symbols,
            text,
            modifiers,
        }
    }

    /// The key, in the engine's numbering.
    pub fn keycode(&self) -> (keycode: u32)
        ensures
            keycode == self@.keycode,
    {
        self.keycode
    }

    pub fn direction(&self) -> (direction: KeyDirection)
        ensures
            direction == self@.direction,
    {
        self.direction
    }

    /// The symbols bound to the key, each with the direction of this event.
    pub fn as_keysyms(&self) -> (pairs: Vec<(u32, KeyDirection)>)
        ensures
            pairs@ == with_direction(self@.symbols, self@.direction),
    {
        pair_with_direction(&self.symbols, self.direction)
    }

    /// The characters that this event commits. A release commits none. A
    /// press commits the text of the key, in upper case while Shift is
    /// active.
    pub fn as_chars(&self) -> (chars: Vec<char>)
        ensures
            chars@ == committed_text(self@.direction, self@.modifiers.shift, self@.text),
            self@.direction == KeyDirection::Up ==> chars@.len() == 0,
    {
        commit_text(self.direction, self.modifiers.shift, self.text.as_str())
    }

    pub fn is_ctrl_pressed(&self) -> (active: bool)
        ensures
            active == self@.modifiers.is_active(Modifier::Ctrl),
    {
        self.modifiers.ctrl
    }

    pub fn is_alt_pressed(&self) -> (active: bool)
        ensures
            active == self@.modifiers.is_active(Modifier::Alt),
    {
        self.modifiers.alt
    }

    pub fn is_shift_pressed(&self) -> (active: bool)
        ensures
            active == self@.modifiers.is_active(Modifier::Shift),
    {
        self.modifiers.shift
    }

    pub fn is_logo_pressed(&self) -> (active: bool)
        ensures
            active == self@.modifiers.is_active(Modifier::Logo),
    {
        self.modifiers.logo
    }

    pub fn is_caps_lock_pressed(&self) -> (active: bool)
        ensures
            active == self@.modifiers.is_active(Modifier::CapsLock),
    {
        self.modifiers.caps_lock
    }

    pub fn is_num_lock_pressed(&self) -> (active: bool)
        ensures
            active == self@.modifiers.is_active(Modifier::NumLock),
    {
        self.modifiers.num_lock
    }
}

} // verus!

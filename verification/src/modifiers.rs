//! The modifiers and locks that a keyboard layout engine keeps track of.

use vstd::prelude::*;
use vstd::string::group_string_axioms;

verus! {

broadcast use group_string_axioms;

pub const CTRL_NAME: &'static str = "Control";

pub const ALT_NAME: &'static str = "Mod1";

pub const SHIFT_NAME: &'static str = "Shift";

pub const LOGO_NAME: &'static str = "Mod4";

pub const CAPS_LOCK_NAME: &'static str = "Lock";

pub const NUM_LOCK_NAME: &'static str = "Mod2";

/// A modifier or lock.
#[derive(Clone, Copy, Debug, PartialEq, Eq, Structural)]
pub enum Modifier {
    Ctrl,
    Alt,
    Shift,
    Logo,
    CapsLock,
    NumLock,
}

impl Modifier {
    /// The name under which an XKB keymap knows this modifier.
    pub open spec fn spec_engine_name(self) -> Seq<char> {
        match self {
            Modifier::Ctrl => CTRL_NAME@,
            Modifier::Alt => ALT_NAME@,
            Modifier::Shift => SHIFT_NAME@,
            Modifier::Logo => LOGO_NAME@,
            Modifier::CapsLock => CAPS_LOCK_NAME@,
            Modifier::NumLock => NUM_LOCK_NAME@,
        }
    }

    /// The name by which to ask the engine for this modifier. It holds no
    /// NUL character, so it can be handed over as a C string.
    pub fn engine_name(self) -> (name: &'static str)
        ensures
            name@ == self.spec_engine_name(),
            !name@.contains('\0'),
    {
        proof {
            lemma_engine_names(self);
        }
        match self {
            Modifier::Ctrl => CTRL_NAME,
            Modifier::Alt => ALT_NAME,
            Modifier::Shift => SHIFT_NAME,
            Modifier::Logo => LOGO_NAME,
            Modifier::CapsLock => CAPS_LOCK_NAME,
            Modifier::NumLock => NUM_LOCK_NAME,
        }
    }
}

/// What the six names are, character by character.
proof fn lemma_engine_names(modifier: Modifier)
    ensures
        !modifier.spec_engine_name().contains('\0'),
        modifier.spec_engine_name().len() >= 4,
        modifier.spec_engine_name()[0] == 'C' <==> modifier == Modifier::Ctrl,
        modifier.spec_engine_name()[0] == 'S' <==> modifier == Modifier::Shift,
        modifier.spec_engine_name()[0] == 'L' <==> modifier == Modifier::CapsLock,
        modifier.spec_engine_name()[3] == '1' <==> modifier == Modifier::Alt,
        modifier.spec_engine_name()[3] == '4' <==> modifier == Modifier::Logo,
        modifier.spec_engine_name()[3] == '2' <==> modifier == Modifier::NumLock,
{
    reveal_strlit("Control");
    reveal_strlit("Mod1");
    reveal_strlit("Shift");
    reveal_strlit("Mod4");
    reveal_strlit("Lock");
    reveal_strlit("Mod2");
    let name = modifier.spec_engine_name();
    assert forall|i: int| 0 <= i < name.len() implies name[i] != '\0' by {}
}

/// Each modifier is asked for under a name of its own, so that no query
/// can stand in for another.
pub proof fn lemma_engine_names_differ(a: Modifier, b: Modifier)
    requires
        a != b,
    ensures
        a.spec_engine_name() != b.spec_engine_name(),
{
    lemma_engine_names(a);
    lemma_engine_names(b);
}

/// Which modifiers and locks are active.
#[derive(Clone, Copy, Debug, PartialEq, Eq, Structural)]
pub struct Modifiers {
    pub ctrl: bool,
    pub alt: bool,
    pub shift: bool,
    pub logo: bool,
    pub caps_lock: bool,
    pub num_lock: bool,
}

impl Modifiers {
    /// No modifier is active.
    pub open spec fn spec_none() -> Modifiers {
        Modifiers {
            ctrl: false,
            alt: false,
            shift: false,
            logo: false,
            caps_lock: false,
            num_lock: false,
        }
    }

    /// Whether `modifier` is active.
    pub open spec fn spec_is_active(self, modifier: Modifier) -> bool {
        match modifier {
            Modifier::Ctrl => self.ctrl,
            Modifier::Alt => self.alt,
            Modifier::Shift => self.shift,
            Modifier::Logo => self.logo,
            Modifier::CapsLock => self.caps_lock,
            Modifier::NumLock => self.num_lock,
        }
    }

    #[verifier::when_used_as_spec(spec_none)]
    pub fn none() -> (modifiers: Modifiers)
        ensures
            modifiers == Modifiers::spec_none(),
    {
        Modifiers {
            ctrl: false,
            alt: false,
            shift: false,
            logo: false,
            caps_lock: false,
            num_lock: false,
        }
    }

    #[verifier::when_used_as_spec(spec_is_active)]
    pub fn is_active(self, modifier: Modifier) -> (active: bool)
        ensures
            active == self.spec_is_active(modifier),
    {
        match modifier {
            Modifier::Ctrl => self.ctrl,
            Modifier::Alt => self.alt,
            Modifier::Shift => self.shift,
            Modifier::Logo => self.logo,
            Modifier::CapsLock => self.caps_lock,
            Modifier::NumLock => self.num_lock,
        }
    }

    /// Records the state of one modifier; the other five stay as they are.
    pub fn set(&mut self, modifier: Modifier, active: bool)
        ensures
            final(self).is_active(modifier) == active,
            forall|other: Modifier|
                other != modifier ==> final(self).is_active(other) == old(self).is_active(other),
    {
        match modifier {
            Modifier::Ctrl => {
                self.ctrl = active;
            },
            Modifier::Alt => {
                self.alt = active;
            },
            Modifier::Shift => {
                self.shift = active;
            },
            Modifier::Logo => {
                self.logo = active;
            },
            Modifier::CapsLock => {
                self.caps_lock = active;
            },
            Modifier::NumLock => {
                self.num_lock = active;
            },
        }
    }
}

} // verus!

//! Which keys are held down. A keyboard reports a scancode and nothing
//! else, so whether an event is a press or a release is inferred: the event
//! of a key that is not held presses it, the event of a held key releases it.

use vstd::prelude::*;

verus! {

/// The direction of a key event.
#[derive(Clone, Copy, Debug, PartialEq, Eq, Structural)]
pub enum KeyDirection {
    /// The key was released.
    Up,
    /// The key was pressed.
    Down,
}

/// Index of the last `code` in `pressed`, or -1 where there is none.
pub open spec fn last_position(pressed: Seq<u32>, code: u32) -> int
    decreases pressed.len(),
{
    if pressed.len() == 0 {
        -1
    } else if pressed.last() == code {
        pressed.len() - 1
    } else {
        last_position(pressed.drop_last(), code)
    }
}

/// The direction of the next event of `code` while `pressed` are held.
pub open spec fn direction_of(pressed: Seq<u32>, code: u32) -> KeyDirection {
    if pressed.contains(code) {
        KeyDirection::Up
    } else {
        KeyDirection::Down
    }
}

/// The keys held after an event of `code` while `pressed` were held: a held
/// key leaves (its most recent entry, should there be several), any other
/// key joins at the end.
pub open spec fn after_event(pressed: Seq<u32>, code: u32) -> Seq<u32> {
    if pressed.contains(code) {
        pressed.remove(last_position(pressed, code))
    } else {
        pressed.push(code)
    }
}

/// The keys held after the events `codes`, starting with no key held.
pub open spec fn held_after(codes: Seq<u32>) -> Seq<u32>
    decreases codes.len(),
{
    if codes.len() == 0 {
        Seq::empty()
    } else {
        after_event(held_after(codes.drop_last()), codes.last())
    }
}

/// The direction of event `i` of `codes`, starting with no key held.
pub open spec fn direction_at(codes: Seq<u32>, i: int) -> KeyDirection {
    direction_of(held_after(codes.take(i)), codes[i])
}

/// How often `code` occurs in `codes`.
pub open spec fn occurrences(codes: Seq<u32>, code: u32) -> nat
    decreases codes.len(),
{
    if codes.len() == 0 {
        0
    } else if codes.last() == code {
        occurrences(codes.drop_last(), code) + 1
    } else {
        occurrences(codes.drop_last(), code)
    }
}

/// The codes that occur an odd number of times in `codes`.
pub open spec fn odd_codes(codes: Seq<u32>) -> Set<u32> {
    Set::new(|code: u32| occurrences(codes, code) % 2 == 1)
}

/// `last_position` is the index that holds `code` and has no `code` after
/// it.
pub proof fn lemma_last_position(pressed: Seq<u32>, code: u32, at: int)
    requires
        0 <= at < pressed.len(),
        pressed[at] == code,
        forall|j: int| at < j < pressed.len() ==> pressed[j] != code,
    ensures
        last_position(pressed, code) == at,
    decreases pressed.len(),
{
    if pressed.last() != code {
        lemma_last_position(pressed.drop_last(), code, at);
    }
}

/// Where `code` is held, `last_position` finds it.
pub proof fn lemma_last_position_found(pressed: Seq<u32>, code: u32)
    requires
        pressed.contains(code),
    ensures
        0 <= last_position(pressed, code) < pressed.len(),
        pressed[last_position(pressed, code)] == code,
    decreases pressed.len(),
{
    if pressed.last() != code {
        let rest = pressed.drop_last();
        let at = choose|i: int| 0 <= i < pressed.len() && pressed[i] == code;
        assert(rest[at] == code);
        lemma_last_position_found(rest, code);
    }
}

/// An event changes whether its own key is held and leaves every other key
/// as it was; no key comes to be held twice.
pub proof fn lemma_after_event(pressed: Seq<u32>, code: u32)
    requires
        pressed.no_duplicates(),
    ensures
        after_event(pressed, code).no_duplicates(),
        after_event(pressed, code).contains(code) == !pressed.contains(code),
        forall|other: u32|
            other != code ==> after_event(pressed, code).contains(other) == pressed.contains(other),
{
    let after = after_event(pressed, code);
    if pressed.contains(code) {
        lemma_last_position_found(pressed, code);
        let at = last_position(pressed, code);
        assert forall|i: int| 0 <= i < after.len() implies after[i] == pressed[if i < at {
            i
        } else {
            i + 1
        }] by {}
        assert forall|other: u32| other != code implies after.contains(other) == pressed.contains(
            other,
        ) by {
            if pressed.contains(other) {
                let j = choose|j: int| 0 <= j < pressed.len() && pressed[j] == other;
                let k = if j < at {
                    j
                } else {
                    j - 1
                };
                assert(after[k] == other);
            }
        }
    } else {
        assert forall|other: u32| other != code implies after.contains(other) == pressed.contains(
            other,
        ) by {
            if pressed.contains(other) {
                let j = choose|j: int| 0 <= j < pressed.len() && pressed[j] == other;
                assert(after[j] == other);
            }
        }
        assert(after[pressed.len() as int] == code);
    }
}

/// After any events, exactly the keys with an odd number of events are
/// held, each of them once.
pub proof fn lemma_held_after(codes: Seq<u32>)
    ensures
        held_after(codes).no_duplicates(),
        forall|code: u32| held_after(codes).contains(code) == (occurrences(codes, code) % 2 == 1),
    decreases codes.len(),
{
    if codes.len() > 0 {
        let before = codes.drop_last();
        lemma_held_after(before);
        lemma_after_event(held_after(before), codes.last());
        assert forall|code: u32|
            held_after(codes).contains(code) == (occurrences(codes, code) % 2 == 1) by {
            assert(held_after(before).contains(code) == (occurrences(before, code) % 2 == 1));
        }
    }
}

/// The held keys are the codes with an odd number of events, and there are
/// as many of the one as of the other.
pub proof fn lemma_held_count(codes: Seq<u32>)
    ensures
        held_after(codes).to_set() == odd_codes(codes),
        held_after(codes).len() == odd_codes(codes).len(),
{
    lemma_held_after(codes);
    assert(held_after(codes).to_set() =~= odd_codes(codes));
    held_after(codes).unique_seq_to_set();
}

/// Event `i` is a press exactly if its key had an even number of events
/// before it.
pub proof fn lemma_direction_at(codes: Seq<u32>, i: int)
    requires
        0 <= i < codes.len(),
    ensures
        direction_at(codes, i) == if occurrences(codes.take(i), codes[i]) % 2 == 0 {
            KeyDirection::Down
        } else {
            KeyDirection::Up
        },
{
    lemma_held_after(codes.take(i));
}

/// The events of one key alternate, whatever other keys do in between: the
/// first is a press, the next a release, and so on.
pub proof fn lemma_directions_alternate(codes: Seq<u32>, i: int, j: int)
    requires
        0 <= i < j < codes.len(),
        codes[i] == codes[j],
        forall|k: int| i < k < j ==> codes[k] != codes[i],
    ensures
        occurrences(codes.take(i), codes[i]) == 0 ==> direction_at(codes, i) == KeyDirection::Down,
        direction_at(codes, j) != direction_at(codes, i),
{
    lemma_direction_at(codes, i);
    lemma_direction_at(codes, j);
    lemma_occurrences_between(codes.take(j), i);
    assert(codes.take(j).take(i) =~= codes.take(i));
}

/// A code that occurs at `i` and nowhere after it occurs once more in all
/// of `codes` than before `i`.
proof fn lemma_occurrences_between(codes: Seq<u32>, i: int)
    requires
        0 <= i < codes.len(),
        forall|k: int| i < k < codes.len() ==> codes[k] != codes[i],
    ensures
        occurrences(codes, codes[i]) == occurrences(codes.take(i), codes[i]) + 1,
    decreases codes.len(),
{
    if i == codes.len() - 1 {
        assert(codes.drop_last() =~= codes.take(i));
    } else {
        let rest = codes.drop_last();
        lemma_occurrences_between(rest, i);
        assert(rest.take(i) =~= codes.take(i));
    }
}

/// A key is held exactly if its most recent event was a press.
pub proof fn lemma_held_is_last_pressed(codes: Seq<u32>, code: u32)
    requires
        codes.contains(code),
    ensures
        0 <= last_position(codes, code) < codes.len(),
        held_after(codes).contains(code) == (direction_at(codes, last_position(codes, code))
            == KeyDirection::Down),
{
    lemma_last_position_found(codes, code);
    let at = last_position(codes, code);
    lemma_last_position_is_last(codes, code);
    lemma_occurrences_between(codes, at);
    lemma_direction_at(codes, at);
    lemma_held_after(codes);
}

/// No `code` follows the index that `last_position` gives.
proof fn lemma_last_position_is_last(pressed: Seq<u32>, code: u32)
    ensures
        -1 <= last_position(pressed, code),
        forall|j: int| last_position(pressed, code) < j < pressed.len() ==> pressed[j] != code,
    decreases pressed.len(),
{
    if pressed.len() > 0 && pressed.last() != code {
        let rest = pressed.drop_last();
        lemma_last_position_is_last(rest, code);
        assert forall|j: int| last_position(pressed, code) < j < pressed.len() implies pressed[j]
            != code by {
            if j < rest.len() {
                assert(rest[j] == pressed[j]);
            }
        }
    }
}

/// The keys that are held down, in the order in which they were pressed.
/// No key is held twice.
pub struct KeyTracker {
    pressed: Vec<u32>,
}

impl View for KeyTracker {
    type V = Seq<u32>;

    closed spec fn view(&self) -> Seq<u32> {
        self.pressed@
    }
}

impl KeyTracker {
    #[verifier::type_invariant]
    spec fn distinct(&self) -> bool {
        self.pressed@.no_duplicates()
    }

    /// A tracker with no key held.
    pub fn new() -> (tracker: KeyTracker)
        ensures
            tracker@ == Seq::<u32>::empty(),
    {
        KeyTracker { pressed: Vec::new() }
    }

    /// Index of the most recent entry of `code`, if it is held.
    fn position(&self, code: u32) -> (found: Option<usize>)
        ensures
            match found {
                Some(at) => self@.contains(code) && at == last_position(self@, code),
                None => !self@.contains(code),
            },
    {
        let mut i: usize = self.pressed.len();
        while i > 0
            invariant
                i <= self.pressed.len(),
                forall|j: int| i <= j < self.pressed.len() ==> self.pressed@[j] != code,
            decreases i,
        {
            i -= 1;
            if self.pressed[i] == code {
                proof {
                    lemma_last_position(self.pressed@, code, i as int);
                }
                return Some(i);
            }
        }
        None
    }

    /// Takes in an event of `code` and tells its direction: a release where
    /// the key was held, which then is held no more; a press where it was
    /// not, which then is held as the most recent key.
    pub fn track(&mut self, code: u32) -> (direction: KeyDirection)
        ensures
            direction == direction_of(old(self)@, code),
            final(self)@ == after_event(old(self)@, code),
            final(self)@.no_duplicates(),
    {
        proof {
            use_type_invariant(&*self);
            lemma_after_event(self@, code);
        }
        let found = self.position(code);
        let mut keys: Vec<u32> = Vec::new();
        core::mem::swap(&mut self.pressed, &mut keys);
        let direction = match found {
            Some(at) => {
                proof {
                    lemma_last_position_found(keys@, code);
                }
                keys.remove(at);
                KeyDirection::Up
            },
            None => {
                keys.push(code);
                KeyDirection::Down
            },
        };
        self.pressed = keys;
        direction
    }

    /// The held keys, the most recently pressed last.
    pub fn pressed(&self) -> (keys: &Vec<u32>)
        ensures
            keys@ == self@,
            keys@.no_duplicates(),
    {
        proof {
            use_type_invariant(self);
        }
        &self.pressed
    }

    /// Whether `code` is held.
    pub fn is_pressed(&self, code: u32) -> (held: bool)
        ensures
            held == self@.contains(code),
    {
        let mut i: usize = 0;
        while i < self.pressed.len()
            invariant
                i <= self.pressed.len(),
                forall|j: int| 0 <= j < i ==> self.pressed@[j] != code,
            decreases self.pressed.len() - i,
        {
            if self.pressed[i] == code {
                return true;
            }
            i += 1;
        }
        false
    }
}

} // verus!

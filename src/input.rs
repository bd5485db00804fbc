//! The set of held movement keys, kept as a bitmask.

use vstd::prelude::*;

verus! {

/// A logical movement action; each owns one bit of a key mask.
#[derive(Clone, Copy, Debug, PartialEq, Eq, Structural)]
pub enum BTKey {
    UP,
    DWN,
    LFT,
    RGT,
    W,
    S,
}

impl BTKey {
    /// The bit that this action owns in a key mask.
    pub open spec fn spec_bit(self) -> u32 {
        match self {
            BTKey::UP => 0b1,
            BTKey::DWN => 0b10,
            BTKey::LFT => 0b100,
            BTKey::RGT => 0b1000,
            BTKey::W => 0b1_0000,
            BTKey::S => 0b10_0000,
        }
    }

    pub fn bit(&self) -> (r: u32)
        ensures
            r == self.spec_bit(),
    {
        match self {
            BTKey::UP => 0b1,
            BTKey::DWN => 0b10,
            BTKey::LFT => 0b100,
            BTKey::RGT => 0b1000,
            BTKey::W => 0b1_0000,
            BTKey::S => 0b10_0000,
        }
    }
}

/// Whether `key`'s bit is set in `mask`.
pub open spec fn mask_has(mask: u32, key: BTKey) -> bool {
    mask & key.spec_bit() != 0
}

/// The keys whose bits are set in `mask`.
pub open spec fn held_keys(mask: u32) -> Set<BTKey> {
    Set::new(|k: BTKey| mask_has(mask, k))
}

/// Setting one key's bit sets it and leaves every other key's bit as it was.
proof fn lemma_or_bit(mask: u32, key: BTKey)
    ensures
        held_keys(mask | key.spec_bit()) == held_keys(mask).insert(key),
{
    assert forall|k: BTKey| #[trigger] mask_has(mask | key.spec_bit(), k) == (mask_has(mask, k) || k
        == key) by {
        let (a, b) = (key.spec_bit(), k.spec_bit());
        if k == key {
            assert((mask | a) & a != 0) by (bit_vector)
                requires
                    a == 1u32 || a == 2u32 || a == 4u32 || a == 8u32 || a == 16u32 || a == 32u32,
            ;
        } else {
            assert((mask | a) & b == mask & b) by (bit_vector)
                requires
                    a == 1u32 || a == 2u32 || a == 4u32 || a == 8u32 || a == 16u32 || a == 32u32,
                    b == 1u32 || b == 2u32 || b == 4u32 || b == 8u32 || b == 16u32 || b == 32u32,
                    a != b,
            ;
        }
    }
    assert(held_keys(mask | key.spec_bit()) =~= held_keys(mask).insert(key));
}

/// Clearing one key's bit clears it and leaves every other key's bit as it was.
proof fn lemma_and_not_bit(mask: u32, key: BTKey)
    ensures
        held_keys(mask & !key.spec_bit()) == held_keys(mask).remove(key),
{
    assert forall|k: BTKey| #[trigger] mask_has(mask & !key.spec_bit(), k) == (mask_has(mask, k)
        && k != key) by {
        let (a, b) = (key.spec_bit(), k.spec_bit());
        if k == key {
            assert((mask & !a) & a == 0) by (bit_vector);
        } else {
            assert((mask & !a) & b == mask & b) by (bit_vector)
                requires
                    a == 1u32 || a == 2u32 || a == 4u32 || a == 8u32 || a == 16u32 || a == 32u32,
                    b == 1u32 || b == 2u32 || b == 4u32 || b == 8u32 || b == 16u32 || b == 32u32,
                    a != b,
            ;
        }
    }
    assert(held_keys(mask & !key.spec_bit()) =~= held_keys(mask).remove(key));
}

/// The movement keys currently held down.
pub struct PKeys {
    p_keys: u32,
}

impl View for PKeys {
    type V = Set<BTKey>;

    closed spec fn view(&self) -> Set<BTKey> {
        held_keys(self.p_keys)
    }
}

impl PKeys {
    /// No key held.
    pub fn new() -> (r: PKeys)
        ensures
            r@ == Set::<BTKey>::empty(),
    {
        let r = PKeys { p_keys: 0 };
        assert forall|k: BTKey| !mask_has(0, k) by {
            let b = k.spec_bit();
            assert(0u32 & b == 0) by (bit_vector);
        }
        assert(r@ =~= Set::<BTKey>::empty());
        r
    }

    /// Marks `add` as held.
    pub fn add(&mut self, add: BTKey)
        ensures
            final(self)@ == old(self)@.insert(add),
    {
        proof {
            lemma_or_bit(self.p_keys, add);
        }
        self.p_keys = self.p_keys | add.bit();
    }

    /// Marks `remove` as released.
    pub fn rm(&mut self, remove: BTKey)
        ensures
            final(self)@ == old(self)@.remove(remove),
    {
        proof {
            lemma_and_not_bit(self.p_keys, remove);
        }
        self.p_keys = self.p_keys & !remove.bit();
    }

    /// The keys whose bits are set in `bits`.
    pub fn from_bits(bits: u32) -> (r: PKeys)
        ensures
            r@ == held_keys(bits),
    {
        PKeys { p_keys: bits }
    }

    /// Whether `key` is held.
    pub fn contains(&self, key: BTKey) -> (r: bool)
        ensures
            r == self@.contains(key),
    {
        self.p_keys & key.bit() != 0
    }
}

/// A key as the window system names it, reduced to the keys the pump reads.
#[derive(Clone, Copy, Debug, PartialEq, Eq, Structural)]
pub enum Key {
    W,
    S,
    Left,
    Right,
    Up,
    Down,
    Escape,
    Other,
}

/// A window event, reduced to what the pump reads.
#[derive(Clone, Copy, Debug, PartialEq, Eq, Structural)]
pub enum InputEvent {
    CloseRequested,
    Resized,
    Keyboard { key: Key, pressed: bool },
    Other,
}

/// What one window event does to the shared state.
#[derive(Clone, Copy, Debug, PartialEq, Eq, Structural)]
pub enum InputEffect {
    Press(BTKey),
    Release(BTKey),
    RequestExit,
    MarkSurfaceDirty,
    Ignore,
}

/// The movement action bound to `key`, if any.
pub open spec fn action_of(key: Key) -> Option<BTKey> {
    match key {
        Key::W => Some(BTKey::W),
        Key::S => Some(BTKey::S),
        Key::Left => Some(BTKey::LFT),
        Key::Right => Some(BTKey::RGT),
        Key::Up => Some(BTKey::UP),
        Key::Down => Some(BTKey::DWN),
        _ => None,
    }
}

/// A close request or Escape (pressed or released) asks to exit; a resize
/// marks the surface dirty; a bound key is pressed or released; anything else
/// is ignored.
pub open spec fn effect_of(ev: InputEvent) -> InputEffect {
    match ev {
        InputEvent::CloseRequested => InputEffect::RequestExit,
        InputEvent::Resized => InputEffect::MarkSurfaceDirty,
        InputEvent::Keyboard { key, pressed } => {
            if key == Key::Escape {
                InputEffect::RequestExit
            } else {
                match action_of(key) {
                    Some(a) => if pressed {
                        InputEffect::Press(a)
                    } else {
                        InputEffect::Release(a)
                    },
                    None => InputEffect::Ignore,
                }
            }
        },
        InputEvent::Other => InputEffect::Ignore,
    }
}

pub fn classify(ev: &InputEvent) -> (r: InputEffect)
    ensures
        r == effect_of(*ev),
{
    match ev {
        InputEvent::CloseRequested => InputEffect::RequestExit,
        InputEvent::Resized => InputEffect::MarkSurfaceDirty,
        InputEvent::Keyboard { key, pressed } => {
            let action = match key {
                Key::W => BTKey::W,
                Key::S => BTKey::S,
                Key::Left => BTKey::LFT,
                Key::Right => BTKey::RGT,
                Key::Up => BTKey::UP,
                Key::Down => BTKey::DWN,
                Key::Escape => {
                    return InputEffect::RequestExit;
                },
                Key::Other => {
                    return InputEffect::Ignore;
                },
            };
            if *pressed {
                InputEffect::Press(action)
            } else {
                InputEffect::Release(action)
            }
        },
        InputEvent::Other => InputEffect::Ignore,
    }
}

/// The held keys after a run of presses (`true`) and releases (`false`).
pub open spec fn held_after(start: Set<BTKey>, events: Seq<(BTKey, bool)>) -> Set<BTKey>
    decreases events.len(),
{
    if events.len() == 0 {
        start
    } else {
        let before = held_after(start, events.drop_last());
        let (k, pressed) = events.last();
        if pressed {
            before.insert(k)
        } else {
            before.remove(k)
        }
    }
}

/// Whether the last event for `key` in `events` is a press (false if none is).
pub open spec fn last_is_press(events: Seq<(BTKey, bool)>, key: BTKey) -> bool
    decreases events.len(),
{
    if events.len() == 0 {
        false
    } else if events.last().0 == key {
        events.last().1
    } else {
        last_is_press(events.drop_last(), key)
    }
}

/// From no key held, after any run of presses and releases applied with
/// `add` and `rm`, a key is held exactly when its last event was a press: a
/// repeated press keeps it held, a release without a press leaves it clear.
pub proof fn lemma_held_iff_last_press(events: Seq<(BTKey, bool)>, key: BTKey)
    ensures
        held_after(Set::empty(), events).contains(key) == last_is_press(events, key),
    decreases events.len(),
{
    if events.len() > 0 {
        lemma_held_iff_last_press(events.drop_last(), key);
    }
}

} // verus!

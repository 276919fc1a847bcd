//! The per-key automaton that tracks presses and releases inside one frame.

use vstd::prelude::*;

verus! {

/// The share of a frame for which a key counts as pressed.
#[derive(Clone, Copy, Debug, PartialEq, Eq, Structural)]
pub enum Multiplier {
    /// The whole frame.
    Full,
    /// Half of the frame.
    Half,
    /// Three quarters of the frame.
    ThreeQuarters,
}

impl Multiplier {
    /// The multiplier as a number of quarters.
    pub open spec fn spec_quarters(self) -> nat {
        match self {
            Multiplier::Full => 4,
            Multiplier::Half => 2,
            Multiplier::ThreeQuarters => 3,
        }
    }

    /// The multiplier as a number of quarters: 4, 2 or 3.
    pub fn quarters(self) -> (q: u8)
        ensures
            q == self.spec_quarters(),
    {
        match self {
            Multiplier::Full => 4,
            Multiplier::Half => 2,
            Multiplier::ThreeQuarters => 3,
        }
    }
}

/// The state of one movement key.
///
/// A key is down or up, and it remembers two impulses until they are cleared:
/// that it went down, and that it went up.
#[derive(Clone, Copy, Debug, PartialEq, Eq, Structural)]
pub enum Key {
    /// Up, and no impulse.
    Released,
    /// Down, and no impulse.
    Held,
    /// Down; it went down since the impulses were cleared.
    Pressed,
    /// Up; it went up since the impulses were cleared.
    Lifted,
    /// Down; it went up and down again since the impulses were cleared.
    Repressed,
}

impl Key {
    /// Whether the key is down.
    pub open spec fn spec_is_down(self) -> bool {
        self is Held || self is Pressed || self is Repressed
    }

    /// Whether the key went down since the impulses were cleared.
    pub open spec fn went_down(self) -> bool {
        self is Pressed || self is Repressed
    }

    /// Whether the key went up since the impulses were cleared.
    pub open spec fn went_up(self) -> bool {
        self is Lifted || self is Repressed
    }

    /// The state after the key goes down.
    pub open spec fn spec_down(self) -> Key {
        if self.went_up() {
            Key::Repressed
        } else {
            Key::Pressed
        }
    }

    /// The state after the key goes up.
    pub open spec fn spec_up(self) -> Key {
        Key::Lifted
    }

    /// The state after the key is seen down or up.
    pub open spec fn spec_update(self, down: bool) -> Key {
        if down && !self.spec_is_down() {
            self.spec_down()
        } else if !down && self.spec_is_down() {
            self.spec_up()
        } else {
            self
        }
    }

    /// The state without its impulses.
    pub open spec fn spec_clear_impulses(self) -> Key {
        if self.spec_is_down() {
            Key::Held
        } else {
            Key::Released
        }
    }

    /// The multiplier that the state stands for.
    pub open spec fn spec_multiplier(self) -> Multiplier {
        if !self.went_down() {
            Multiplier::Full
        } else if self.went_up() {
            Multiplier::ThreeQuarters
        } else {
            Multiplier::Half
        }
    }

    /// The key goes down: it is down afterwards and remembers that it went
    /// down. An impulse from going up stays.
    pub fn down(&mut self)
        ensures
            *final(self) == old(self).spec_down(),
            final(self).spec_is_down(),
            final(self).went_down(),
            final(self).went_up() == old(self).went_up(),
    {
        *self = match *self {
            Key::Lifted | Key::Repressed => Key::Repressed,
            _ => Key::Pressed,
        };
    }

    /// The key goes up: it is up afterwards and remembers only that it went up.
    pub fn up(&mut self)
        ensures
            *final(self) == old(self).spec_up(),
            !final(self).spec_is_down(),
            !final(self).went_down(),
            final(self).went_up(),
    {
        *self = Key::Lifted;
    }

    /// Whether the key is down.
    #[verifier::when_used_as_spec(spec_is_down)]
    pub fn is_down(self) -> (down: bool)
        ensures
            down == self.spec_is_down(),
    {
        match self {
            Key::Held | Key::Pressed | Key::Repressed => true,
            _ => false,
        }
    }

    /// Tells the key whether it is down now. A change of state is a press or a
    /// release; without a change nothing happens.
    pub fn update(&mut self, down: bool)
        ensures
            *final(self) == old(self).spec_update(down),
            final(self).spec_is_down() == down,
            down == old(self).spec_is_down() ==> *final(self) == *old(self),
    {
        if down && !self.is_down() {
            self.down();
        } else if !down && self.is_down() {
            self.up();
        }
    }

    /// Forgets the impulses and keeps whether the key is down.
    pub fn clear_impulses(&mut self)
        ensures
            *final(self) == old(self).spec_clear_impulses(),
            final(self).spec_is_down() == old(self).spec_is_down(),
            !final(self).went_down(),
            !final(self).went_up(),
    {
        *self = if self.is_down() {
            Key::Held
        } else {
            Key::Released
        };
    }

    /// The multiplier for a speed that is set while the key is in this state:
    /// full unless the key went down since the impulses were cleared, half if
    /// it went down once, three quarters if it went up and down again.
    pub fn multiplier(self) -> (m: Multiplier)
        ensures
            m == self.spec_multiplier(),
    {
        match self {
            Key::Pressed => Multiplier::Half,
            Key::Repressed => Multiplier::ThreeQuarters,
            _ => Multiplier::Full,
        }
    }
}

/// A state is one of five, told apart by whether the key is down and by its
/// two impulses. A key that went down is down, and a key that is down and
/// went up went down again.
pub proof fn lemma_key_states(key: Key)
    ensures
        key.went_down() ==> key.spec_is_down(),
        key.spec_is_down() && key.went_up() ==> key.went_down(),
        key.spec_multiplier() is Half <==> key.went_down() && !key.went_up(),
        key.spec_multiplier() is ThreeQuarters <==> key.went_down() && key.went_up(),
        key.spec_multiplier() is Full <==> !key.went_down(),
{
}

/// A key that is held from one command to the next has the full multiplier
/// in both: once its impulses are cleared, seeing it down changes nothing,
/// and it stays so command after command.
pub proof fn lemma_held_key(key: Key)
    requires
        key.spec_is_down(),
    ensures
        key.spec_clear_impulses() == Key::Held,
        Key::Held.spec_update(true) == Key::Held,
        Key::Held.spec_update(true).spec_multiplier() == Multiplier::Full,
        Key::Held.spec_update(true).spec_clear_impulses().spec_update(true).spec_multiplier()
            == Multiplier::Full,
{
}

/// A key without impulses that goes down has half the multiplier. If it
/// goes up after that, it is up with the full multiplier, and clearing the
/// impulses leaves it released.
pub proof fn lemma_pressed_key(key: Key)
    requires
        !key.spec_is_down(),
        !key.went_up(),
    ensures
        key.spec_update(true).spec_multiplier() == Multiplier::Half,
        !key.spec_update(true).spec_update(false).spec_is_down(),
        key.spec_update(true).spec_update(false).spec_multiplier() == Multiplier::Full,
        key.spec_update(true).spec_update(false).spec_clear_impulses() == Key::Released,
{
}

/// A key that goes down, up and down again before its impulses are cleared
/// has three quarters of the multiplier, whatever it was before. So has a
/// key that was down and goes up and down again.
pub proof fn lemma_repressed_key(key: Key)
    ensures
        key.spec_update(true).spec_update(false).spec_update(true).spec_multiplier()
            == Multiplier::ThreeQuarters,
        key.spec_is_down() ==> key.spec_update(false).spec_update(true).spec_multiplier()
            == Multiplier::ThreeQuarters,
{
}

/// Seeing a key twice in the same position is seeing it once, and after it
/// is seen, it is where it was seen.
pub proof fn lemma_update(key: Key, down: bool)
    ensures
        key.spec_update(down).spec_is_down() == down,
        key.spec_update(down).spec_update(down) == key.spec_update(down),
{
}

impl Default for Key {
    fn default() -> (key: Key)
        ensures
            key == Key::Released,
    {
        Key::Released
    }
}

/// The automatons of the four movement keys.
#[derive(Clone, Copy, Debug, PartialEq, Eq, Structural)]
pub struct Keys {
    pub forward: Key,
    pub back: Key,
    pub left: Key,
    pub right: Key,
}

impl Keys {
    /// The four keys without their impulses.
    pub open spec fn spec_clear_impulses(self) -> Keys {
        Keys {
            forward: self.forward.spec_clear_impulses(),
            back: self.back.spec_clear_impulses(),
            left: self.left.spec_clear_impulses(),
            right: self.right.spec_clear_impulses(),
        }
    }

    /// Whether no key holds an impulse.
    pub open spec fn settled(self) -> bool {
        self == self.spec_clear_impulses()
    }

    /// Forgets the impulses of all four keys.
    pub fn clear_impulses(&mut self)
        ensures
            *final(self) == old(self).spec_clear_impulses(),
            final(self).settled(),
    {
        self.forward.clear_impulses();
        self.back.clear_impulses();
        self.left.clear_impulses();
        self.right.clear_impulses();
    }
}

impl Default for Keys {
    fn default() -> (keys: Keys)
        ensures
            keys == (Keys {
                forward: Key::Released,
                back: Key::Released,
                left: Key::Released,
                right: Key::Released,
            }),
    {
        Keys {
            forward: Key::Released,
            back: Key::Released,
            left: Key::Released,
            right: Key::Released,
        }
    }
}

} // verus!

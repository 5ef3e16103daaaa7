use vstd::prelude::*;

verus! {

/// The state bits of an input key.
#[derive(Clone, Copy, Debug, PartialEq, Eq, Structural)]
pub struct KeyState(i32);

impl KeyState {
    /// A key is not pressed.
    pub const NONE: i32 = 0;
    /// A key is pressed.
    pub const DOWN: i32 = 1;
    /// A key has been pressed.
    pub const IMPULSE_DOWN: i32 = 2;
    /// A key has been released.
    pub const IMPULSE_UP: i32 = 4;
    /// A key is pressed or has been pressed.
    pub const ANY_DOWN: i32 = KeyState::DOWN | KeyState::IMPULSE_DOWN;

    /// The bits of this state.
    pub closed spec fn spec_bits(self) -> i32 {
        self.0
    }

    /// The state with exactly the given bits, known or not.
    pub fn from_bits_retain(bits: i32) -> (r: Self)
        ensures
            r.spec_bits() == bits,
    {
        KeyState(bits)
    }

    pub fn bits(&self) -> (r: i32)
        ensures
            r == self.spec_bits(),
    {
        self.0
    }

    /// Whether the two states share at least one bit.
    pub fn intersects(&self, other: KeyState) -> (r: bool)
        ensures
            r == (self.spec_bits() & other.spec_bits() != 0),
    {
        self.0 & other.0 != 0
    }

    /// The state with the bits of both.
    pub fn union(&self, other: KeyState) -> (r: KeyState)
        ensures
            r.spec_bits() == self.spec_bits() | other.spec_bits(),
    {
        KeyState(self.0 | other.0)
    }
}

impl Default for KeyState {
    fn default() -> (r: Self)
        ensures
            r.spec_bits() == KeyState::NONE,
    {
        KeyState(0)
    }
}

/// Whether the `state` field of a key button says that the key is pressed.
pub open spec fn state_is_down(state: i32) -> bool {
    state & KeyState::DOWN != 0
}

/// Whether the `state` field of a key button says that the key has been pressed.
pub open spec fn state_is_impulse_down(state: i32) -> bool {
    state & KeyState::IMPULSE_DOWN != 0
}

/// Whether the `state` field of a key button says that the key has been released.
pub open spec fn state_is_impulse_up(state: i32) -> bool {
    state & KeyState::IMPULSE_UP != 0
}

/// A key button of the client: the engine's key record, of which this library reads the
/// `state` field.
#[derive(Clone, Copy, Debug, PartialEq, Eq, Structural)]
pub struct KeyButton {
    state: i32,
}

impl KeyButton {
    /// The raw `state` field of the key record.
    pub closed spec fn spec_state(self) -> i32 {
        self.state
    }

    /// A key button whose record holds the given `state` field.
    pub fn from_state(state: i32) -> (r: Self)
        ensures
            r.spec_state() == state,
    {
        KeyButton { state }
    }

    fn state(&self) -> (r: KeyState)
        ensures
            r.spec_bits() == self.spec_state(),
    {
        KeyState::from_bits_retain(self.state)
    }

    pub fn is_down(&self) -> (r: bool)
        ensures
            r == state_is_down(self.spec_state()),
    {
        self.state().intersects(KeyState::from_bits_retain(KeyState::DOWN))
    }

    pub fn is_up(&self) -> (r: bool)
        ensures
            r == !state_is_down(self.spec_state()),
    {
        !self.is_down()
    }

    pub fn is_impulse_down(&self) -> (r: bool)
        ensures
            r == state_is_impulse_down(self.spec_state()),
    {
        self.state().intersects(KeyState::from_bits_retain(KeyState::IMPULSE_DOWN))
    }

    pub fn is_impulse_up(&self) -> (r: bool)
        ensures
            r == state_is_impulse_up(self.spec_state()),
    {
        self.state().intersects(KeyState::from_bits_retain(KeyState::IMPULSE_UP))
    }

    pub fn is_down_or_impulse_down(&self) -> (r: bool)
        ensures
            r == (self.spec_state() & (KeyState::DOWN | KeyState::IMPULSE_DOWN) != 0),
            r == (state_is_down(self.spec_state()) || state_is_impulse_down(self.spec_state())),
    {
        let both = KeyState::from_bits_retain(KeyState::DOWN).union(
            KeyState::from_bits_retain(KeyState::IMPULSE_DOWN),
        );
        let r = self.state().intersects(both);
        proof {
            lemma_any_down_bits(self.spec_state());
        }
        r
    }
}

/// A state has a bit of `ANY_DOWN` exactly when it is pressed or has been pressed.
pub proof fn lemma_any_down_bits(state: i32)
    ensures
        (state & (KeyState::DOWN | KeyState::IMPULSE_DOWN) != 0) <==> (state_is_down(state)
            || state_is_impulse_down(state)),
{
    assert(1i32 | 2i32 == 3i32) by (bit_vector);
    assert((state & 3i32 != 0) <==> (state & 1i32 != 0 || state & 2i32 != 0)) by (bit_vector);
}

/// `ANY_DOWN` is the union of `DOWN` and `IMPULSE_DOWN`; a key is up exactly when it is not
/// down; and "down or impulse down" holds exactly when one of the two holds.
pub proof fn law_key_state(state: i32)
    ensures
        KeyState::ANY_DOWN == KeyState::DOWN | KeyState::IMPULSE_DOWN,
        (state & KeyState::ANY_DOWN != 0) <==> (state_is_down(state) || state_is_impulse_down(state)),
        !state_is_down(KeyState::NONE) && !state_is_impulse_down(KeyState::NONE)
            && !state_is_impulse_up(KeyState::NONE),
{
    lemma_any_down_bits(state);
    assert(0i32 & 1i32 == 0 && 0i32 & 2i32 == 0 && 0i32 & 4i32 == 0) by (bit_vector);
}

/// A key is pressed when bit 0 of its state is set, has been pressed when bit 1 is, and
/// has been released when bit 2 is; no other bit counts.
pub proof fn law_key_state_bits(state: i32)
    ensures
        state_is_down(state) <==> state & 1 != 0,
        state_is_impulse_down(state) <==> state & 2 != 0,
        state_is_impulse_up(state) <==> state & 4 != 0,
        KeyState::NONE == 0 && KeyState::ANY_DOWN == 3,
{
    assert(1i32 | 2i32 == 3i32) by (bit_vector);
}

} // verus!

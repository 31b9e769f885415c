//! The click message: which button changed and whether it is now down.
//! Its argument byte holds the button in bit 1 and the state in bit 0.

use vstd::prelude::*;

use super::{IntoBytes, MOUSE_CLICK};

verus! {

/// A mouse button that the protocol can report.
#[derive(Debug, Copy, Clone, PartialEq, Eq, Structural)]
pub enum MouseButton {
    Left,
    Right,
}

/// Whether a button went down or came up.
#[derive(Debug, Copy, Clone, PartialEq, Eq, Structural)]
pub enum MouseState {
    Released,
    Pressed,
}

/// The bit that stands for a button on the wire: 0 for left, 1 for right.
pub open spec fn button_bit(b: MouseButton) -> u8 {
    match b {
        MouseButton::Left => 0,
        MouseButton::Right => 1,
    }
}

/// The bit that stands for a state on the wire: 0 for released, 1 for pressed.
pub open spec fn state_bit(s: MouseState) -> u8 {
    match s {
        MouseState::Released => 0,
        MouseState::Pressed => 1,
    }
}

/// The button that bit 1 of an argument byte names.
pub open spec fn button_of_byte(b: u8) -> MouseButton {
    if (b / 2) % 2 == 0 {
        MouseButton::Left
    } else {
        MouseButton::Right
    }
}

/// The state that bit 0 of an argument byte names.
pub open spec fn state_of_byte(b: u8) -> MouseState {
    if b % 2 == 0 {
        MouseState::Released
    } else {
        MouseState::Pressed
    }
}

impl From<MouseButton> for u8 {
    fn from(value: MouseButton) -> (r: u8) {
        match value {
            MouseButton::Left => 0,
            MouseButton::Right => 1,
        }
    }
}

impl vstd::std_specs::convert::FromSpecImpl<MouseButton> for u8 {
    open spec fn obeys_from_spec() -> bool {
        true
    }

    open spec fn from_spec(v: MouseButton) -> u8 {
        button_bit(v)
    }
}

impl From<MouseState> for u8 {
    fn from(value: MouseState) -> (r: u8) {
        match value {
            MouseState::Released => 0,
            MouseState::Pressed => 1,
        }
    }
}

impl vstd::std_specs::convert::FromSpecImpl<MouseState> for u8 {
    open spec fn obeys_from_spec() -> bool {
        true
    }

    open spec fn from_spec(v: MouseState) -> u8 {
        state_bit(v)
    }
}

impl MouseButton {
    /// The button whose wire bit is `value`; any value but 0 and 1 is refused
    /// with the message "Invalid u8".
    pub fn try_from(value: u8) -> (r: Result<MouseButton, String>)
        ensures
            r is Ok <==> value <= 1,
            r matches Ok(b) ==> button_bit(b) == value,
            r matches Err(e) ==> e@ == "Invalid u8"@,
    {
        match value {
            0 => Ok(MouseButton::Left),
            1 => Ok(MouseButton::Right),
            _ => Err("Invalid u8".to_owned()),
        }
    }
}

impl MouseState {
    /// The state whose wire bit is `value`; any value but 0 and 1 is refused
    /// with the message "Invalid u8".
    pub fn try_from(value: u8) -> (r: Result<MouseState, String>)
        ensures
            r is Ok <==> value <= 1,
            r matches Ok(s) ==> state_bit(s) == value,
            r matches Err(e) ==> e@ == "Invalid u8"@,
    {
        match value {
            0 => Ok(MouseState::Released),
            1 => Ok(MouseState::Pressed),
            _ => Err("Invalid u8".to_owned()),
        }
    }
}

/// A button that went down or came up.
#[derive(Debug, Copy, Clone, PartialEq, Eq, Structural)]
pub struct MouseClick {
    pub button: MouseButton,
    pub state: MouseState,
}

impl IntoBytes for MouseClick {
    open spec fn spec_into_bytes(self) -> Seq<u8> {
        seq![MOUSE_CLICK, (button_bit(self.button) * 2 + state_bit(self.state)) as u8]
    }

    open spec fn from_bytes_requires(bytes: Seq<u8>) -> bool {
        bytes.len() >= 1
    }

    open spec fn spec_from_bytes(bytes: Seq<u8>) -> Self {
        MouseClick { button: button_of_byte(bytes[0]), state: state_of_byte(bytes[0]) }
    }

    fn into_bytes(self) -> (r: Vec<u8>) {
        let mut arg: u8 = 0x00;
        let button = u8::from(self.button);
        let state = u8::from(self.state);
        arg |= button;
        arg <<= 1;
        arg |= state;
        assert(arg == button * 2 + state) by (bit_vector)
            requires
                button <= 1,
                state <= 1,
                arg == ((0u8 | button) << 1u8) | state,
        ;
        let mut buf: Vec<u8> = Vec::new();
        buf.push(MOUSE_CLICK);
        buf.push(arg);
        assert(buf@ =~= self.spec_into_bytes());
        buf
    }

    fn from_bytes(bytes: &[u8]) -> (r: Self) {
        let b = bytes[0];
        let button_bit = (b >> 1) & 1;
        let state_bit = b & 1;
        assert(button_bit == (b / 2) % 2 && state_bit == b % 2) by (bit_vector)
            requires
                button_bit == (b >> 1u8) & 1u8,
                state_bit == b & 1u8,
        ;
        let button = MouseButton::try_from(button_bit).unwrap();
        let state = MouseState::try_from(state_bit).unwrap();
        Self { button, state }
    }
}

/// A button or state turned into its wire bit and back is the same button
/// or state: the bit is 0 or 1, and no two buttons (or states) share one.
pub proof fn lemma_bits_roundtrip(b: MouseButton, other_b: MouseButton, s: MouseState, other_s: MouseState)
    ensures
        button_bit(b) <= 1,
        state_bit(s) <= 1,
        button_bit(other_b) == button_bit(b) ==> other_b == b,
        state_bit(other_s) == state_bit(s) ==> other_s == s,
        button_of_byte((button_bit(b) * 2) as u8) == b,
        state_of_byte(state_bit(s)) == s,
{
}

} // verus!

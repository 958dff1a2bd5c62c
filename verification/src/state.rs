//! The three two-valued states that a tablet tool event can carry, and how each
//! is decoded from the code that the device library reports for it.

use vstd::prelude::*;

verus! {

/// Code the device library reports for a tool that has left the tablet's range.
pub const PROXIMITY_STATE_OUT: u32 = 0;

/// Code the device library reports for a tool that has come into the tablet's range.
pub const PROXIMITY_STATE_IN: u32 = 1;

/// Code the device library reports for a tip that is lifted off the surface.
pub const TIP_UP: u32 = 0;

/// Code the device library reports for a tip that touches the surface.
pub const TIP_DOWN: u32 = 1;

/// Code the device library reports for a button that is not held down.
pub const BUTTON_STATE_RELEASED: u32 = 0;

/// Code the device library reports for a button that is held down.
pub const BUTTON_STATE_PRESSED: u32 = 1;

/// Whether the tool is within detectable distance of the tablet.
#[derive(Debug, Clone, Copy, PartialEq, Eq, Hash, Structural)]
pub enum ProximityState {
    /// The tool has left the range of the tablet.
    Out,
    /// The tool has come into range of the tablet.
    In,
}

impl ProximityState {
    /// The state that a code stands for, `None` for a code outside the two known ones.
    pub open spec fn spec_from_code(code: u32) -> Option<ProximityState> {
        if code == PROXIMITY_STATE_OUT {
            Some(ProximityState::Out)
        } else if code == PROXIMITY_STATE_IN {
            Some(ProximityState::In)
        } else {
            None
        }
    }

    /// The code that stands for a state.
    pub open spec fn spec_code(self) -> u32 {
        match self {
            ProximityState::Out => PROXIMITY_STATE_OUT,
            ProximityState::In => PROXIMITY_STATE_IN,
        }
    }

    /// Decodes a proximity code: `Out` for 0, `In` for 1, nothing for any other code.
    #[verifier::when_used_as_spec(spec_from_code)]
    pub fn from_code(code: u32) -> (state: Option<ProximityState>)
        ensures
            state == Self::spec_from_code(code),
    {
        if code == PROXIMITY_STATE_OUT {
            Some(ProximityState::Out)
        } else if code == PROXIMITY_STATE_IN {
            Some(ProximityState::In)
        } else {
            None
        }
    }

    /// The code the device library uses for this state.
    #[verifier::when_used_as_spec(spec_code)]
    pub fn code(self) -> (code: u32)
        ensures
            code == self.spec_code(),
    {
        match self {
            ProximityState::Out => PROXIMITY_STATE_OUT,
            ProximityState::In => PROXIMITY_STATE_IN,
        }
    }
}

/// Whether the tip of the tool touches the surface of the tablet.
#[derive(Debug, Clone, Copy, PartialEq, Eq, Hash, Structural)]
pub enum TipState {
    /// The tip is lifted off the surface.
    Up,
    /// The tip touches the surface.
    Down,
}

impl TipState {
    /// The state that a code stands for, `None` for a code outside the two known ones.
    pub open spec fn spec_from_code(code: u32) -> Option<TipState> {
        if code == TIP_UP {
            Some(TipState::Up)
        } else if code == TIP_DOWN {
            Some(TipState::Down)
        } else {
            None
        }
    }

    /// The code that stands for a state.
    pub open spec fn spec_code(self) -> u32 {
        match self {
            TipState::Up => TIP_UP,
            TipState::Down => TIP_DOWN,
        }
    }

    /// Decodes a tip code: `Up` for 0, `Down` for 1, nothing for any other code.
    #[verifier::when_used_as_spec(spec_from_code)]
    pub fn from_code(code: u32) -> (state: Option<TipState>)
        ensures
            state == Self::spec_from_code(code),
    {
        if code == TIP_UP {
            Some(TipState::Up)
        } else if code == TIP_DOWN {
            Some(TipState::Down)
        } else {
            None
        }
    }

    /// The code the device library uses for this state.
    #[verifier::when_used_as_spec(spec_code)]
    pub fn code(self) -> (code: u32)
        ensures
            code == self.spec_code(),
    {
        match self {
            TipState::Up => TIP_UP,
            TipState::Down => TIP_DOWN,
        }
    }
}

/// Whether a button is held down. The same two states describe the buttons of
/// every kind of device, not only those of a tablet tool.
#[derive(Debug, Clone, Copy, PartialEq, Eq, Hash, Structural)]
pub enum ButtonState {
    /// The button is held down.
    Pressed,
    /// The button is not held down.
    Released,
}

impl ButtonState {
    /// The state that a code stands for, `None` for a code outside the two known ones.
    pub open spec fn spec_from_code(code: u32) -> Option<ButtonState> {
        if code == BUTTON_STATE_PRESSED {
            Some(ButtonState::Pressed)
        } else if code == BUTTON_STATE_RELEASED {
            Some(ButtonState::Released)
        } else {
            None
        }
    }

    /// The code that stands for a state.
    pub open spec fn spec_code(self) -> u32 {
        match self {
            ButtonState::Pressed => BUTTON_STATE_PRESSED,
            ButtonState::Released => BUTTON_STATE_RELEASED,
        }
    }

    /// Decodes a button code: `Released` for 0, `Pressed` for 1, nothing for any other code.
    #[verifier::when_used_as_spec(spec_from_code)]
    pub fn from_code(code: u32) -> (state: Option<ButtonState>)
        ensures
            state == Self::spec_from_code(code),
    {
        if code == BUTTON_STATE_PRESSED {
            Some(ButtonState::Pressed)
        } else if code == BUTTON_STATE_RELEASED {
            Some(ButtonState::Released)
        } else {
            None
        }
    }

    /// The code the device library uses for this state.
    #[verifier::when_used_as_spec(spec_code)]
    pub fn code(self) -> (code: u32)
        ensures
            code == self.spec_code(),
    {
        match self {
            ButtonState::Pressed => BUTTON_STATE_PRESSED,
            ButtonState::Released => BUTTON_STATE_RELEASED,
        }
    }
}

/// Decoding a proximity code is a bijection between the codes {0, 1} and the
/// states {`Out`, `In`}: encoding and decoding undo each other, and no code
/// outside the two decodes to a state.
pub proof fn lemma_proximity_decoding_is_bijective(code: u32, state: ProximityState)
    ensures
        ProximityState::spec_from_code(state.spec_code()) == Some(state),
        ProximityState::spec_from_code(code) == Some(state) <==> code == state.spec_code(),
        ProximityState::spec_from_code(code) is Some <==> (code == PROXIMITY_STATE_OUT || code
            == PROXIMITY_STATE_IN),
        ProximityState::spec_from_code(PROXIMITY_STATE_OUT) == Some(ProximityState::Out),
        ProximityState::spec_from_code(PROXIMITY_STATE_IN) == Some(ProximityState::In),
{
}

/// Decoding a tip code is a bijection between the codes {0, 1} and the states
/// {`Up`, `Down`}: encoding and decoding undo each other, and no code outside
/// the two decodes to a state.
pub proof fn lemma_tip_decoding_is_bijective(code: u32, state: TipState)
    ensures
        TipState::spec_from_code(state.spec_code()) == Some(state),
        TipState::spec_from_code(code) == Some(state) <==> code == state.spec_code(),
        TipState::spec_from_code(code) is Some <==> (code == TIP_UP || code == TIP_DOWN),
        TipState::spec_from_code(TIP_UP) == Some(TipState::Up),
        TipState::spec_from_code(TIP_DOWN) == Some(TipState::Down),
{
}

/// Decoding a button code is a bijection between the codes {0, 1} and the
/// states {`Released`, `Pressed`}: encoding and decoding undo each other, and
/// no code outside the two decodes to a state.
pub proof fn lemma_button_decoding_is_bijective(code: u32, state: ButtonState)
    ensures
        ButtonState::spec_from_code(state.spec_code()) == Some(state),
        ButtonState::spec_from_code(code) == Some(state) <==> code == state.spec_code(),
        ButtonState::spec_from_code(code) is Some <==> (code == BUTTON_STATE_RELEASED || code
            == BUTTON_STATE_PRESSED),
        ButtonState::spec_from_code(BUTTON_STATE_PRESSED) == Some(ButtonState::Pressed),
        ButtonState::spec_from_code(BUTTON_STATE_RELEASED) == Some(ButtonState::Released),
{
}

} // verus!

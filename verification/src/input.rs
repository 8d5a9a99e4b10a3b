//! Controller state tracking: decoding sampled pin words into button
//! states, with edge detection against the previous frame.
//!
//! Sampling the controller ports is timing-sensitive I/O done by the
//! executor; it hands the raw pin words of one update round to `update`.

use vstd::prelude::*;

verus! {

/// One of the twelve buttons a 6-button pad can report; 3-button pads
/// report only the first eight.
#[derive(Copy, Clone, Debug, PartialEq, Eq, Structural)]
pub enum Button {
    Up,
    Down,
    Left,
    Right,
    B,
    C,
    A,
    Start,
    Z,
    Y,
    X,
    Mode,
}

impl Button {
    /// The bit position of this button in a button mask.
    pub open spec fn spec_index(self) -> u8 {
        match self {
            Button::Up => 0,
            Button::Down => 1,
            Button::Left => 2,
            Button::Right => 3,
            Button::B => 4,
            Button::C => 5,
            Button::A => 6,
            Button::Start => 7,
            Button::Z => 8,
            Button::Y => 9,
            Button::X => 10,
            Button::Mode => 11,
        }
    }

    /// The bit position of this button in a button mask.
    #[verifier::when_used_as_spec(spec_index)]
    pub fn index(self) -> (r: u8)
        ensures
            r == self.spec_index(),
            r <= 11,
    {
        match self {
            Button::Up => 0,
            Button::Down => 1,
            Button::Left => 2,
            Button::Right => 3,
            Button::B => 4,
            Button::C => 5,
            Button::A => 6,
            Button::Start => 7,
            Button::Z => 8,
            Button::Y => 9,
            Button::X => 10,
            Button::Mode => 11,
        }
    }
}

/// The button mask decoded from one controller's sampled pin words: the
/// low six buttons, the two buttons read on the second half-sample, and,
/// on a 6-button pad, the four extended buttons.
pub open spec fn buttons_from(pins: u16, ext1: u16) -> u16 {
    let base = (!pins & 0x3f) | ((!pins >> 6) & 0xc0);
    if is_6button_from(ext1) {
        base | ((!ext1 & 0xf) << 8)
    } else {
        base
    }
}

/// Whether the sampled pin word shows a controller present on the port.
pub open spec fn connected_from(pins: u16) -> bool {
    pins & 0xc00 == 0
}

/// Whether the third sample round identifies a 6-button controller.
pub open spec fn is_6button_from(ext1: u16) -> bool {
    ext1 & 0xf00 == 0xf00
}

/// ControllerState represents the last-read state of the controller.
#[derive(Copy, Clone, Debug, PartialEq, Eq, Structural)]
pub struct ControllerState {
    buttons: u16,
    last_buttons: u16,
    is_6button: bool,
}

impl ControllerState {
    /// The mask of buttons seen down at the last update.
    pub closed spec fn spec_buttons(self) -> u16 {
        self.buttons
    }

    /// The mask of buttons seen down at the update before that.
    pub closed spec fn spec_last_buttons(self) -> u16 {
        self.last_buttons
    }

    /// Whether the pad identified as 6-button at the last update.
    pub closed spec fn spec_is_6button(self) -> bool {
        self.is_6button
    }

    /// Returns true if this is a 6-button controller.
    pub fn is_6button(&self) -> (r: bool)
        ensures
            r == self.spec_is_6button(),
    {
        self.is_6button
    }

    /// Return the mask of buttons which are currently down.
    pub fn down_raw(&self) -> (r: u16)
        ensures
            r == self.spec_buttons(),
    {
        self.buttons
    }

    /// Return the bitmask of buttons which have been pressed down since
    /// last frame.
    pub fn pressed_raw(&self) -> (r: u16)
        ensures
            r == self.spec_buttons() & !self.spec_last_buttons(),
    {
        self.buttons & !self.last_buttons
    }

    /// Returns true if a given button is down.
    pub fn down(&self, btn: Button) -> (r: bool)
        ensures
            r == (self.spec_buttons() & (1u16 << btn.spec_index()) != 0),
    {
        (self.down_raw() & (1u16 << btn.index())) != 0
    }

    /// Returns true if a given button was pressed this frame: down now and
    /// not down at the previous update.
    pub fn pressed(&self, btn: Button) -> (r: bool)
        ensures
            r == (self.spec_buttons() & !self.spec_last_buttons() & (1u16 << btn.spec_index())
                != 0),
    {
        (self.pressed_raw() & (1u16 << btn.index())) != 0
    }
}

/// A high level controller manager which can interact with controllers
/// connected to the IO ports.
///
/// The controller only uses the two controller ports and not the EXT port.
pub struct Controllers {
    controllers: [Option<ControllerState>; 2],
}

impl Controllers {
    /// The two tracked controller slots.
    pub closed spec fn spec_controllers(self) -> Seq<Option<ControllerState>> {
        self.controllers@
    }

    /// Create a controller manager with both slots empty.
    ///
    /// Configuring the port pin directions is the executor's work and
    /// happens before the first sample round.
    pub fn new() -> (r: Controllers)
        ensures
            r.spec_controllers().len() == 2,
            r.spec_controllers()[0] is None,
            r.spec_controllers()[1] is None,
    {
        Controllers { controllers: [None, None] }
    }

    /// Retrieve the controller states of all controllers.
    pub fn controller_states(&self) -> (r: &[Option<ControllerState>; 2])
        ensures
            r@ == self.spec_controllers(),
    {
        &self.controllers
    }

    /// Fetch the controller state for a single controller.
    pub fn controller_state(&self, index: usize) -> (r: Option<&ControllerState>)
        requires
            index < 2,
        ensures
            match r {
                Some(c) => self.spec_controllers()[index as int] == Some(*c),
                None => self.spec_controllers()[index as int] is None,
            },
    {
        self.controllers[index].as_ref()
    }

    /// The next state of one slot: a connected pad keeps its history for
    /// edge detection, a newly seen pad starts with an empty history, and
    /// a disconnected port clears the slot.
    fn update_state(
        state: Option<ControllerState>,
        connected: bool,
        is_6button: bool,
        buttons: u16,
    ) -> (r: Option<ControllerState>)
        ensures
            !connected ==> r is None,
            connected ==> (r matches Some(c) && c.spec_buttons() == buttons
                && c.spec_is_6button() == is_6button && c.spec_last_buttons() == (
            match state {
                Some(p) => p.spec_buttons(),
                None => 0u16,
            })),
    {
        match state {
            Some(p) => {
                if connected {
                    Some(
                        ControllerState {
                            buttons,
                            last_buttons: p.buttons,
                            is_6button,
                        },
                    )
                } else {
                    None
                }
            },
            None => {
                if connected {
                    Some(ControllerState { buttons, last_buttons: 0, is_6button })
                } else {
                    None
                }
            },
        }
    }

    /// Update the state of the controllers from one sample round's pin
    /// words.
    ///
    /// This should only be called once per VBlank. Calling it too
    /// frequently can result in incorrect results.
    pub fn update(&mut self, c1_pins: u16, c2_pins: u16, c1_ext1: u16, c2_ext1: u16)
        ensures
            final(self).spec_controllers().len() == 2,
            !connected_from(c1_pins) ==> final(self).spec_controllers()[0] is None,
            connected_from(c1_pins) ==> (final(self).spec_controllers()[0] matches Some(c)
                && c.spec_buttons() == buttons_from(c1_pins, c1_ext1) && c.spec_is_6button()
                == is_6button_from(c1_ext1) && c.spec_last_buttons() == (
            match old(self).spec_controllers()[0] {
                Some(p) => p.spec_buttons(),
                None => 0u16,
            })),
            !connected_from(c2_pins) ==> final(self).spec_controllers()[1] is None,
            connected_from(c2_pins) ==> (final(self).spec_controllers()[1] matches Some(c)
                && c.spec_buttons() == buttons_from(c2_pins, c2_ext1) && c.spec_is_6button()
                == is_6button_from(c2_ext1) && c.spec_last_buttons() == (
            match old(self).spec_controllers()[1] {
                Some(p) => p.spec_buttons(),
                None => 0u16,
            })),
    {
        let c1_base = (!c1_pins & 0x3f) | ((!c1_pins >> 6) & 0xc0);
        let c2_base = (!c2_pins & 0x3f) | ((!c2_pins >> 6) & 0xc0);

        let c1_connected = (c1_pins & 0xc00) == 0;
        let c2_connected = (c2_pins & 0xc00) == 0;

        let c1_is6 = (c1_ext1 & 0xf00) == 0xf00;
        let c2_is6 = (c2_ext1 & 0xf00) == 0xf00;

        let c1_buttons = if c1_is6 {
            c1_base | ((!c1_ext1 & 0xf) << 8)
        } else {
            c1_base
        };
        let c2_buttons = if c2_is6 {
            c2_base | ((!c2_ext1 & 0xf) << 8)
        } else {
            c2_base
        };

        let s0 = Self::update_state(self.controllers[0], c1_connected, c1_is6, c1_buttons);
        let s1 = Self::update_state(self.controllers[1], c2_connected, c2_is6, c2_buttons);
        self.controllers = [s0, s1];
    }
}

} // verus!

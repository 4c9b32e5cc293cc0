//! Mouse injection on the passive side: which event flags a button action
//! carries, and how the window system's answer is read. Scaling positions
//! to the screen and handing the event over are the caller's part.

use vstd::prelude::*;

verus! {

pub const MOUSEEVENTF_MOVE: u32 = 0x0001;

pub const MOUSEEVENTF_LEFTDOWN: u32 = 0x0002;

pub const MOUSEEVENTF_LEFTUP: u32 = 0x0004;

pub const MOUSEEVENTF_RIGHTDOWN: u32 = 0x0008;

pub const MOUSEEVENTF_RIGHTUP: u32 = 0x0010;

pub const MOUSEEVENTF_MIDDLEDOWN: u32 = 0x0020;

pub const MOUSEEVENTF_MIDDLEUP: u32 = 0x0040;

pub const MOUSEEVENTF_WHEEL: u32 = 0x0800;

pub const MOUSEEVENTF_VIRTUALDESK: u32 = 0x4000;

pub const MOUSEEVENTF_ABSOLUTE: u32 = 0x8000;

/// The button an action is about.
#[derive(Clone, Copy, Debug, PartialEq, Eq, Structural)]
pub enum MouseKey {
    NoButton,
    Left,
    Right,
    Wheel,
}

/// Why a mouse action was not carried out.
#[derive(Clone, Copy, Debug, PartialEq, Eq, Structural)]
pub enum MouseError {
    /// The action needs a button and none was named.
    UnsupportedKey,
    /// The window system reported this many events for the one handed
    /// over.
    SendInputFailed(u32),
}

/// The flags of a button release: the button's "up" bit, with absolute
/// coordinates on the virtual desktop.
pub open spec fn release_flags(key: MouseKey) -> Result<u32, MouseError> {
    match key {
        MouseKey::NoButton => Err(MouseError::UnsupportedKey),
        MouseKey::Left => Ok(0xC004u32),
        MouseKey::Right => Ok(0xC010u32),
        MouseKey::Wheel => Ok(0xC040u32),
    }
}

/// The flags of a button press: the button's "down" bit, with absolute
/// coordinates on the virtual desktop.
pub open spec fn press_flags(key: MouseKey) -> Result<u32, MouseError> {
    match key {
        MouseKey::NoButton => Err(MouseError::UnsupportedKey),
        MouseKey::Left => Ok(0xC002u32),
        MouseKey::Right => Ok(0xC008u32),
        MouseKey::Wheel => Ok(0xC020u32),
    }
}

/// The flags of a move: the move bit with absolute coordinates on the
/// virtual desktop, and the "down" bit of the button held, if one is.
pub open spec fn move_flags(key: MouseKey) -> u32 {
    match key {
        MouseKey::NoButton => 0xC001u32,
        MouseKey::Left => 0xC003u32,
        MouseKey::Right => 0xC009u32,
        MouseKey::Wheel => 0xC021u32,
    }
}

/// The flags of the event that releases `key`.
pub fn mouse_up(key: MouseKey) -> (flags: Result<u32, MouseError>)
    ensures
        flags == release_flags(key),
{
    proof {
        assert(0x0004u32 | 0x8000u32 | 0x4000u32 == 0xC004u32) by (bit_vector);
        assert(0x0010u32 | 0x8000u32 | 0x4000u32 == 0xC010u32) by (bit_vector);
        assert(0x0040u32 | 0x8000u32 | 0x4000u32 == 0xC040u32) by (bit_vector);
    }
    match key {
        MouseKey::NoButton => Err(MouseError::UnsupportedKey),
        MouseKey::Left => Ok(MOUSEEVENTF_LEFTUP | MOUSEEVENTF_ABSOLUTE | MOUSEEVENTF_VIRTUALDESK),
        MouseKey::Right => Ok(
            MOUSEEVENTF_RIGHTUP | MOUSEEVENTF_ABSOLUTE | MOUSEEVENTF_VIRTUALDESK,
        ),
        MouseKey::Wheel => Ok(
            MOUSEEVENTF_MIDDLEUP | MOUSEEVENTF_ABSOLUTE | MOUSEEVENTF_VIRTUALDESK,
        ),
    }
}

/// The flags of the event that presses `key`.
pub fn mouse_down(key: MouseKey) -> (flags: Result<u32, MouseError>)
    ensures
        flags == press_flags(key),
{
    proof {
        assert(0x0002u32 | 0x8000u32 | 0x4000u32 == 0xC002u32) by (bit_vector);
        assert(0x0008u32 | 0x8000u32 | 0x4000u32 == 0xC008u32) by (bit_vector);
        assert(0x0020u32 | 0x8000u32 | 0x4000u32 == 0xC020u32) by (bit_vector);
    }
    match key {
        MouseKey::NoButton => Err(MouseError::UnsupportedKey),
        MouseKey::Left => Ok(
            MOUSEEVENTF_LEFTDOWN | MOUSEEVENTF_ABSOLUTE | MOUSEEVENTF_VIRTUALDESK,
        ),
        MouseKey::Right => Ok(
            MOUSEEVENTF_RIGHTDOWN | MOUSEEVENTF_ABSOLUTE | MOUSEEVENTF_VIRTUALDESK,
        ),
        MouseKey::Wheel => Ok(
            MOUSEEVENTF_MIDDLEDOWN | MOUSEEVENTF_ABSOLUTE | MOUSEEVENTF_VIRTUALDESK,
        ),
    }
}

/// The flags of the event that moves the pointer while `key` is held.
pub fn mouse_move(key: MouseKey) -> (flags: u32)
    ensures
        flags == move_flags(key),
{
    proof {
        assert(0x0001u32 | 0x8000u32 | 0x4000u32 == 0xC001u32) by (bit_vector);
        assert(0x0002u32 | 0x0001u32 | 0x8000u32 | 0x4000u32 == 0xC003u32) by (bit_vector);
        assert(0x0008u32 | 0x0001u32 | 0x8000u32 | 0x4000u32 == 0xC009u32) by (bit_vector);
        assert(0x0020u32 | 0x0001u32 | 0x8000u32 | 0x4000u32 == 0xC021u32) by (bit_vector);
    }
    match key {
        MouseKey::NoButton => MOUSEEVENTF_MOVE | MOUSEEVENTF_ABSOLUTE | MOUSEEVENTF_VIRTUALDESK,
        MouseKey::Left => MOUSEEVENTF_LEFTDOWN | MOUSEEVENTF_MOVE | MOUSEEVENTF_ABSOLUTE
            | MOUSEEVENTF_VIRTUALDESK,
        MouseKey::Right => MOUSEEVENTF_RIGHTDOWN | MOUSEEVENTF_MOVE | MOUSEEVENTF_ABSOLUTE
            | MOUSEEVENTF_VIRTUALDESK,
        MouseKey::Wheel => MOUSEEVENTF_MIDDLEDOWN | MOUSEEVENTF_MOVE | MOUSEEVENTF_ABSOLUTE
            | MOUSEEVENTF_VIRTUALDESK,
    }
}

/// The flags of the event that turns the wheel.
pub fn mouse_scroll_whell() -> (flags: u32)
    ensures
        flags == MOUSEEVENTF_WHEEL,
{
    MOUSEEVENTF_WHEEL
}

/// Reads the window system's answer to `requested` events handed over: the
/// call counts as done when the number it reports differs from the number
/// handed over, and as failed when the two agree.
pub fn send_input_result(reported: u32, requested: u32) -> (result: Result<(), MouseError>)
    ensures
        reported != requested ==> result == Ok::<(), MouseError>(()),
        reported == requested ==> result == Err::<(), MouseError>(
            MouseError::SendInputFailed(reported),
        ),
{
    if reported != requested {
        Ok(())
    } else {
        Err(MouseError::SendInputFailed(reported))
    }
}

} // verus!

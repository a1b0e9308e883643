use vstd::prelude::*;

verus! {

/// Bit of the A button in a gamepad's button word.
pub const GAMEPAD_A: u16 = 0x1000;

/// Bit of the B button in a gamepad's button word.
pub const GAMEPAD_B: u16 = 0x2000;

/// Bit of the X button in a gamepad's button word.
pub const GAMEPAD_X: u16 = 0x4000;

/// Bit of the Y button in a gamepad's button word.
pub const GAMEPAD_Y: u16 = 0x8000;

/// Which of the face buttons of a gamepad are down.
#[derive(Debug, Copy, Clone, PartialEq, Eq, Structural)]
pub struct XboxButtons {
    pub a: bool,
    pub x: bool,
    pub y: bool,
    pub b: bool,
}

impl Default for XboxButtons {
    fn default() -> (r: Self)
        ensures
            r == (XboxButtons { a: false, x: false, y: false, b: false }),
    {
        XboxButtons { a: false, x: false, y: false, b: false }
    }
}

impl XboxButtons {
    /// The face buttons that a gamepad's button word marks as down.
    pub fn from_button_word(word: u16) -> (r: XboxButtons)
        ensures
            r.a == (word & GAMEPAD_A != 0),
            r.x == (word & GAMEPAD_X != 0),
            r.y == (word & GAMEPAD_Y != 0),
            r.b == (word & GAMEPAD_B != 0),
    {
        XboxButtons {
            a: word & GAMEPAD_A != 0,
            x: word & GAMEPAD_X != 0,
            y: word & GAMEPAD_Y != 0,
            b: word & GAMEPAD_B != 0,
        }
    }
}

/// The buttons that are down in `next` and were up in `prev`.
pub open spec fn newly_pressed(next: XboxButtons, prev: XboxButtons) -> XboxButtons {
    XboxButtons {
        a: next.a && !prev.a,
        x: next.x && !prev.x,
        y: next.y && !prev.y,
        b: next.b && !prev.b,
    }
}

/// Given the gamepad's state just polled (`None` when it is not connected),
/// the buttons pressed since `prev`, which then becomes that state.
pub fn get_just_pressed(next: Option<XboxButtons>, prev: &mut XboxButtons) -> (r: Option<
    XboxButtons,
>)
    ensures
        match next {
            None => r is None && *final(prev) == *old(prev),
            Some(n) => r == Some(newly_pressed(n, *old(prev))) && *final(prev) == n,
        },
{
    let next = match next {
        Some(n) => n,
        None => {
            return None;
        },
    };
    let r = Some(
        XboxButtons {
            a: next.a && !prev.a,
            x: next.x && !prev.x,
            y: next.y && !prev.y,
            b: next.b && !prev.b,
        },
    );
    *prev = next;
    r
}

} // verus!

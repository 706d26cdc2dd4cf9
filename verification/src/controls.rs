//! The face buttons and the directional pad, and how each is written in the
//! controls byte.

use vstd::prelude::*;

verus! {

/// A face button.
#[derive(Clone, Copy, Debug, PartialEq, Eq, Structural)]
pub enum Button {
    Square,
    Cross,
    Circle,
    Triangle,
}

/// A direction of the directional pad.
#[derive(Clone, Copy, Debug, PartialEq, Eq, Structural)]
pub enum DPad {
    Up,
    UpRight,
    UpLeft,
    Right,
    Down,
    DownRight,
    DownLeft,
    Left,
}

impl Button {
    /// The position of the button's bit in the button nibble.
    pub open spec fn bit(self) -> nat {
        match self {
            Button::Square => 0,
            Button::Cross => 1,
            Button::Circle => 2,
            Button::Triangle => 3,
        }
    }

    /// The value of the button's bit: two to the power of `bit`.
    pub open spec fn weight(self) -> int {
        match self {
            Button::Square => 1,
            Button::Cross => 2,
            Button::Circle => 4,
            Button::Triangle => 8,
        }
    }

    /// Whether a button nibble has this button's bit set.
    pub open spec fn held_in(self, nibble: int) -> bool {
        (nibble / self.weight()) % 2 == 1
    }

    /// The button's bit as a mask on the button nibble.
    pub fn mask(self) -> (m: u8)
        ensures
            m == self.weight(),
    {
        match self {
            Button::Square => 1,
            Button::Cross => 2,
            Button::Circle => 4,
            Button::Triangle => 8,
        }
    }
}

impl DPad {
    /// The nibble that the controller sends for this direction.
    pub open spec fn code(self) -> int {
        match self {
            DPad::Up => 0,
            DPad::UpRight => 1,
            DPad::Right => 2,
            DPad::DownRight => 3,
            DPad::Down => 4,
            DPad::DownLeft => 5,
            DPad::Left => 6,
            DPad::UpLeft => 7,
        }
    }

    /// The direction that a nibble stands for; `None` where it stands for
    /// none, which is the pad at rest.
    pub open spec fn of_nibble(nibble: int) -> Option<DPad> {
        if nibble == 0 {
            Some(DPad::Up)
        } else if nibble == 1 {
            Some(DPad::UpRight)
        } else if nibble == 2 {
            Some(DPad::Right)
        } else if nibble == 3 {
            Some(DPad::DownRight)
        } else if nibble == 4 {
            Some(DPad::Down)
        } else if nibble == 5 {
            Some(DPad::DownLeft)
        } else if nibble == 6 {
            Some(DPad::Left)
        } else if nibble == 7 {
            Some(DPad::UpLeft)
        } else {
            None
        }
    }

    /// The nibble that the controller sends for this direction.
    pub fn nibble(self) -> (n: u8)
        ensures
            n == self.code(),
    {
        match self {
            DPad::Up => 0b0000,
            DPad::UpRight => 0b0001,
            DPad::Right => 0b0010,
            DPad::DownRight => 0b0011,
            DPad::Down => 0b0100,
            DPad::DownLeft => 0b0101,
            DPad::Left => 0b0110,
            DPad::UpLeft => 0b0111,
        }
    }

    /// Reads a direction from a nibble. Every nibble outside the table,
    /// eight first of all, means that no direction is held.
    pub fn from_nibble(nibble: u8) -> (dpad: Option<DPad>)
        ensures
            dpad == DPad::of_nibble(nibble as int),
    {
        match nibble {
            0b0000 => Some(DPad::Up),
            0b0001 => Some(DPad::UpRight),
            0b0010 => Some(DPad::Right),
            0b0011 => Some(DPad::DownRight),
            0b0100 => Some(DPad::Down),
            0b0101 => Some(DPad::DownLeft),
            0b0110 => Some(DPad::Left),
            0b0111 => Some(DPad::UpLeft),
            _ => None,
        }
    }
}

} // verus!

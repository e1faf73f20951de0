use vstd::prelude::*;

verus! {

/// Width of the touchpad: decoded `x` coordinates are below this.
pub const TOUCHPAD_MAX_X: u16 = 1920;

/// Height of the touchpad: decoded `y` coordinates are below this.
pub const TOUCHPAD_MAX_Y: u16 = 1080;

pub const DPAD_N: u8 = 0;

pub const DPAD_NE: u8 = 1;

pub const DPAD_E: u8 = 2;

pub const DPAD_SE: u8 = 3;

pub const DPAD_S: u8 = 4;

pub const DPAD_SW: u8 = 5;

pub const DPAD_W: u8 = 6;

pub const DPAD_NW: u8 = 7;

pub const DPAD_NEUTRAL: u8 = 8;

pub const BTN_SQUARE: u32 = 0x0001;

pub const BTN_CROSS: u32 = 0x0002;

pub const BTN_CIRCLE: u32 = 0x0004;

pub const BTN_TRIANGLE: u32 = 0x0008;

pub const BTN_L1: u32 = 0x0010;

pub const BTN_R1: u32 = 0x0020;

pub const BTN_L2: u32 = 0x0040;

pub const BTN_R2: u32 = 0x0080;

pub const BTN_CREATE: u32 = 0x0100;

pub const BTN_OPTIONS: u32 = 0x0200;

pub const BTN_L3: u32 = 0x0400;

pub const BTN_R3: u32 = 0x0800;

pub const BTN_PS: u32 = 0x1000;

pub const BTN_TOUCHPAD: u32 = 0x2000;

pub const BTN_MUTE: u32 = 0x4000;

/// Every bit that stands for a button in a button mask.
pub const BTN_ALL: u32 = 0x7fff;

/// One contact on the touchpad.
#[derive(Clone, Copy, Debug, PartialEq, Eq, Structural)]
pub struct TouchPoint {
    pub active: bool,
    pub id: u8,
    pub x: u16,
    pub y: u16,
}

impl TouchPoint {
    /// The point of a finger that is not on the pad.
    pub open spec fn spec_default() -> TouchPoint {
        TouchPoint { active: false, id: 0, x: 0, y: 0 }
    }

    /// A point is well formed when it lies on the pad and its id has seven bits.
    pub open spec fn wf(self) -> bool {
        &&& self.id < 0x80
        &&& self.x < TOUCHPAD_MAX_X
        &&& self.y < TOUCHPAD_MAX_Y
    }
}

impl Default for TouchPoint {
    fn default() -> (p: TouchPoint)
        ensures
            p == TouchPoint::spec_default(),
    {
        TouchPoint { active: false, id: 0, x: 0, y: 0 }
    }
}

/// The decoded content of one input report.
#[derive(Clone, Copy, Debug, PartialEq, Eq)]
pub struct ControllerState {
    pub left_x: u8,
    pub left_y: u8,
    pub right_x: u8,
    pub right_y: u8,
    pub l2: u8,
    pub r2: u8,
    pub buttons: u32,
    pub dpad: u8,
    pub gyro: [i16; 3],
    pub accel: [i16; 3],
    pub sensor_timestamp: u32,
    pub touch_count: u8,
    pub touch_points: [TouchPoint; 2],
}

/// The closed set of inputs that can be remapped or disabled.
#[derive(Clone, Copy, Debug, PartialEq, Eq, Hash, Structural)]
pub enum Button {
    Square,
    Cross,
    Circle,
    Triangle,
    L1,
    R1,
    L2,
    R2,
    Create,
    Options,
    L3,
    R3,
    PS,
    Touchpad,
    Mute,
    DPadUp,
    DPadRight,
    DPadDown,
    DPadLeft,
}

impl Button {
    /// The bit of this button in a button mask; the four directions of the
    /// d-pad have none, they travel in the d-pad code.
    pub open spec fn spec_bitmask(self) -> Option<u32> {
        match self {
            Button::Square => Some(BTN_SQUARE),
            Button::Cross => Some(BTN_CROSS),
            Button::Circle => Some(BTN_CIRCLE),
            Button::Triangle => Some(BTN_TRIANGLE),
            Button::L1 => Some(BTN_L1),
            Button::R1 => Some(BTN_R1),
            Button::L2 => Some(BTN_L2),
            Button::R2 => Some(BTN_R2),
            Button::Create => Some(BTN_CREATE),
            Button::Options => Some(BTN_OPTIONS),
            Button::L3 => Some(BTN_L3),
            Button::R3 => Some(BTN_R3),
            Button::PS => Some(BTN_PS),
            Button::Touchpad => Some(BTN_TOUCHPAD),
            Button::Mute => Some(BTN_MUTE),
            Button::DPadUp | Button::DPadRight | Button::DPadDown | Button::DPadLeft => None,
        }
    }

    pub fn to_bitmask(&self) -> (mask: Option<u32>)
        ensures
            mask == self.spec_bitmask(),
    {
        match self {
            Button::Square => Some(BTN_SQUARE),
            Button::Cross => Some(BTN_CROSS),
            Button::Circle => Some(BTN_CIRCLE),
            Button::Triangle => Some(BTN_TRIANGLE),
            Button::L1 => Some(BTN_L1),
            Button::R1 => Some(BTN_R1),
            Button::L2 => Some(BTN_L2),
            Button::R2 => Some(BTN_R2),
            Button::L3 => Some(BTN_L3),
            Button::R3 => Some(BTN_R3),
            Button::PS => Some(BTN_PS),
            Button::Create => Some(BTN_CREATE),
            Button::Options => Some(BTN_OPTIONS),
            Button::Touchpad => Some(BTN_TOUCHPAD),
            Button::Mute => Some(BTN_MUTE),
            Button::DPadUp | Button::DPadDown | Button::DPadLeft | Button::DPadRight => None,
        }
    }
}

} // verus!

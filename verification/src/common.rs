use vstd::prelude::*;

verus! {

/// USB vendor id of Sony.
pub const DS_VID: u16 = 0x054c;

/// Product id of the DualSense.
pub const DS_PID: u16 = 0x0ce6;

/// Product id of the DualSense Edge.
pub const DSE_PID: u16 = 0x0df2;

/// Length in bytes of a firmware image.
pub const FIRMWARE_SIZE: usize = 950272;

/// Effect of an adaptive trigger.
#[derive(Clone, Copy, Debug, PartialEq, Eq, Structural)]
pub enum TriggerMode {
    Off,
    Feedback,
    Weapon,
    Bow,
    Galloping,
    Vibration,
    Machine,
}

/// Response curve of an analog stick.
#[derive(Clone, Copy, Debug, PartialEq, Eq, Structural)]
pub enum SensitivityCurve {
    Default,
    Quick,
    Precise,
    Steady,
    Digital,
    Dynamic,
}

/// Where the controller plays audio.
#[derive(Clone, Copy, Debug, PartialEq, Eq, Structural)]
pub enum SpeakerMode {
    Internal,
    Headphone,
    Both,
}

/// State of the LED beside the microphone button.
#[derive(Clone, Copy, Debug, PartialEq, Eq, Structural)]
pub enum MicLedState {
    Off,
    On,
    Pulse,
}

impl SpeakerMode {
    /// The name under which front-ends pass this mode around.
    pub fn name(&self) -> (s: &'static str)
        ensures
            s@ == self.spec_name(),
    {
        match self {
            SpeakerMode::Internal => "internal",
            SpeakerMode::Headphone => "headphone",
            SpeakerMode::Both => "both",
        }
    }

    pub open spec fn spec_name(self) -> Seq<char> {
        match self {
            SpeakerMode::Internal => "internal"@,
            SpeakerMode::Headphone => "headphone"@,
            SpeakerMode::Both => "both"@,
        }
    }
}

} // verus!

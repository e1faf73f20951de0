use crate::bytes::spec_u16_le;
use crate::dualsense::{
    spec_battery_offset, spec_is_battery, spec_is_output_frame, spec_sealed, DualSense,
    SessionError, SessionView,
};
use crate::ipc::{DaemonCommand, DaemonResponse};
use crate::output::{
    spec_lightbar_enabled_report, spec_lightbar_report, spec_mic_led_report, spec_mic_report,
    spec_player_led_pattern, spec_player_leds_report, spec_speaker_report,
    spec_trigger_effect_report, spec_vibration_report, spec_volume_report,
    DS_TRIGGER_EFFECT_OFF, PLAYER_LED_PATTERN_COUNT,
};
use crate::report::{
    spec_field_text, spec_input_payload, spec_is_decoded, DS_FEATURE_REPORT_FIRMWARE_INFO,
    DS_INPUT_REPORT_USB_SIZE, FIRMWARE_INFO_MIN_SIZE,
};
use vstd::prelude::*;

verus! {

/// What the daemon answers to every command but `SetUpdateMode` while a
/// firmware update is in progress.
pub const UPDATE_IN_PROGRESS_MESSAGE: &'static str = "firmware update in progress";

/// Pause between two attempts to find a controller, in seconds.
pub const RECONNECT_INTERVAL_SECS: u64 = 2;

/// What the device was asked for on behalf of a command.
#[derive(Clone, Copy, Debug, PartialEq, Eq, Structural)]
pub enum Pending {
    /// An input report, to read the battery from.
    Battery,
    /// An input report, to read the state of the controller from.
    InputState,
    /// The description of the firmware.
    FirmwareInfo,
    /// Nothing: an output report was written.
    Write,
}

/// What to do on the device for a command.
#[derive(Clone, Debug, PartialEq, Eq)]
pub enum DeviceOp {
    /// Read one input report.
    Read,
    /// Get a feature report; the buffer to hand to the device comes with it.
    Feature(Vec<u8>),
    /// Write the output report that comes with it.
    Write(Vec<u8>),
}

/// How the daemon goes on with a command.
#[derive(Clone, Debug, PartialEq, Eq)]
pub enum DaemonStep {
    /// The response is ready.
    Reply(DaemonResponse),
    /// The device has to do something first; the response follows from
    /// how that went.
    Device { pending: Pending, op: DeviceOp },
}

/// The daemon, as contracts speak of it.
pub struct DaemonView {
    pub device: Option<SessionView>,
    pub update_in_progress: bool,
}

impl DaemonView {
    /// While an update is in progress the daemon holds no session.
    pub open spec fn wf(self) -> bool {
        self.update_in_progress ==> self.device is None
    }
}

/// The report that a command asks the session `s` to make, before it is
/// sealed; none for a command that sets nothing or names no player.
pub open spec fn spec_command_report(s: SessionView, cmd: DaemonCommand) -> Option<Seq<u8>> {
    match cmd {
        DaemonCommand::SetLightbar { r, g, b, brightness } => Some(
            spec_lightbar_report(s.is_bt, s.output_seq, r, g, b, brightness),
        ),
        DaemonCommand::SetLightbarEnabled { enabled } => Some(
            spec_lightbar_enabled_report(s.is_bt, s.output_seq, enabled),
        ),
        DaemonCommand::SetPlayerLeds { leds } => if leds < PLAYER_LED_PATTERN_COUNT {
            Some(spec_player_leds_report(s.is_bt, s.output_seq, spec_player_led_pattern(leds)))
        } else {
            None
        },
        DaemonCommand::SetMic { enabled } => Some(spec_mic_report(s.is_bt, s.output_seq, enabled)),
        DaemonCommand::SetMicLed { state } => Some(
            spec_mic_led_report(s.is_bt, s.output_seq, state),
        ),
        DaemonCommand::SetTriggerOff => Some(
            spec_trigger_effect_report(
                s.is_bt,
                s.output_seq,
                true,
                true,
                DS_TRIGGER_EFFECT_OFF,
                Seq::new(10, |i: int| 0u8),
            ),
        ),
        DaemonCommand::SetTriggerEffect { right, left, effect_type, params } => Some(
            spec_trigger_effect_report(s.is_bt, s.output_seq, left, right, effect_type, params@),
        ),
        DaemonCommand::SetVibration { rumble, trigger } => Some(
            spec_vibration_report(s.is_bt, s.output_seq, rumble, trigger),
        ),
        DaemonCommand::SetSpeaker { mode } => Some(
            spec_speaker_report(s.is_bt, s.output_seq, mode@),
        ),
        DaemonCommand::SetVolume { volume } => Some(
            spec_volume_report(s.is_bt, s.output_seq, volume),
        ),
        _ => None,
    }
}

/// Whether `step` answers with the error `text`.
pub open spec fn spec_is_error_reply(step: DaemonStep, text: Seq<char>) -> bool {
    step matches DaemonStep::Reply(DaemonResponse::Error { message }) && message@ == text
}

/// Whether `step` is how the daemon goes on with a report that the
/// session `s` has made: it is written, unless the session is in update
/// mode, in which nothing goes out and the command counts as done.
pub open spec fn spec_is_output_step(s: SessionView, report: Seq<u8>, step: DaemonStep) -> bool {
    if s.update_mode {
        step == DaemonStep::Reply(DaemonResponse::Done)
    } else {
        &&& step matches DaemonStep::Device { pending, op }
        &&& pending == Pending::Write
        &&& op matches DeviceOp::Write(bytes)
        &&& bytes@ == spec_sealed(s.is_bt, report)
        &&& spec_is_output_frame(s.is_bt, bytes@)
    }
}

/// Whether `step` is how the daemon goes on with a command that reads an
/// input report through the session `s`, and `after` the session it keeps.
pub open spec fn spec_is_read_step(
    s: SessionView,
    pending: Pending,
    after: Option<SessionView>,
    step: DaemonStep,
) -> bool {
    if s.update_mode {
        after is None && spec_is_error_reply(step, SessionError::Updating.spec_message())
    } else {
        after == Some(s) && step == (DaemonStep::Device { pending, op: DeviceOp::Read })
    }
}

/// Whether `after` and `step` are what the daemon makes of a command for
/// the session `s` that it holds.
pub open spec fn spec_dispatched(
    s: SessionView,
    cmd: DaemonCommand,
    after: Option<SessionView>,
    step: DaemonStep,
) -> bool {
    match cmd {
        DaemonCommand::Ping => after == Some(s) && step == DaemonStep::Reply(
            DaemonResponse::Pong,
        ),
        DaemonCommand::GetControllerInfo => {
            &&& after == Some(s)
            &&& step matches DaemonStep::Reply(
                DaemonResponse::ControllerInfo { serial, product_id, is_bt },
            )
            &&& serial@ == s.serial
            &&& product_id == s.product_id
            &&& is_bt == s.is_bt
        },
        DaemonCommand::GetBattery => spec_is_read_step(s, Pending::Battery, after, step),
        DaemonCommand::GetInputState => spec_is_read_step(s, Pending::InputState, after, step),
        DaemonCommand::GetFirmwareInfo => {
            &&& after == Some(s)
            &&& step matches DaemonStep::Device { pending, op }
            &&& pending == Pending::FirmwareInfo
            &&& op matches DeviceOp::Feature(request)
            &&& request@ == Seq::new(DS_INPUT_REPORT_USB_SIZE as nat, |i: int| 0u8).update(
                0,
                DS_FEATURE_REPORT_FIRMWARE_INFO,
            )
        },
        DaemonCommand::SetUpdateMode { .. } => false,
        _ => match spec_command_report(s, cmd) {
            Some(report) => after == Some(s.after_output()) && spec_is_output_step(
                s,
                report,
                step,
            ),
            None => after is None && spec_is_error_reply(
                step,
                SessionError::InvalidPlayer.spec_message(),
            ),
        },
    }
}

/// Whether `after` and `step` are what the daemon in state `before` makes
/// of a command. `SetUpdateMode` sets the update flag, and raising it
/// drops the session. While the flag is up every other command is refused.
/// Else a ping is answered, and every other command goes to the session,
/// if there is one.
pub open spec fn spec_begun(
    before: DaemonView,
    cmd: DaemonCommand,
    after: DaemonView,
    step: DaemonStep,
) -> bool {
    if cmd is SetUpdateMode {
        &&& after.update_in_progress == cmd->active
        &&& after.device == if cmd->active {
            None
        } else {
            before.device
        }
        &&& step == DaemonStep::Reply(DaemonResponse::Done)
    } else if before.update_in_progress {
        after == before && spec_is_error_reply(step, UPDATE_IN_PROGRESS_MESSAGE@)
    } else if cmd is Ping {
        after == before && step == DaemonStep::Reply(DaemonResponse::Pong)
    } else {
        &&& !after.update_in_progress
        &&& match before.device {
            None => after.device is None && step == DaemonStep::Reply(DaemonResponse::NoDevice),
            Some(s) => spec_dispatched(s, cmd, after.device, step),
        }
    }
}

/// The state of the daemon: the one session it may hold, and the flag
/// that a firmware update raises. Every operation keeps it well formed:
/// while the flag is up there is no session.
#[derive(Debug)]
pub struct DaemonState {
    device: Option<DualSense>,
    update_in_progress: bool,
}

impl View for DaemonState {
    type V = DaemonView;

    closed spec fn view(&self) -> DaemonView {
        DaemonView {
            device: match self.device {
                Some(ds) => Some(ds@),
                None => None,
            },
            update_in_progress: self.update_in_progress,
        }
    }
}

fn error_reply(message: String) -> (step: DaemonStep)
    ensures
        spec_is_error_reply(step, message@),
{
    DaemonStep::Reply(DaemonResponse::Error { message })
}

fn output_step(
    Ghost(s): Ghost<SessionView>,
    Ghost(report): Ghost<Seq<u8>>,
    out: Option<Vec<u8>>,
) -> (step: DaemonStep)
    requires
        crate::dualsense::spec_emitted(s, report, out),
    ensures
        spec_is_output_step(s, report, step),
{
    match out {
        None => DaemonStep::Reply(DaemonResponse::Done),
        Some(bytes) => DaemonStep::Device { pending: Pending::Write, op: DeviceOp::Write(bytes) },
    }
}

impl DaemonState {
    /// A daemon that holds no session and in which no update is in progress.
    pub fn new() -> (state: DaemonState)
        ensures
            state@ == (DaemonView { device: None, update_in_progress: false }),
            state@.wf(),
    {
        DaemonState { device: None, update_in_progress: false }
    }

    /// Whether a firmware update is in progress.
    pub fn update_in_progress(&self) -> (yes: bool)
        ensures
            yes == self@.update_in_progress,
    {
        self.update_in_progress
    }

    /// Whether the daemon holds a session.
    pub fn has_device(&self) -> (yes: bool)
        ensures
            yes == (self@.device is Some),
    {
        self.device.is_some()
    }

    /// Whether the daemon is to look for a controller now: it holds no
    /// session and no update is in progress.
    pub fn wants_device(&self) -> (yes: bool)
        ensures
            yes == (self@.device is None && !self@.update_in_progress),
    {
        self.device.is_none() && !self.update_in_progress
    }

    /// Takes the session on a controller that was found. The session is
    /// kept only if the daemon wants one; else it is handed back.
    pub fn attach(&mut self, session: DualSense) -> (rejected: Option<DualSense>)
        requires
            old(self)@.wf(),
        ensures
            final(self)@.wf(),
            final(self)@.update_in_progress == old(self)@.update_in_progress,
            old(self)@.device is None && !old(self)@.update_in_progress ==> rejected is None
                && final(self)@.device == Some(session@),
            !(old(self)@.device is None && !old(self)@.update_in_progress) ==> rejected == Some(
                session,
            ) && final(self)@ == old(self)@,
    {
        if self.wants_device() {
            self.device = Some(session);
            None
        } else {
            Some(session)
        }
    }

    /// Drops the session, if there is one.
    pub fn release(&mut self)
        requires
            old(self)@.wf(),
        ensures
            final(self)@ == (DaemonView { device: None, ..old(self)@ }),
            final(self)@.wf(),
    {
        self.device = None;
    }
}

/// Whether `response` tells of the error `text`.
pub open spec fn spec_is_error(response: DaemonResponse, text: Seq<char>) -> bool {
    response matches DaemonResponse::Error { message } && message@ == text
}

/// Whether `after` and `response` are what the daemon makes of the bytes
/// that the device returned for a command of the session `s`.
pub open spec fn spec_answered(
    s: SessionView,
    pending: Pending,
    bytes: Seq<u8>,
    after: Option<SessionView>,
    response: DaemonResponse,
) -> bool {
    match pending {
        Pending::Write => after == Some(s) && response == DaemonResponse::Done,
        Pending::Battery => match DualSense::spec_battery_error(s, bytes) {
            Some(e) => after is None && spec_is_error(response, e.spec_message()),
            None => {
                &&& after == Some(s)
                &&& response matches DaemonResponse::Battery(info)
                &&& spec_is_battery(bytes[spec_battery_offset(s.is_bt)], info)
            },
        },
        Pending::InputState => match DualSense::spec_input_error(s, bytes) {
            Some(e) => after is None && spec_is_error(response, e.spec_message()),
            None => {
                &&& after == Some(s)
                &&& response matches DaemonResponse::InputState(state)
                &&& spec_is_decoded(spec_input_payload(s.is_bt, bytes), state)
            },
        },
        Pending::FirmwareInfo => if bytes.len() < FIRMWARE_INFO_MIN_SIZE {
            after is None && spec_is_error(
                response,
                (SessionError::FeatureTooShort { size: bytes.len() as usize }).spec_message(),
            )
        } else {
            &&& after == Some(s)
            &&& response matches DaemonResponse::FirmwareInfo { version, build_date, build_time }
            &&& version == spec_u16_le(bytes[44], bytes[45])
            &&& build_date@ == spec_field_text(bytes.subrange(1, 12))
            &&& build_time@ == spec_field_text(bytes.subrange(12, 20))
        },
    }
}

/// Whether `after` and `response` are what the daemon in state `before`
/// makes of how the device did. A failure of the device is answered with
/// its cause, and every error drops the session.
pub open spec fn spec_finished(
    before: DaemonView,
    pending: Pending,
    outcome: Result<Vec<u8>, String>,
    after: DaemonView,
    response: DaemonResponse,
) -> bool {
    &&& after.update_in_progress == before.update_in_progress
    &&& match before.device {
        None => after.device is None && response == DaemonResponse::NoDevice,
        Some(s) => match outcome {
            Err(cause) => after.device is None && response == (DaemonResponse::Error {
                message: cause,
            }),
            Ok(bytes) => spec_answered(s, pending, bytes@, after.device, response),
        },
    }
}

/// Carries out a command on a session as far as that goes without the
/// device. Returns how the daemon goes on and whether it keeps the
/// session: an error drops it.
pub fn dispatch(ds: &mut DualSense, cmd: DaemonCommand) -> (r: (DaemonStep, bool))
    requires
        !(cmd is SetUpdateMode),
    ensures
        spec_dispatched(
            old(ds)@,
            cmd,
            if r.1 {
                Some(final(ds)@)
            } else {
                None
            },
            r.0,
        ),
{
    let ghost s = ds@;
    let ghost report = spec_command_report(s, cmd);
    match cmd {
        DaemonCommand::Ping => (DaemonStep::Reply(DaemonResponse::Pong), true),
        DaemonCommand::GetBattery => match ds.input_read_size() {
            Ok(_) => (
                DaemonStep::Device { pending: Pending::Battery, op: DeviceOp::Read },
                true,
            ),
            Err(e) => (error_reply(e.message()), false),
        },
        DaemonCommand::GetInputState => match ds.input_read_size() {
            Ok(_) => (
                DaemonStep::Device { pending: Pending::InputState, op: DeviceOp::Read },
                true,
            ),
            Err(e) => (error_reply(e.message()), false),
        },
        DaemonCommand::GetFirmwareInfo => (
            DaemonStep::Device {
                pending: Pending::FirmwareInfo,
                op: DeviceOp::Feature(ds.firmware_info_request()),
            },
            true,
        ),
        DaemonCommand::GetControllerInfo => (
            DaemonStep::Reply(
                DaemonResponse::ControllerInfo {
                    serial: ds.serial().to_owned(),
                    product_id: ds.product_id(),
                    is_bt: ds.is_bluetooth(),
                },
            ),
            true,
        ),
        DaemonCommand::SetLightbar { r, g, b, brightness } => {
            let out = ds.set_lightbar(r, g, b, brightness);
            (output_step(Ghost(s), Ghost(report->0), out), true)
        },
        DaemonCommand::SetLightbarEnabled { enabled } => {
            let out = ds.set_lightbar_enabled(enabled);
            (output_step(Ghost(s), Ghost(report->0), out), true)
        },
        DaemonCommand::SetPlayerLeds { leds } => match ds.set_player_leds(leds) {
            Ok(out) => (output_step(Ghost(s), Ghost(report->0), out), true),
            Err(e) => (error_reply(e.message()), false),
        },
        DaemonCommand::SetMic { enabled } => {
            let out = ds.set_mic(enabled);
            (output_step(Ghost(s), Ghost(report->0), out), true)
        },
        DaemonCommand::SetMicLed { state } => {
            let out = ds.set_mic_led(state);
            (output_step(Ghost(s), Ghost(report->0), out), true)
        },
        DaemonCommand::SetTriggerOff => {
            let out = ds.set_trigger_off();
            (output_step(Ghost(s), Ghost(report->0), out), true)
        },
        DaemonCommand::SetTriggerEffect { right, left, effect_type, params } => {
            let out = ds.set_trigger_effect(left, right, effect_type, params.as_slice());
            (output_step(Ghost(s), Ghost(report->0), out), true)
        },
        DaemonCommand::SetVibration { rumble, trigger } => {
            let out = ds.set_vibration(rumble, trigger);
            (output_step(Ghost(s), Ghost(report->0), out), true)
        },
        DaemonCommand::SetSpeaker { mode } => {
            let out = ds.set_speaker(mode.as_str());
            (output_step(Ghost(s), Ghost(report->0), out), true)
        },
        DaemonCommand::SetVolume { volume } => {
            let out = ds.set_volume(volume);
            (output_step(Ghost(s), Ghost(report->0), out), true)
        },
        DaemonCommand::SetUpdateMode { .. } => (DaemonStep::Reply(DaemonResponse::Done), true),
    }
}

/// Makes the response to what the device returned for a command of a
/// session. Returns it and whether the daemon keeps the session.
pub fn answer(ds: &DualSense, pending: Pending, bytes: &[u8]) -> (r: (DaemonResponse, bool))
    ensures
        spec_answered(
            ds@,
            pending,
            bytes@,
            if r.1 {
                Some(ds@)
            } else {
                None
            },
            r.0,
        ),
{
    match pending {
        Pending::Write => (DaemonResponse::Done, true),
        Pending::Battery => match ds.get_battery(bytes) {
            Ok(info) => (DaemonResponse::Battery(info), true),
            Err(e) => (DaemonResponse::Error { message: e.message() }, false),
        },
        Pending::InputState => match ds.get_input_state(bytes) {
            Ok(state) => (DaemonResponse::InputState(state), true),
            Err(e) => (DaemonResponse::Error { message: e.message() }, false),
        },
        Pending::FirmwareInfo => match ds.get_firmware_info(bytes) {
            Ok((version, build_date, build_time)) => (
                DaemonResponse::FirmwareInfo { version, build_date, build_time },
                true,
            ),
            Err(e) => (DaemonResponse::Error { message: e.message() }, false),
        },
    }
}

/// The response to a line that is no command: an error with the cause,
/// after which the connection goes on.
pub fn malformed_request(cause: String) -> (response: DaemonResponse)
    ensures
        response == (DaemonResponse::Error { message: cause }),
{
    DaemonResponse::Error { message: cause }
}

impl DaemonState {
    /// Takes up a command. Either the response is ready, or the device
    /// has to do something first; then `finish` makes the response.
    pub fn begin(&mut self, cmd: DaemonCommand) -> (step: DaemonStep)
        requires
            old(self)@.wf(),
        ensures
            spec_begun(old(self)@, cmd, final(self)@, step),
            final(self)@.wf(),
    {
        match cmd {
            DaemonCommand::SetUpdateMode { active } => {
                if active {
                    self.device = None;
                }
                self.update_in_progress = active;
                DaemonStep::Reply(DaemonResponse::Done)
            },
            DaemonCommand::Ping => {
                if self.update_in_progress {
                    error_reply(UPDATE_IN_PROGRESS_MESSAGE.to_owned())
                } else {
                    DaemonStep::Reply(DaemonResponse::Pong)
                }
            },
            cmd => {
                if self.update_in_progress {
                    return error_reply(UPDATE_IN_PROGRESS_MESSAGE.to_owned());
                }
                match self.device.take() {
                    None => DaemonStep::Reply(DaemonResponse::NoDevice),
                    Some(ds) => {
                        let mut ds = ds;
                        let (step, keep) = dispatch(&mut ds, cmd);
                        if keep {
                            self.device = Some(ds);
                        }
                        step
                    },
                }
            },
        }
    }

    /// Makes the response to a command from how the device did:
    /// `outcome` holds the bytes it returned (none for a write), or the
    /// cause of its failure.
    pub fn finish(&mut self, pending: Pending, outcome: Result<Vec<u8>, String>) -> (response:
        DaemonResponse)
        requires
            old(self)@.wf(),
        ensures
            spec_finished(old(self)@, pending, outcome, final(self)@, response),
            final(self)@.wf(),
    {
        match self.device.take() {
            None => DaemonResponse::NoDevice,
            Some(ds) => match outcome {
                Err(cause) => DaemonResponse::Error { message: cause },
                Ok(bytes) => {
                    let (response, keep) = answer(&ds, pending, bytes.as_slice());
                    if keep {
                        self.device = Some(ds);
                    }
                    response
                },
            },
        }
    }
}

/// While an update is in progress the daemon holds no session and answers
/// no command but `SetUpdateMode` with success: every other command gets
/// the error that names the update, and leaves the daemon as it was.
pub proof fn lemma_update_excludes_commands(
    before: DaemonView,
    cmd: DaemonCommand,
    after: DaemonView,
    step: DaemonStep,
)
    requires
        before.wf(),
        before.update_in_progress,
        !(cmd is SetUpdateMode),
        spec_begun(before, cmd, after, step),
    ensures
        before.device is None,
        after == before,
        spec_is_error_reply(step, UPDATE_IN_PROGRESS_MESSAGE@),
{
}

/// Only `SetUpdateMode` moves the update flag, and whatever the daemon
/// does, it holds no session while the flag is up.
pub proof fn lemma_update_flag_is_kept(
    before: DaemonView,
    cmd: DaemonCommand,
    after: DaemonView,
    step: DaemonStep,
)
    requires
        before.wf(),
        spec_begun(before, cmd, after, step),
    ensures
        after.wf(),
        !(cmd is SetUpdateMode) ==> after.update_in_progress == before.update_in_progress,
        cmd matches DaemonCommand::SetUpdateMode { active } ==> after.update_in_progress == active,
{
}

/// An error costs the session: whenever the daemon answers a command
/// with an error, it holds no session afterwards.
pub proof fn lemma_errors_drop_the_session(
    before: DaemonView,
    cmd: DaemonCommand,
    after: DaemonView,
    step: DaemonStep,
)
    requires
        before.wf(),
        spec_begun(before, cmd, after, step),
        step matches DaemonStep::Reply(DaemonResponse::Error { .. }),
    ensures
        after.device is None,
{
}

/// The same holds of what the device returned: an error in the response
/// means that the daemon holds no session afterwards, and a failure of
/// the device is always answered with an error.
pub proof fn lemma_failures_drop_the_session(
    before: DaemonView,
    pending: Pending,
    outcome: Result<Vec<u8>, String>,
    after: DaemonView,
    response: DaemonResponse,
)
    requires
        before.wf(),
        spec_finished(before, pending, outcome, after, response),
    ensures
        after.wf(),
        response is Error ==> after.device is None,
        before.device is Some && outcome is Err ==> response is Error,
        !(response is Error) ==> after.device == before.device,
{
}

} // verus!

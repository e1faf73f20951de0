use crate::common::MicLedState;
use crate::dualsense::BatteryInfo;
use crate::inputs::ControllerState;
use vstd::prelude::*;
use vstd::string::StringExecFns;

verus! {

/// Name of the socket file of the daemon in the runtime directory.
pub const SOCKET_FILE_NAME: &'static str = "ds4u.socket";

/// How long a client waits for a response, in seconds.
pub const RESPONSE_TIMEOUT_SECS: u64 = 5;

/// What a client asks of the daemon.
#[derive(Clone, Debug, PartialEq, Eq)]
pub enum DaemonCommand {
    Ping,
    GetBattery,
    GetInputState,
    GetFirmwareInfo,
    GetControllerInfo,
    SetLightbar { r: u8, g: u8, b: u8, brightness: u8 },
    SetLightbarEnabled { enabled: bool },
    SetPlayerLeds { leds: u8 },
    SetMic { enabled: bool },
    SetMicLed { state: MicLedState },
    SetTriggerOff,
    SetTriggerEffect { right: bool, left: bool, effect_type: u8, params: [u8; 10] },
    SetVibration { rumble: u8, trigger: u8 },
    SetSpeaker { mode: String },
    SetVolume { volume: u8 },
    SetUpdateMode { active: bool },
}

/// What the daemon answers.
#[derive(Clone, Debug, PartialEq, Eq)]
pub enum DaemonResponse {
    Pong,
    /// The command was carried out.
    Done,
    Error { message: String },
    Battery(BatteryInfo),
    InputState(ControllerState),
    FirmwareInfo { version: u16, build_date: String, build_time: String },
    ControllerInfo { serial: String, product_id: u16, is_bt: bool },
    NoDevice,
}

/// Why a request to the daemon gives no result.
#[derive(Clone, Debug, PartialEq, Eq)]
pub enum IpcError {
    /// The daemon has closed the connection.
    Closed,
    /// The daemon answered with an error.
    Daemon { message: String },
    /// The daemon answered with something that does not fit the request.
    Unexpected,
}

impl IpcError {
    pub open spec fn spec_message(self) -> Seq<char> {
        match self {
            IpcError::Closed => "Daemon closed the connection"@,
            IpcError::Daemon { message } => message@,
            IpcError::Unexpected => "Unexpected response"@,
        }
    }

    /// Writes this error out for a reader.
    pub fn message(&self) -> (text: String)
        ensures
            text@ == self.spec_message(),
    {
        match self {
            IpcError::Closed => "Daemon closed the connection".to_owned(),
            IpcError::Daemon { message } => message.clone(),
            IpcError::Unexpected => "Unexpected response".to_owned(),
        }
    }
}

/// Makes the line that carries one message: its text, then a line feed.
pub fn frame_line(json: String) -> (line: String)
    ensures
        line@ == json@ + "\n"@,
{
    json.concat("\n")
}

/// Takes a line that was read from the daemon. A read that brought
/// nothing, not even a line feed, tells that the daemon has closed the
/// connection.
pub fn check_line(line: &str) -> (r: Result<(), IpcError>)
    ensures
        line@.len() == 0 ==> r == Err::<(), IpcError>(IpcError::Closed),
        line@.len() != 0 ==> r == Ok::<(), IpcError>(()),
{
    if line.is_empty() {
        Err(IpcError::Closed)
    } else {
        Ok(())
    }
}

/// Whether a response answers a ping.
pub fn is_pong(response: &DaemonResponse) -> (yes: bool)
    ensures
        yes == (response is Pong),
{
    match response {
        DaemonResponse::Pong => true,
        _ => false,
    }
}

/// What a response to `GetBattery` gives the client.
pub fn battery_reply(response: DaemonResponse) -> (r: Result<BatteryInfo, IpcError>)
    ensures
        match response {
            DaemonResponse::Battery(info) => r == Ok::<BatteryInfo, IpcError>(info),
            DaemonResponse::Error { message } => r == Err::<BatteryInfo, IpcError>(
                IpcError::Daemon { message },
            ),
            _ => r == Err::<BatteryInfo, IpcError>(IpcError::Unexpected),
        },
{
    match response {
        DaemonResponse::Battery(info) => Ok(info),
        DaemonResponse::Error { message } => Err(IpcError::Daemon { message }),
        _ => Err(IpcError::Unexpected),
    }
}

/// What a response to `GetInputState` gives the client.
pub fn input_state_reply(response: DaemonResponse) -> (r: Result<ControllerState, IpcError>)
    ensures
        match response {
            DaemonResponse::InputState(state) => r == Ok::<ControllerState, IpcError>(state),
            DaemonResponse::Error { message } => r == Err::<ControllerState, IpcError>(
                IpcError::Daemon { message },
            ),
            _ => r == Err::<ControllerState, IpcError>(IpcError::Unexpected),
        },
{
    match response {
        DaemonResponse::InputState(state) => Ok(state),
        DaemonResponse::Error { message } => Err(IpcError::Daemon { message }),
        _ => Err(IpcError::Unexpected),
    }
}

/// What a response to `GetFirmwareInfo` gives the client: version, build
/// date and build time.
pub fn firmware_info_reply(response: DaemonResponse) -> (r: Result<
    (u16, String, String),
    IpcError,
>)
    ensures
        match response {
            DaemonResponse::FirmwareInfo { version, build_date, build_time } => r == Ok::<
                (u16, String, String),
                IpcError,
            >((version, build_date, build_time)),
            DaemonResponse::Error { message } => r == Err::<(u16, String, String), IpcError>(
                IpcError::Daemon { message },
            ),
            _ => r == Err::<(u16, String, String), IpcError>(IpcError::Unexpected),
        },
{
    match response {
        DaemonResponse::FirmwareInfo { version, build_date, build_time } => Ok(
            (version, build_date, build_time),
        ),
        DaemonResponse::Error { message } => Err(IpcError::Daemon { message }),
        _ => Err(IpcError::Unexpected),
    }
}

/// What a response to `GetControllerInfo` gives the client: serial
/// number, product id and whether the controller is on Bluetooth.
pub fn controller_info_reply(response: DaemonResponse) -> (r: Result<
    Option<(String, u16, bool)>,
    IpcError,
>)
    ensures
        match response {
            DaemonResponse::ControllerInfo { serial, product_id, is_bt } => r == Ok::<
                Option<(String, u16, bool)>,
                IpcError,
            >(Some((serial, product_id, is_bt))),
            DaemonResponse::Error { message } => r == Err::<
                Option<(String, u16, bool)>,
                IpcError,
            >(IpcError::Daemon { message }),
            _ => r == Err::<Option<(String, u16, bool)>, IpcError>(IpcError::Unexpected),
        },
{
    match response {
        DaemonResponse::ControllerInfo { serial, product_id, is_bt } => Ok(
            Some((serial, product_id, is_bt)),
        ),
        DaemonResponse::Error { message } => Err(IpcError::Daemon { message }),
        _ => Err(IpcError::Unexpected),
    }
}

/// What a response to a command that sets something gives the client:
/// only an error of the daemon counts as failure.
pub fn ack_reply(response: DaemonResponse) -> (r: Result<(), IpcError>)
    ensures
        match response {
            DaemonResponse::Error { message } => r == Err::<(), IpcError>(
                IpcError::Daemon { message },
            ),
            _ => r == Ok::<(), IpcError>(()),
        },
{
    match response {
        DaemonResponse::Error { message } => Err(IpcError::Daemon { message }),
        _ => Ok(()),
    }
}

} // verus!

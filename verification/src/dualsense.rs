use crate::common::{MicLedState, DSE_PID, DS_PID, DS_VID};
use crate::crc32::{seal_crc, spec_crc_valid, spec_report_crc, spec_with_trailer};
use crate::inputs::ControllerState;
use crate::output::{
    init_output_report, lightbar_enabled_report, lightbar_report, mic_led_report, mic_report,
    player_led_pattern, player_leds_report, speaker_report, spec_blank_report,
    spec_lightbar_enabled_report, spec_lightbar_report, spec_mic_led_report, spec_mic_report,
    spec_next_seq, spec_output_size, spec_player_led_pattern, spec_player_leds_report,
    spec_speaker_report, spec_trigger_effect_report, spec_vibration_report, spec_volume_report,
    trigger_effect_report, vibration_report, volume_report, DS_OUTPUT_REPORT_BT,
    DS_OUTPUT_REPORT_USB, DS_TRIGGER_EFFECT_OFF, PLAYER_LED_PATTERN_COUNT,
};
use crate::report::{
    check_input_frame, decode_firmware_info, decode_input_report, spec_check_input_frame,
    spec_field_text, spec_input_payload, spec_is_decoded, FeatureError, ReportError,
    DS_FEATURE_REPORT_FIRMWARE_INFO, DS_INPUT_REPORT_BT_SIZE, DS_INPUT_REPORT_USB_SIZE,
    FIRMWARE_INFO_MIN_SIZE,
};
use crate::text::{push_decimal, push_hex2, spec_decimal, spec_hex2, str_eq};
use crate::updater::{FlashStage, Flasher, FlasherView};
use vstd::prelude::*;
use vstd::string::StringExecFns;

verus! {

/// How long a read of an input report may take, in milliseconds.
pub const INPUT_READ_TIMEOUT_MS: i32 = 1000;

/// How long to wait after a session has entered update mode, in
/// milliseconds, so that what is under way can finish.
pub const UPDATE_MODE_SETTLE_MS: u64 = 1100;

/// What enumeration tells of one HID device.
#[derive(Clone, Debug)]
pub struct DeviceInfo {
    pub vendor_id: u16,
    pub product_id: u16,
    pub serial: Option<String>,
    /// Number of the USB interface; -1 where there is none, as over Bluetooth.
    pub interface_number: i32,
}

/// Charge of the battery in percent and what the charger is doing.
#[derive(Clone, Debug, PartialEq, Eq)]
pub struct BatteryInfo {
    pub capacity: u8,
    pub status: String,
}

/// Why an operation of a session gives no result.
#[derive(Clone, Debug, PartialEq, Eq)]
pub enum SessionError {
    /// No controller is connected, or none with the wanted serial number.
    NotFound { serial: Option<String> },
    /// The session is in update mode, in which nothing is read.
    Updating,
    /// No input report arrived in time.
    InputTimeout,
    /// What arrived is not an input report of this transport.
    UnexpectedReport { id: u8, size: usize, expected_id: u8, expected_size: usize },
    /// No report arrived in time to read the battery from.
    BatteryTimeout,
    /// What arrived to read the battery from is not an input report of this transport.
    InvalidReport,
    /// The firmware description has fewer than fifty bytes.
    FeatureTooShort { size: usize },
    /// There is no LED pattern for this player number.
    InvalidPlayer,
}

impl SessionError {
    /// The text of this error.
    pub open spec fn spec_message(self) -> Seq<char> {
        match self {
            SessionError::NotFound { serial: Some(s) } => "DualSense controller '"@ + s@
                + "' not found.\nCheck connection and try refreshing"@,
            SessionError::NotFound { serial: None } =>
                "No DualSense controller found.\nPlease connect your controller via USB or Bluetooth."@,
            SessionError::Updating => ""@,
            SessionError::InputTimeout => "Timeout reading input state"@,
            SessionError::UnexpectedReport { id, size, expected_id, expected_size } =>
                "Unexpected input report: id=0x"@ + spec_hex2(id, true) + " size="@ + spec_decimal(
                    size as nat,
                ) + " (expected id=0x"@ + spec_hex2(expected_id, true) + " size="@ + spec_decimal(
                    expected_size as nat,
                ) + ")"@,
            SessionError::BatteryTimeout => "Timeout"@,
            SessionError::InvalidReport => "Invalid report received"@,
            SessionError::FeatureTooShort { size } => "Feature report too short: "@ + spec_decimal(
                size as nat,
            ) + " bytes"@,
            SessionError::InvalidPlayer => "Invalid player number"@,
        }
    }

    /// Writes this error out for a reader.
    pub fn message(&self) -> (text: String)
        ensures
            text@ == self.spec_message(),
    {
        match self {
            SessionError::NotFound { serial: Some(s) } => {
                let text = "DualSense controller '".to_owned();
                let text = text.concat(s.as_str());
                text.concat("' not found.\nCheck connection and try refreshing")
            },
            SessionError::NotFound { serial: None } => {
                "No DualSense controller found.\nPlease connect your controller via USB or Bluetooth.".to_owned()
            },
            SessionError::Updating => "".to_owned(),
            SessionError::InputTimeout => "Timeout reading input state".to_owned(),
            SessionError::UnexpectedReport { id, size, expected_id, expected_size } => {
                let text = "Unexpected input report: id=0x".to_owned();
                let text = push_hex2(text, *id, true);
                let text = text.concat(" size=");
                let text = push_decimal(text, *size as u64);
                let text = text.concat(" (expected id=0x");
                let text = push_hex2(text, *expected_id, true);
                let text = text.concat(" size=");
                let text = push_decimal(text, *expected_size as u64);
                text.concat(")")
            },
            SessionError::BatteryTimeout => "Timeout".to_owned(),
            SessionError::InvalidReport => "Invalid report received".to_owned(),
            SessionError::FeatureTooShort { size } => {
                let text = "Feature report too short: ".to_owned();
                let text = push_decimal(text, *size as u64);
                text.concat(" bytes")
            },
            SessionError::InvalidPlayer => "Invalid player number".to_owned(),
        }
    }
}

/// Whether a vendor and product id are those of a DualSense or a DualSense Edge.
pub open spec fn spec_is_dualsense(vendor_id: u16, product_id: u16) -> bool {
    vendor_id == DS_VID && (product_id == DS_PID || product_id == DSE_PID)
}

pub fn is_dualsense(vendor_id: u16, product_id: u16) -> (yes: bool)
    ensures
        yes == spec_is_dualsense(vendor_id, product_id),
{
    vendor_id == DS_VID && (product_id == DS_PID || product_id == DSE_PID)
}

/// The serial number that was asked for, as contracts speak of it.
pub open spec fn spec_wanted(serial: Option<&str>) -> Option<Seq<char>> {
    match serial {
        Some(s) => Some(s@),
        None => None,
    }
}

/// Whether a device is a controller and, where a serial number is asked
/// for, has that serial number.
pub open spec fn spec_device_matches(info: DeviceInfo, wanted: Option<Seq<char>>) -> bool {
    &&& spec_is_dualsense(info.vendor_id, info.product_id)
    &&& wanted matches Some(w) ==> info.serial matches Some(s) && s@ == w
}

pub fn device_matches(info: &DeviceInfo, serial: Option<&str>) -> (yes: bool)
    ensures
        yes == spec_device_matches(*info, spec_wanted(serial)),
{
    if !is_dualsense(info.vendor_id, info.product_id) {
        return false;
    }
    match serial {
        None => true,
        Some(wanted) => match &info.serial {
            None => false,
            Some(s) => str_eq(s.as_str(), wanted),
        },
    }
}

/// Picks the device to open: the first controller in `devices`, or the
/// first with the serial number that is asked for.
pub fn find_device(devices: &Vec<DeviceInfo>, serial: Option<&str>) -> (r: Result<
    usize,
    SessionError,
>)
    ensures
        match r {
            Ok(i) => {
                &&& i < devices@.len()
                &&& spec_device_matches(devices@[i as int], spec_wanted(serial))
                &&& forall|j: int|
                    0 <= j < i ==> !spec_device_matches(#[trigger] devices@[j], spec_wanted(serial))
            },
            Err(e) => {
                &&& forall|j: int|
                    0 <= j < devices@.len() ==> !spec_device_matches(
                        #[trigger] devices@[j],
                        spec_wanted(serial),
                    )
                &&& e matches SessionError::NotFound { serial: named }
                &&& match named {
                    Some(s) => spec_wanted(serial) == Some(s@),
                    None => serial is None,
                }
            },
        },
{
    let mut i: usize = 0;
    while i < devices.len()
        invariant
            i <= devices@.len(),
            forall|j: int|
                0 <= j < i ==> !spec_device_matches(#[trigger] devices@[j], spec_wanted(serial)),
        decreases devices@.len() - i,
    {
        if device_matches(&devices[i], serial) {
            return Ok(i);
        }
        i += 1;
    }
    let named = match serial {
        Some(s) => Some(s.to_owned()),
        None => None,
    };
    Err(SessionError::NotFound { serial: named })
}

/// The serial number under which a device is shown.
pub open spec fn spec_shown_serial(info: DeviceInfo) -> Seq<char> {
    match info.serial {
        Some(s) => s@,
        None => "Unknown"@,
    }
}

/// Whether a device is connected over Bluetooth: it has no USB interface.
pub open spec fn spec_over_bluetooth(info: DeviceInfo) -> bool {
    info.interface_number == -1
}

/// The line that describes a device: its serial number and, in brackets, its transport.
pub open spec fn spec_device_label(info: DeviceInfo) -> Seq<char> {
    spec_shown_serial(info) + " ("@ + (if spec_over_bluetooth(info) {
        "Bluetooth"@
    } else {
        "USB"@
    }) + ")"@
}

fn shown_serial(info: &DeviceInfo) -> (s: String)
    ensures
        s@ == spec_shown_serial(*info),
{
    match &info.serial {
        Some(s) => s.clone(),
        None => "Unknown".to_owned(),
    }
}

/// The controllers in `devices` that satisfy `spec_is_dualsense`, in order.
pub open spec fn spec_controllers(devices: Seq<DeviceInfo>) -> Seq<DeviceInfo> {
    devices.filter(|info: DeviceInfo| spec_is_dualsense(info.vendor_id, info.product_id))
}

/// Describes the controllers among `devices`, one line each, in their order.
pub fn list_devices(devices: &Vec<DeviceInfo>) -> (labels: Vec<String>)
    ensures
        labels@.len() == spec_controllers(devices@).len(),
        forall|k: int|
            0 <= k < labels@.len() ==> (#[trigger] labels@[k])@ == spec_device_label(
                spec_controllers(devices@)[k],
            ),
{
    let mut labels: Vec<String> = Vec::new();
    let ghost keep = |info: DeviceInfo| spec_is_dualsense(info.vendor_id, info.product_id);
    let mut i: usize = 0;
    proof {
        reveal(Seq::filter);
        assert(devices@.subrange(0, 0).len() == 0);
    }
    while i < devices.len()
        invariant
            i <= devices@.len(),
            keep == (|info: DeviceInfo| spec_is_dualsense(info.vendor_id, info.product_id)),
            labels@.len() == devices@.subrange(0, i as int).filter(keep).len(),
            forall|k: int|
                0 <= k < labels@.len() ==> (#[trigger] labels@[k])@ == spec_device_label(
                    devices@.subrange(0, i as int).filter(keep)[k],
                ),
        decreases devices@.len() - i,
    {
        let info = &devices[i];
        proof {
            reveal(Seq::filter);
            let head = devices@.subrange(0, i as int);
            let next = devices@.subrange(0, i + 1);
            assert(next.drop_last() == head);
            assert(next.last() == devices@[i as int]);
        }
        if is_dualsense(info.vendor_id, info.product_id) {
            let label = shown_serial(info);
            let label = label.concat(" (");
            let label = label.concat(
                if info.interface_number == -1 {
                    "Bluetooth"
                } else {
                    "USB"
                },
            );
            let label = label.concat(")");
            labels.push(label);
        }
        i += 1;
    }
    proof {
        assert(devices@.subrange(0, i as int) == devices@);
    }
    labels
}

/// Index in an input report of the byte that tells of the battery.
pub open spec fn spec_battery_offset(is_bt: bool) -> int {
    if is_bt {
        54
    } else {
        53
    }
}

/// The charge in percent that a status byte stands for. The low half of the
/// byte counts tenths; the high half says what the charger does, and only
/// while it discharges, charges or is full does the charge count.
pub open spec fn spec_battery_capacity(status_byte: u8) -> u8 {
    let level = status_byte % 16;
    let charging = status_byte / 16;
    if charging <= 2 {
        if level * 10 + 5 > 100 {
            100
        } else {
            (level * 10 + 5) as u8
        }
    } else {
        0
    }
}

/// What the charger does, as the high half of a status byte tells it.
pub open spec fn spec_battery_status(status_byte: u8) -> Seq<char> {
    let charging = status_byte / 16;
    if charging == 0 {
        "Discharging"@
    } else if charging == 1 {
        "Charging"@
    } else if charging == 2 {
        "Full"@
    } else if charging == 0xa || charging == 0xb {
        "Not charging"@
    } else {
        "Unknown"@
    }
}

/// Whether `info` is what a status byte decodes to.
pub open spec fn spec_is_battery(status_byte: u8, info: BatteryInfo) -> bool {
    &&& info.capacity == spec_battery_capacity(status_byte)
    &&& info.status@ == spec_battery_status(status_byte)
}

/// Decodes the status byte of an input report.
pub fn decode_battery_status(status_byte: u8) -> (info: BatteryInfo)
    ensures
        spec_is_battery(status_byte, info),
        info.capacity <= 100,
{
    let level = status_byte % 16;
    let charging = status_byte / 16;
    let charge: u8 = if level * 10 + 5 > 100 {
        100
    } else {
        level * 10 + 5
    };
    let (capacity, status) = if charging == 0 {
        (charge, "Discharging")
    } else if charging == 1 {
        (charge, "Charging")
    } else if charging == 2 {
        (charge, "Full")
    } else if charging == 0xa || charging == 0xb {
        (0, "Not charging")
    } else {
        (0, "Unknown")
    };
    BatteryInfo { capacity, status: status.to_owned() }
}

/// Whether `r` is what the bytes of one read decode to as a battery reading.
pub open spec fn spec_battery_decoded(
    is_bt: bool,
    report: Seq<u8>,
    r: Result<BatteryInfo, ReportError>,
) -> bool {
    match r {
        Ok(info) => spec_check_input_frame(is_bt, report) is Ok && spec_is_battery(
            report[spec_battery_offset(is_bt)],
            info,
        ),
        Err(e) => spec_check_input_frame(is_bt, report) == Err::<(), ReportError>(e),
    }
}

/// Reads the battery from the bytes of one read. A read that timed out, or
/// a report of another id or length, is refused and nothing else is.
pub fn decode_battery(is_bt: bool, report: &[u8]) -> (r: Result<BatteryInfo, ReportError>)
    ensures
        spec_battery_decoded(is_bt, report@, r),
        r matches Ok(info) ==> info.capacity <= 100,
{
    match check_input_frame(is_bt, report) {
        Err(e) => Err(e),
        Ok(()) => {
            let offset: usize = if is_bt {
                54
            } else {
                53
            };
            Ok(decode_battery_status(report[offset]))
        },
    }
}

/// The same report always reads as the same battery state: two readings
/// that both are decodings of one report agree.
pub proof fn lemma_battery_decoding_is_a_function(
    is_bt: bool,
    report: Seq<u8>,
    first: Result<BatteryInfo, ReportError>,
    second: Result<BatteryInfo, ReportError>,
)
    requires
        spec_battery_decoded(is_bt, report, first),
        spec_battery_decoded(is_bt, report, second),
    ensures
        first is Ok <==> second is Ok,
        first matches Ok(a) ==> second matches Ok(b) && a.capacity == b.capacity && a.status@
            == b.status@,
        first matches Err(e) ==> second == Err::<BatteryInfo, ReportError>(e),
{
}

/// What a session knows, as contracts speak of it.
pub struct SessionView {
    pub is_bt: bool,
    pub output_seq: u8,
    pub product_id: u16,
    pub serial: Seq<char>,
    pub update_mode: bool,
}

impl SessionView {
    /// The session after it has made one output report: over Bluetooth the
    /// sequence number has moved on, and nothing else has changed.
    pub open spec fn after_output(self) -> SessionView {
        SessionView {
            output_seq: if self.is_bt {
                spec_next_seq(self.output_seq)
            } else {
                self.output_seq
            },
            ..self
        }
    }

    /// The session after `n` output reports.
    pub open spec fn after_outputs(self, n: nat) -> SessionView
        decreases n,
    {
        if n == 0 {
            self
        } else {
            self.after_outputs((n - 1) as nat).after_output()
        }
    }
}

/// Report id of the output report of a transport.
pub open spec fn spec_output_id(is_bt: bool) -> u8 {
    if is_bt {
        DS_OUTPUT_REPORT_BT
    } else {
        DS_OUTPUT_REPORT_USB
    }
}

/// Whether `bytes` can go out as an output report: it has the id and the
/// length of the transport and, over Bluetooth, ends in the checksum of the rest.
pub open spec fn spec_is_output_frame(is_bt: bool, bytes: Seq<u8>) -> bool {
    &&& bytes.len() == spec_output_size(is_bt)
    &&& bytes[0] == spec_output_id(is_bt)
    &&& is_bt ==> spec_crc_valid(bytes)
}

/// A report as it goes out: over Bluetooth with its checksum in the last
/// four bytes, over USB as it is.
pub open spec fn spec_sealed(is_bt: bool, report: Seq<u8>) -> Seq<u8> {
    if is_bt {
        spec_with_trailer(report, spec_report_crc(report))
    } else {
        report
    }
}

/// Whether `out` is what an output operation hands back for `report`:
/// nothing while the session is in update mode, else the report as it goes out.
pub open spec fn spec_emitted(session: SessionView, report: Seq<u8>, out: Option<Vec<u8>>) -> bool {
    if session.update_mode {
        out is None
    } else {
        &&& out matches Some(bytes)
        &&& bytes@ == spec_sealed(session.is_bt, report)
        &&& spec_is_output_frame(session.is_bt, bytes@)
    }
}

/// One controller as the host knows it: its transport, its identity, the
/// sequence number of the next Bluetooth output report and whether it is
/// being flashed. The session decides what goes to the device and reads
/// what came back; the caller moves the bytes.
#[derive(Clone, Debug)]
pub struct DualSense {
    is_bt: bool,
    output_seq: u8,
    product_id: u16,
    serial: String,
    update_mode: bool,
}

impl View for DualSense {
    type V = SessionView;

    closed spec fn view(&self) -> SessionView {
        SessionView {
            is_bt: self.is_bt,
            output_seq: self.output_seq,
            product_id: self.product_id,
            serial: self.serial@,
            update_mode: self.update_mode,
        }
    }
}

impl DualSense {
    /// Opens a session on a device that enumeration has found.
    pub fn new(info: &DeviceInfo) -> (session: DualSense)
        ensures
            session@ == (SessionView {
                is_bt: spec_over_bluetooth(*info),
                output_seq: 0,
                product_id: info.product_id,
                serial: spec_shown_serial(*info),
                update_mode: false,
            }),
    {
        DualSense {
            is_bt: info.interface_number == -1,
            output_seq: 0,
            product_id: info.product_id,
            serial: shown_serial(info),
            update_mode: false,
        }
    }

    /// Picks the controller to open among `devices`, as `find_device`
    /// does, and opens a session on it. Returns the place of the device
    /// with the session.
    pub fn connect(devices: &Vec<DeviceInfo>, serial: Option<&str>) -> (r: Result<
        (usize, DualSense),
        SessionError,
    >)
        ensures
            match r {
                Ok((i, session)) => {
                    &&& i < devices@.len()
                    &&& spec_device_matches(devices@[i as int], spec_wanted(serial))
                    &&& forall|j: int|
                        0 <= j < i ==> !spec_device_matches(
                            #[trigger] devices@[j],
                            spec_wanted(serial),
                        )
                    &&& session@ == (SessionView {
                        is_bt: spec_over_bluetooth(devices@[i as int]),
                        output_seq: 0,
                        product_id: devices@[i as int].product_id,
                        serial: spec_shown_serial(devices@[i as int]),
                        update_mode: false,
                    })
                },
                Err(e) => {
                    &&& forall|j: int|
                        0 <= j < devices@.len() ==> !spec_device_matches(
                            #[trigger] devices@[j],
                            spec_wanted(serial),
                        )
                    &&& e matches SessionError::NotFound { serial: named }
                    &&& match named {
                        Some(s) => spec_wanted(serial) == Some(s@),
                        None => serial is None,
                    }
                },
            },
    {
        match find_device(devices, serial) {
            Ok(i) => Ok((i, DualSense::new(&devices[i]))),
            Err(e) => Err(e),
        }
    }

    /// Enters or leaves update mode. Returns how many milliseconds the
    /// caller is to wait before it goes on.
    pub fn set_update_mode(&mut self, active: bool) -> (settle_ms: u64)
        ensures
            final(self)@ == (SessionView { update_mode: active, ..old(self)@ }),
            settle_ms == if active {
                UPDATE_MODE_SETTLE_MS
            } else {
                0
            },
    {
        self.update_mode = active;
        if active {
            UPDATE_MODE_SETTLE_MS
        } else {
            0
        }
    }

    pub fn is_updating(&self) -> (yes: bool)
        ensures
            yes == self@.update_mode,
    {
        self.update_mode
    }

    pub fn is_bluetooth(&self) -> (yes: bool)
        ensures
            yes == self@.is_bt,
    {
        self.is_bt
    }

    pub fn product_id(&self) -> (id: u16)
        ensures
            id == self@.product_id,
    {
        self.product_id
    }

    pub fn serial(&self) -> (s: &str)
        ensures
            s@ == self@.serial,
    {
        self.serial.as_str()
    }

    /// The sequence number that the next Bluetooth output report will carry.
    pub fn output_seq(&self) -> (seq: u8)
        ensures
            seq == self@.output_seq,
    {
        self.output_seq
    }

    /// How many bytes to read for an input report, or nothing while the
    /// session is in update mode, in which nothing is read.
    pub fn input_read_size(&self) -> (r: Result<usize, SessionError>)
        ensures
            self@.update_mode ==> r == Err::<usize, SessionError>(SessionError::Updating),
            !self@.update_mode ==> r == Ok::<usize, SessionError>(DS_INPUT_REPORT_BT_SIZE),
    {
        if self.update_mode {
            Err(SessionError::Updating)
        } else {
            Ok(DS_INPUT_REPORT_BT_SIZE)
        }
    }

    /// What `get_input_state` answers with an error, and when.
    pub open spec fn spec_input_error(session: SessionView, report: Seq<u8>) -> Option<
        SessionError,
    > {
        if session.update_mode {
            Some(SessionError::Updating)
        } else {
            match spec_check_input_frame(session.is_bt, report) {
                Ok(()) => None,
                Err(ReportError::Timeout) => Some(SessionError::InputTimeout),
                Err(ReportError::Unexpected { id, size, expected_id, expected_size }) => Some(
                    SessionError::UnexpectedReport { id, size, expected_id, expected_size },
                ),
            }
        }
    }

    /// Decodes the bytes of one read into the state of the controller.
    /// Fails in update mode, on a read that timed out and on a report of
    /// another id or length, and on nothing else.
    pub fn get_input_state(&self, report: &[u8]) -> (r: Result<ControllerState, SessionError>)
        ensures
            match r {
                Ok(state) => {
                    &&& Self::spec_input_error(self@, report@) is None
                    &&& spec_is_decoded(spec_input_payload(self@.is_bt, report@), state)
                    &&& state.touch_points[0].wf()
                    &&& state.touch_points[1].wf()
                    &&& state.touch_count <= 2
                    &&& state.buttons <= 0x7fff
                },
                Err(e) => Self::spec_input_error(self@, report@) == Some(e),
            },
    {
        if self.update_mode {
            return Err(SessionError::Updating);
        }
        match decode_input_report(self.is_bt, report) {
            Ok(state) => Ok(state),
            Err(ReportError::Timeout) => Err(SessionError::InputTimeout),
            Err(ReportError::Unexpected { id, size, expected_id, expected_size }) => Err(
                SessionError::UnexpectedReport { id, size, expected_id, expected_size },
            ),
        }
    }

    /// What `get_battery` answers with an error, and when.
    pub open spec fn spec_battery_error(session: SessionView, report: Seq<u8>) -> Option<
        SessionError,
    > {
        if session.update_mode {
            Some(SessionError::Updating)
        } else {
            match spec_check_input_frame(session.is_bt, report) {
                Ok(()) => None,
                Err(ReportError::Timeout) => Some(SessionError::BatteryTimeout),
                Err(ReportError::Unexpected { .. }) => Some(SessionError::InvalidReport),
            }
        }
    }

    /// Reads the battery from the bytes of one read. Fails in update mode,
    /// on a read that timed out and on a report of another id or length,
    /// and on nothing else.
    pub fn get_battery(&self, report: &[u8]) -> (r: Result<BatteryInfo, SessionError>)
        ensures
            match r {
                Ok(info) => {
                    &&& Self::spec_battery_error(self@, report@) is None
                    &&& spec_is_battery(report@[spec_battery_offset(self@.is_bt)], info)
                    &&& info.capacity <= 100
                },
                Err(e) => Self::spec_battery_error(self@, report@) == Some(e),
            },
    {
        if self.update_mode {
            return Err(SessionError::Updating);
        }
        match decode_battery(self.is_bt, report) {
            Ok(info) => Ok(info),
            Err(ReportError::Timeout) => Err(SessionError::BatteryTimeout),
            Err(ReportError::Unexpected { .. }) => Err(SessionError::InvalidReport),
        }
    }

    /// The buffer to hand to the device when asking for the description of
    /// its firmware: 64 bytes, the first of which is the report id.
    pub fn firmware_info_request(&self) -> (buf: Vec<u8>)
        ensures
            buf@ == Seq::new(DS_INPUT_REPORT_USB_SIZE as nat, |i: int| 0u8).update(
                0,
                DS_FEATURE_REPORT_FIRMWARE_INFO,
            ),
    {
        let mut buf = vec![0u8; DS_INPUT_REPORT_USB_SIZE];
        assert(buf@ == Seq::new(DS_INPUT_REPORT_USB_SIZE as nat, |i: int| 0u8));
        buf[0] = DS_FEATURE_REPORT_FIRMWARE_INFO;
        buf
    }

    /// Decodes the description of the firmware from the bytes that the
    /// device returned: update version, build date, build time. Fewer than
    /// fifty bytes are refused.
    pub fn get_firmware_info(&self, report: &[u8]) -> (r: Result<
        (u16, String, String),
        SessionError,
    >)
        ensures
            report@.len() < FIRMWARE_INFO_MIN_SIZE ==> r == Err::<
                (u16, String, String),
                SessionError,
            >(SessionError::FeatureTooShort { size: report@.len() as usize }),
            report@.len() >= FIRMWARE_INFO_MIN_SIZE ==> r is Ok && r->Ok_0.0
                == crate::bytes::spec_u16_le(report@[44], report@[45]) && r->Ok_0.1@
                == spec_field_text(report@.subrange(1, 12)) && r->Ok_0.2@ == spec_field_text(
                report@.subrange(12, 20),
            ),
    {
        match decode_firmware_info(report) {
            Ok(info) => Ok(info),
            Err(FeatureError::TooShort { size }) => Err(SessionError::FeatureTooShort { size }),
        }
    }

    /// Prepares the update of this controller with the image `firmware`.
    /// The update is carried out step by step through what is returned.
    pub fn update_firmware(&self, firmware: Vec<u8>) -> (flasher: Flasher)
        ensures
            flasher@ == (FlasherView {
                is_bt: self@.is_bt,
                product_id: self@.product_id,
                firmware: firmware@,
                stage: FlashStage::Idle,
                wait_started: 0,
            }),
            flasher@.wf(),
    {
        Flasher::new(self.is_bt, self.product_id, firmware)
    }

    /// Makes a blank output report and moves the sequence number on.
    pub fn init_output_report(&mut self) -> (buf: Vec<u8>)
        ensures
            buf@ == spec_blank_report(old(self)@.is_bt, old(self)@.output_seq),
            final(self)@ == old(self)@.after_output(),
    {
        let buf = init_output_report(self.is_bt, self.output_seq);
        self.advance();
        buf
    }

    fn advance(&mut self)
        ensures
            final(self)@ == old(self)@.after_output(),
    {
        if self.is_bt {
            self.output_seq = (self.output_seq % 16 + 1) % 16;
        }
    }

    /// Makes a report ready to go out: over Bluetooth it gets its
    /// checksum. In update mode nothing goes out.
    pub fn send_output_report(&self, data: Vec<u8>) -> (out: Option<Vec<u8>>)
        requires
            self@.is_bt ==> data@.len() >= 4,
        ensures
            self@.update_mode ==> out is None,
            !self@.update_mode ==> out is Some && out->0@ == spec_sealed(self@.is_bt, data@),
            data@.len() == spec_output_size(self@.is_bt) && data@[0] == spec_output_id(self@.is_bt)
                ==> spec_emitted(self@, data@, out),
    {
        if self.update_mode {
            return None;
        }
        let mut data = data;
        if self.is_bt {
            seal_crc(&mut data);
        }
        Some(data)
    }
}

impl DualSense {
    /// Sets the lightbar to a colour under a brightness.
    pub fn set_lightbar(&mut self, r: u8, g: u8, b: u8, brightness: u8) -> (out: Option<Vec<u8>>)
        ensures
            final(self)@ == old(self)@.after_output(),
            spec_emitted(
                old(self)@,
                spec_lightbar_report(old(self)@.is_bt, old(self)@.output_seq, r, g, b, brightness),
                out,
            ),
    {
        let buf = lightbar_report(self.is_bt, self.output_seq, r, g, b, brightness);
        self.advance();
        self.send_output_report(buf)
    }

    /// Switches the lightbar on or off.
    pub fn set_lightbar_enabled(&mut self, enabled: bool) -> (out: Option<Vec<u8>>)
        ensures
            final(self)@ == old(self)@.after_output(),
            spec_emitted(
                old(self)@,
                spec_lightbar_enabled_report(old(self)@.is_bt, old(self)@.output_seq, enabled),
                out,
            ),
    {
        let buf = lightbar_enabled_report(self.is_bt, self.output_seq, enabled);
        self.advance();
        self.send_output_report(buf)
    }

    /// Shows the LED pattern of player `n`. There are eight patterns; for
    /// another number nothing is made and the session stays as it is.
    pub fn set_player_leds(&mut self, n: u8) -> (r: Result<Option<Vec<u8>>, SessionError>)
        ensures
            n >= PLAYER_LED_PATTERN_COUNT ==> r == Err::<Option<Vec<u8>>, SessionError>(
                SessionError::InvalidPlayer,
            ) && final(self)@ == old(self)@,
            n < PLAYER_LED_PATTERN_COUNT ==> r is Ok && final(self)@ == old(self)@.after_output()
                && spec_emitted(
                old(self)@,
                spec_player_leds_report(
                    old(self)@.is_bt,
                    old(self)@.output_seq,
                    spec_player_led_pattern(n),
                ),
                r->Ok_0,
            ),
    {
        match player_led_pattern(n) {
            None => Err(SessionError::InvalidPlayer),
            Some(pattern) => {
                let buf = player_leds_report(self.is_bt, self.output_seq, pattern);
                self.advance();
                Ok(self.send_output_report(buf))
            },
        }
    }

    /// Routes audio to the speaker (`internal`), the headphones
    /// (`headphone`) or both (`both`).
    pub fn set_speaker(&mut self, mode: &str) -> (out: Option<Vec<u8>>)
        ensures
            final(self)@ == old(self)@.after_output(),
            spec_emitted(
                old(self)@,
                spec_speaker_report(old(self)@.is_bt, old(self)@.output_seq, mode@),
                out,
            ),
    {
        let buf = speaker_report(self.is_bt, self.output_seq, mode);
        self.advance();
        self.send_output_report(buf)
    }

    /// Sets the volume of headphones and speaker.
    pub fn set_volume(&mut self, volume: u8) -> (out: Option<Vec<u8>>)
        ensures
            final(self)@ == old(self)@.after_output(),
            spec_emitted(
                old(self)@,
                spec_volume_report(old(self)@.is_bt, old(self)@.output_seq, volume),
                out,
            ),
    {
        let buf = volume_report(self.is_bt, self.output_seq, volume);
        self.advance();
        self.send_output_report(buf)
    }

    /// Attenuates rumble and trigger vibration, each by a level of three bits.
    pub fn set_vibration(&mut self, rumble: u8, trigger: u8) -> (out: Option<Vec<u8>>)
        ensures
            final(self)@ == old(self)@.after_output(),
            spec_emitted(
                old(self)@,
                spec_vibration_report(old(self)@.is_bt, old(self)@.output_seq, rumble, trigger),
                out,
            ),
    {
        let buf = vibration_report(self.is_bt, self.output_seq, rumble, trigger);
        self.advance();
        self.send_output_report(buf)
    }

    /// Switches the microphone on or mutes it.
    pub fn set_mic(&mut self, enabled: bool) -> (out: Option<Vec<u8>>)
        ensures
            final(self)@ == old(self)@.after_output(),
            spec_emitted(
                old(self)@,
                spec_mic_report(old(self)@.is_bt, old(self)@.output_seq, enabled),
                out,
            ),
    {
        let buf = mic_report(self.is_bt, self.output_seq, enabled);
        self.advance();
        self.send_output_report(buf)
    }

    /// Sets the LED beside the microphone button.
    pub fn set_mic_led(&mut self, state: MicLedState) -> (out: Option<Vec<u8>>)
        ensures
            final(self)@ == old(self)@.after_output(),
            spec_emitted(
                old(self)@,
                spec_mic_led_report(old(self)@.is_bt, old(self)@.output_seq, state),
                out,
            ),
    {
        let buf = mic_led_report(self.is_bt, self.output_seq, state);
        self.advance();
        self.send_output_report(buf)
    }

    /// Sets an effect of the adaptive triggers for the sides named.
    pub fn set_trigger_effect(&mut self, left: bool, right: bool, mode: u8, params: &[u8]) -> (out:
        Option<Vec<u8>>)
        ensures
            final(self)@ == old(self)@.after_output(),
            spec_emitted(
                old(self)@,
                spec_trigger_effect_report(
                    old(self)@.is_bt,
                    old(self)@.output_seq,
                    left,
                    right,
                    mode,
                    params@,
                ),
                out,
            ),
    {
        let buf = trigger_effect_report(self.is_bt, self.output_seq, left, right, mode, params);
        self.advance();
        self.send_output_report(buf)
    }

    /// Takes the effect off both triggers.
    pub fn set_trigger_off(&mut self) -> (out: Option<Vec<u8>>)
        ensures
            final(self)@ == old(self)@.after_output(),
            spec_emitted(
                old(self)@,
                spec_trigger_effect_report(
                    old(self)@.is_bt,
                    old(self)@.output_seq,
                    true,
                    true,
                    DS_TRIGGER_EFFECT_OFF,
                    Seq::new(10, |i: int| 0u8),
                ),
                out,
            ),
    {
        let zeros: [u8; 10] = [0, 0, 0, 0, 0, 0, 0, 0, 0, 0];
        assert(zeros@ == Seq::new(10, |i: int| 0u8));
        self.set_trigger_effect(true, true, DS_TRIGGER_EFFECT_OFF, zeros.as_slice())
    }
}

/// After `n` output reports a session that began at zero carries the
/// sequence number `n mod 16` over Bluetooth, and zero over USB.
pub proof fn lemma_output_seq_counts_reports(start: SessionView, n: nat)
    requires
        start.output_seq == 0,
    ensures
        start.is_bt ==> start.after_outputs(n).output_seq == n % 16,
        !start.is_bt ==> start.after_outputs(n).output_seq == 0,
        start.after_outputs(n) == (SessionView {
            output_seq: start.after_outputs(n).output_seq,
            ..start
        }),
    decreases n,
{
    if n > 0 {
        let m = (n - 1) as nat;
        lemma_output_seq_counts_reports(start, m);
        let before = start.after_outputs(m);
        assert(start.after_outputs(n) == before.after_output());
        if start.is_bt {
            let k = before.output_seq as int;
            assert(k == m % 16);
            assert((k + 1) % 16 == n % 16);
        }
    }
}

/// What goes out is well framed: a report of the length and with the id of
/// its transport leaves with both and, over Bluetooth, with the checksum
/// of the seed byte and its first 74 bytes in the last four.
pub proof fn lemma_sealed_report_is_framed(is_bt: bool, report: Seq<u8>)
    requires
        report.len() == spec_output_size(is_bt),
        report[0] == spec_output_id(is_bt),
    ensures
        spec_is_output_frame(is_bt, spec_sealed(is_bt, report)),
        is_bt ==> spec_sealed(is_bt, report).subrange(74, 78) == crate::bytes::spec_u32_to_le(
            crate::crc32::crc32_iso_hdlc(
                seq![crate::crc32::OUTPUT_CRC32_SEED] + spec_sealed(is_bt, report).subrange(0, 74),
            ),
        ),
        !is_bt ==> spec_sealed(is_bt, report) == report,
{
    if is_bt {
        let sealed = spec_sealed(is_bt, report);
        assert(sealed.subrange(0, 74) == report.subrange(0, 74));
        assert(sealed.subrange(74, 78) == crate::bytes::spec_u32_to_le(spec_report_crc(report)));
        assert(crate::crc32::spec_crc_input(sealed) == crate::crc32::spec_crc_input(report));
    }
}

} // verus!

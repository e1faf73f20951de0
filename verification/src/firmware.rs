use crate::bytes::{spec_u16_le, u16_from_le};
use crate::common::{DSE_PID, DS_PID, FIRMWARE_SIZE};
use crate::text::{push_decimal, push_hex2, push_hex4, spec_decimal, spec_hex2, spec_hex4};
use vstd::prelude::*;
use vstd::string::StringExecFns;

verus! {

/// Id of the feature report that carries firmware data and commands.
pub const DS_FEATURE_REPORT_FW: u8 = 0xf4;

/// Id of the feature report that tells how the update is going.
pub const DS_FEATURE_REPORT_FW_STATUS: u8 = 0xf5;

/// Least charge in percent with which an update begins.
pub const DS_BATTERY_THRESHOLD: u8 = 10;

/// Length of a firmware feature report.
pub const FW_REPORT_SIZE: usize = 64;

/// Most firmware bytes that one feature report carries.
pub const FW_CHUNK_SIZE: usize = 57;

/// Length of the prologue of a firmware image.
pub const FW_PROLOGUE_SIZE: usize = 256;

/// Length of a page of the body of a firmware image.
pub const FW_PAGE_SIZE: usize = 0x8000;

/// Length of the header that names the device and version of an image.
pub const FW_HEADER_SIZE: usize = 0x80;

/// Offset in an image of the product id it is made for, little-endian.
pub const FW_PRODUCT_ID_OFFSET: usize = 0x62;

/// Offset in an image of its version, little-endian.
pub const FW_VERSION_OFFSET: usize = 0x78;

/// Phase byte of the packets of the prologue.
pub const FW_PHASE_START: u8 = 0x00;

/// Phase byte of the packets of the body.
pub const FW_PHASE_WRITE: u8 = 0x01;

/// Phase byte of the command that has the device verify the image.
pub const FW_PHASE_VERIFY: u8 = 0x02;

/// Phase byte of the command that ends the update.
pub const FW_PHASE_FINALIZE: u8 = 0x03;

/// How long the device may keep answering "busy" in one wait, in milliseconds.
pub const FW_STATUS_TIMEOUT_MS: u64 = 30000;

/// Pause between two polls of the status, in milliseconds.
pub const FW_POLL_PAUSE_MS: u64 = 10;

/// Pause after the first packet of the prologue, in milliseconds.
pub const FW_START_PAUSE_MS: u64 = 50;

/// Why an update does not begin or does not end well.
#[derive(Clone, Debug, PartialEq, Eq)]
pub enum FirmwareError {
    /// The controller is connected over Bluetooth.
    Bluetooth,
    /// The image has another length than a firmware image.
    InvalidSize { size: usize },
    /// No report arrived in time to read the battery from.
    BatteryTimeout,
    /// What arrived to read the battery from is not an input report.
    BatteryReport,
    /// The battery holds less than the least charge.
    BatteryLow { capacity: u8 },
    /// The image is shorter than its header.
    TooSmall,
    /// The image is made for another product.
    Incompatible { firmware: u16, device: u16 },
    /// A packet could not be sent.
    Send(String),
    /// The device could not be read.
    Transport(String),
    /// The device kept answering "busy" for too long.
    Timeout,
    /// The status is shorter than its phase and status bytes.
    ShortStatus { size: usize },
    /// The device is in another phase than the one that was begun.
    UnexpectedPhase { phase: u8, expected: u8 },
    /// The device refused the phase with this status.
    Status { expected: u8, status: u8 },
    /// There is no such phase to wait for.
    UnknownPhase { expected: u8 },
    /// The answer does not belong to what was asked of the device.
    OutOfOrder,
}

/// What a status byte means in a phase.
#[derive(Clone, Copy, Debug, PartialEq, Eq, Structural)]
pub enum StatusVerdict {
    /// The phase is complete.
    Done,
    /// The device is busy: ask again after a pause.
    Retry,
    /// The device refuses, with a status that is known.
    Rejected,
    /// The device answers with a status that is not known.
    Unknown,
    /// There is no such phase.
    NoSuchPhase,
}

/// The meaning of status byte `status` while waiting for phase `expected`.
pub open spec fn spec_classify_status(expected: u8, status: u8) -> StatusVerdict {
    if expected == FW_PHASE_START {
        if status == 0x00 {
            StatusVerdict::Done
        } else if status == 0x04 || status == 0x10 {
            StatusVerdict::Retry
        } else if status == 0x01 || status == 0x02 || status == 0x03 || status == 0x05 || status
            == 0x06 || status == 0x11 || status == 0xff {
            StatusVerdict::Rejected
        } else {
            StatusVerdict::Unknown
        }
    } else if expected == FW_PHASE_WRITE {
        if status == 0x00 || status == 0x03 {
            StatusVerdict::Done
        } else if status == 0x01 || status == 0x10 {
            StatusVerdict::Retry
        } else if status == 0x02 || status == 0x04 || status == 0x11 || status == 0xff {
            StatusVerdict::Rejected
        } else {
            StatusVerdict::Unknown
        }
    } else if expected == FW_PHASE_VERIFY {
        if status == 0x00 {
            StatusVerdict::Done
        } else if status == 0x10 {
            StatusVerdict::Retry
        } else if status == 0x01 || status == 0x02 || status == 0x03 || status == 0x04 || status
            == 0x11 || status == 0xff {
            StatusVerdict::Rejected
        } else {
            StatusVerdict::Unknown
        }
    } else {
        StatusVerdict::NoSuchPhase
    }
}

/// Says what a status byte means while waiting for a phase.
pub fn classify_status(expected: u8, status: u8) -> (verdict: StatusVerdict)
    ensures
        verdict == spec_classify_status(expected, status),
{
    match expected {
        0x00 => match status {
            0x00 => StatusVerdict::Done,
            0x04 | 0x10 => StatusVerdict::Retry,
            0x01 | 0x02 | 0x03 | 0x05 | 0x06 | 0x11 | 0xff => StatusVerdict::Rejected,
            _ => StatusVerdict::Unknown,
        },
        0x01 => match status {
            0x00 | 0x03 => StatusVerdict::Done,
            0x01 | 0x10 => StatusVerdict::Retry,
            0x02 | 0x04 | 0x11 | 0xff => StatusVerdict::Rejected,
            _ => StatusVerdict::Unknown,
        },
        0x02 => match status {
            0x00 => StatusVerdict::Done,
            0x10 => StatusVerdict::Retry,
            0x01 | 0x02 | 0x03 | 0x04 | 0x11 | 0xff => StatusVerdict::Rejected,
            _ => StatusVerdict::Unknown,
        },
        _ => StatusVerdict::NoSuchPhase,
    }
}

/// What the poll of a status says to do.
#[derive(Clone, Debug, PartialEq, Eq)]
pub enum PollOutcome {
    /// The phase is complete.
    Done,
    /// Ask again after a pause.
    Retry,
    /// The update has failed.
    Failed(FirmwareError),
}

/// What a status report says while waiting for phase `expected`: its byte 1
/// is the phase the device is in, its byte 2 the status of that phase.
pub open spec fn spec_read_status(expected: u8, report: Seq<u8>) -> PollOutcome {
    if report.len() < 3 {
        PollOutcome::Failed(FirmwareError::ShortStatus { size: report.len() as usize })
    } else if report[1] != expected {
        PollOutcome::Failed(FirmwareError::UnexpectedPhase { phase: report[1], expected })
    } else {
        match spec_classify_status(expected, report[2]) {
            StatusVerdict::Done => PollOutcome::Done,
            StatusVerdict::Retry => PollOutcome::Retry,
            StatusVerdict::Rejected | StatusVerdict::Unknown => PollOutcome::Failed(
                FirmwareError::Status { expected, status: report[2] },
            ),
            StatusVerdict::NoSuchPhase => PollOutcome::Failed(
                FirmwareError::UnknownPhase { expected },
            ),
        }
    }
}

/// Reads a status report while waiting for phase `expected`.
pub fn read_status(expected: u8, report: &[u8]) -> (outcome: PollOutcome)
    ensures
        outcome == spec_read_status(expected, report@),
{
    if report.len() < 3 {
        return PollOutcome::Failed(FirmwareError::ShortStatus { size: report.len() });
    }
    let phase = report[1];
    let status = report[2];
    if phase != expected {
        return PollOutcome::Failed(FirmwareError::UnexpectedPhase { phase, expected });
    }
    match classify_status(expected, status) {
        StatusVerdict::Done => PollOutcome::Done,
        StatusVerdict::Retry => PollOutcome::Retry,
        StatusVerdict::Rejected | StatusVerdict::Unknown => PollOutcome::Failed(
            FirmwareError::Status { expected, status },
        ),
        StatusVerdict::NoSuchPhase => PollOutcome::Failed(FirmwareError::UnknownPhase { expected }),
    }
}

/// A feature report of 64 zero bytes that begins with `id` and `phase`.
pub open spec fn spec_command_packet(id: u8, phase: u8) -> Seq<u8> {
    Seq::new(FW_REPORT_SIZE as nat, |i: int| 0u8).update(0, id).update(1, phase)
}

fn command_packet(id: u8, phase: u8) -> (buf: Vec<u8>)
    ensures
        buf@ == spec_command_packet(id, phase),
{
    let mut buf = vec![0u8; FW_REPORT_SIZE];
    assert(buf@ == Seq::new(FW_REPORT_SIZE as nat, |i: int| 0u8));
    buf[0] = id;
    buf[1] = phase;
    buf
}

/// The buffer to hand to the device when asking for the status of the update.
pub fn status_request() -> (buf: Vec<u8>)
    ensures
        buf@ == spec_command_packet(DS_FEATURE_REPORT_FW_STATUS, 0),
{
    command_packet(DS_FEATURE_REPORT_FW_STATUS, 0)
}

/// The command that has the device verify what it has received.
pub fn verify_packet() -> (buf: Vec<u8>)
    ensures
        buf@ == spec_command_packet(DS_FEATURE_REPORT_FW, FW_PHASE_VERIFY),
{
    command_packet(DS_FEATURE_REPORT_FW, FW_PHASE_VERIFY)
}

/// The command that ends the update.
pub fn finalize_packet() -> (buf: Vec<u8>)
    ensures
        buf@ == spec_command_packet(DS_FEATURE_REPORT_FW, FW_PHASE_FINALIZE),
{
    command_packet(DS_FEATURE_REPORT_FW, FW_PHASE_FINALIZE)
}

/// The feature report that carries `size` bytes of `firmware` from
/// `offset` on in phase `phase`: report id, phase, size, the bytes, zeros.
pub open spec fn spec_data_packet(phase: u8, firmware: Seq<u8>, offset: int, size: int) -> Seq<u8> {
    Seq::new(
        FW_REPORT_SIZE as nat,
        |i: int|
            if i == 0 {
                DS_FEATURE_REPORT_FW
            } else if i == 1 {
                phase
            } else if i == 2 {
                size as u8
            } else if i < 3 + size {
                firmware[offset + i - 3]
            } else {
                0u8
            },
    )
}

/// Makes the feature report that carries `size` bytes of `firmware` from `offset` on.
pub fn data_packet(phase: u8, firmware: &[u8], offset: usize, size: usize) -> (buf: Vec<u8>)
    requires
        size <= FW_CHUNK_SIZE,
        offset + size <= firmware@.len(),
    ensures
        buf@ == spec_data_packet(phase, firmware@, offset as int, size as int),
{
    let mut buf = command_packet(DS_FEATURE_REPORT_FW, phase);
    buf[2] = size as u8;
    let len = firmware.len();
    let mut i: usize = 0;
    while i < size
        invariant
            i <= size,
            size <= FW_CHUNK_SIZE,
            len == firmware@.len(),
            offset + size <= len,
            buf@ == spec_data_packet(phase, firmware@, offset as int, i as int).update(
                2,
                size as u8,
            ),
        decreases size - i,
    {
        buf[3 + i] = firmware[offset + i];
        i += 1;
    }
    buf
}

/// How many bytes the packet of the prologue at `offset` carries.
pub open spec fn spec_prologue_chunk(offset: int) -> int {
    if FW_PROLOGUE_SIZE - offset < FW_CHUNK_SIZE {
        FW_PROLOGUE_SIZE - offset
    } else {
        FW_CHUNK_SIZE as int
    }
}

/// The end of the page of the body that holds `offset`. The body begins
/// behind the prologue and is cut into pages of `FW_PAGE_SIZE` bytes.
pub open spec fn spec_page_end(offset: int) -> int {
    FW_PROLOGUE_SIZE + ((offset - FW_PROLOGUE_SIZE) / (FW_PAGE_SIZE as int) + 1) * FW_PAGE_SIZE
}

/// How many bytes the packet of the body at `offset` carries in an image
/// of `total` bytes: a chunk, or less where the page or the image ends.
pub open spec fn spec_body_chunk(total: int, offset: int) -> int {
    let to_page_end = spec_page_end(offset) - offset;
    let to_end = total - offset;
    let a = if to_page_end < FW_CHUNK_SIZE {
        to_page_end
    } else {
        FW_CHUNK_SIZE as int
    };
    if to_end < a {
        to_end
    } else {
        a
    }
}

/// Size of the packet of the prologue at `offset`.
pub fn prologue_chunk(offset: usize) -> (size: usize)
    requires
        offset < FW_PROLOGUE_SIZE,
    ensures
        size == spec_prologue_chunk(offset as int),
        1 <= size <= FW_CHUNK_SIZE,
        offset + size <= FW_PROLOGUE_SIZE,
{
    let remaining = FW_PROLOGUE_SIZE - offset;
    if remaining < FW_CHUNK_SIZE {
        remaining
    } else {
        FW_CHUNK_SIZE
    }
}

/// Size of the packet of the body at `offset` in an image of `total` bytes.
pub fn body_chunk(total: usize, offset: usize) -> (size: usize)
    requires
        FW_PROLOGUE_SIZE <= offset < total,
        total <= FIRMWARE_SIZE,
    ensures
        size == spec_body_chunk(total as int, offset as int),
        1 <= size <= FW_CHUNK_SIZE,
        offset + size <= total,
{
    let in_page = (offset - FW_PROLOGUE_SIZE) % FW_PAGE_SIZE;
    let to_page_end = FW_PAGE_SIZE - in_page;
    let to_end = total - offset;
    let a = if to_page_end < FW_CHUNK_SIZE {
        to_page_end
    } else {
        FW_CHUNK_SIZE
    };
    if to_end < a {
        to_end
    } else {
        a
    }
}

/// The progress in percent once `written` bytes of a body of `body_len`
/// bytes are written: from 5 to 95, in proportion.
pub open spec fn spec_body_progress(written: int, body_len: int) -> u32 {
    let p = written * 90 / (if body_len < 1 {
        1
    } else {
        body_len
    }) + 5;
    if p > 95 {
        95
    } else {
        p as u32
    }
}

/// Progress once `written` bytes of the body of a firmware image are written.
pub fn body_progress(written: usize) -> (p: u32)
    requires
        written <= FIRMWARE_SIZE - FW_PROLOGUE_SIZE,
    ensures
        p == spec_body_progress(written as int, FIRMWARE_SIZE - FW_PROLOGUE_SIZE),
        5 <= p <= 95,
{
    let p = (written as u64) * 90 / ((FIRMWARE_SIZE - FW_PROLOGUE_SIZE) as u64) + 5;
    if p > 95 {
        95
    } else {
        p as u32
    }
}

/// The name of the step that waits for phase `expected`.
pub open spec fn spec_phase_name(expected: u8) -> Seq<char> {
    if expected == FW_PHASE_START {
        "Start"@
    } else if expected == FW_PHASE_WRITE {
        "Write"@
    } else {
        "Verify"@
    }
}

/// What a status with which the device refuses a phase means.
pub open spec fn spec_status_reason(expected: u8, status: u8) -> Seq<char> {
    if status == 0xff {
        "internal error"@
    } else if status == 0x01 {
        "firmware rejected"@
    } else if status == 0x05 {
        "battery or power error"@
    } else if status == 0x06 {
        "temperature or safety error"@
    } else if expected == FW_PHASE_WRITE && (status == 0x02 || status == 0x04) {
        "invalid firmware data"@
    } else if expected == FW_PHASE_VERIFY && status == 0x02 {
        "checksum mismatch"@
    } else {
        "invalid firmware"@
    }
}

fn phase_name(expected: u8) -> (name: &'static str)
    ensures
        name@ == spec_phase_name(expected),
{
    if expected == FW_PHASE_START {
        "Start"
    } else if expected == FW_PHASE_WRITE {
        "Write"
    } else {
        "Verify"
    }
}

fn status_reason(expected: u8, status: u8) -> (reason: &'static str)
    ensures
        reason@ == spec_status_reason(expected, status),
{
    if status == 0xff {
        "internal error"
    } else if status == 0x01 {
        "firmware rejected"
    } else if status == 0x05 {
        "battery or power error"
    } else if status == 0x06 {
        "temperature or safety error"
    } else if expected == FW_PHASE_WRITE && (status == 0x02 || status == 0x04) {
        "invalid firmware data"
    } else if expected == FW_PHASE_VERIFY && status == 0x02 {
        "checksum mismatch"
    } else {
        "invalid firmware"
    }
}

impl FirmwareError {
    /// The text of this error.
    pub open spec fn spec_message(self) -> Seq<char> {
        match self {
            FirmwareError::Bluetooth => "Firmware update not supported over Bluetooth."@,
            FirmwareError::InvalidSize { size } => "Invalid firmware size: "@ + spec_decimal(
                size as nat,
            ) + " bytes (expected "@ + spec_decimal(FIRMWARE_SIZE as nat) + ")"@,
            FirmwareError::BatteryTimeout => "Timeout"@,
            FirmwareError::BatteryReport => "Invalid report received"@,
            FirmwareError::BatteryLow { capacity } => "Battery too low: "@ + spec_decimal(
                capacity as nat,
            ) + "% (need at least "@ + spec_decimal(DS_BATTERY_THRESHOLD as nat) + "%)"@,
            FirmwareError::TooSmall => "Firmware file too small"@,
            FirmwareError::Incompatible { firmware, device } =>
                "Firmware incompatible. Firmware device: 0x"@ + spec_hex4(firmware, true)
                    + ", Connected device: 0x"@ + spec_hex4(device, true),
            FirmwareError::Send(cause) => "Failed to send firmware data: "@ + cause@
                + ".\n                    Controller may have disconnected."@,
            FirmwareError::Transport(cause) => cause@,
            FirmwareError::Timeout => "Firmware update timeout"@,
            FirmwareError::ShortStatus { size } => "Status report too short: "@ + spec_decimal(
                size as nat,
            ) + " bytes"@,
            FirmwareError::UnexpectedPhase { phase, expected } => "Unexpected phase: 0x"@
                + spec_hex2(phase, false) + " (expected 0x"@ + spec_hex2(expected, false) + ")"@,
            FirmwareError::Status { expected, status } => if spec_classify_status(expected, status)
                == StatusVerdict::Rejected {
                spec_phase_name(expected) + " error 0x"@ + spec_hex2(status, true) + ": "@
                    + spec_status_reason(expected, status)
            } else {
                spec_phase_name(expected) + " unknown status: 0x"@ + spec_hex2(status, false)
            },
            FirmwareError::UnknownPhase { expected } => "Unknown phase: 0x"@ + spec_hex2(
                expected,
                false,
            ),
            FirmwareError::OutOfOrder => "Unexpected answer from the device"@,
        }
    }

    /// Writes this error out for a reader.
    pub fn message(&self) -> (text: String)
        ensures
            text@ == self.spec_message(),
    {
        match self {
            FirmwareError::Bluetooth => "Firmware update not supported over Bluetooth.".to_owned(),
            FirmwareError::InvalidSize { size } => {
                let text = "Invalid firmware size: ".to_owned();
                let text = push_decimal(text, *size as u64);
                let text = text.concat(" bytes (expected ");
                let text = push_decimal(text, FIRMWARE_SIZE as u64);
                text.concat(")")
            },
            FirmwareError::BatteryTimeout => "Timeout".to_owned(),
            FirmwareError::BatteryReport => "Invalid report received".to_owned(),
            FirmwareError::BatteryLow { capacity } => {
                let text = "Battery too low: ".to_owned();
                let text = push_decimal(text, *capacity as u64);
                let text = text.concat("% (need at least ");
                let text = push_decimal(text, DS_BATTERY_THRESHOLD as u64);
                text.concat("%)")
            },
            FirmwareError::TooSmall => "Firmware file too small".to_owned(),
            FirmwareError::Incompatible { firmware, device } => {
                let text = "Firmware incompatible. Firmware device: 0x".to_owned();
                let text = push_hex4(text, *firmware, true);
                let text = text.concat(", Connected device: 0x");
                push_hex4(text, *device, true)
            },
            FirmwareError::Send(cause) => {
                let text = "Failed to send firmware data: ".to_owned();
                let text = text.concat(cause.as_str());
                text.concat(".\n                    Controller may have disconnected.")
            },
            FirmwareError::Transport(cause) => cause.clone(),
            FirmwareError::Timeout => "Firmware update timeout".to_owned(),
            FirmwareError::ShortStatus { size } => {
                let text = "Status report too short: ".to_owned();
                let text = push_decimal(text, *size as u64);
                text.concat(" bytes")
            },
            FirmwareError::UnexpectedPhase { phase, expected } => {
                let text = "Unexpected phase: 0x".to_owned();
                let text = push_hex2(text, *phase, false);
                let text = text.concat(" (expected 0x");
                let text = push_hex2(text, *expected, false);
                text.concat(")")
            },
            FirmwareError::Status { expected, status } => {
                let text = phase_name(*expected).to_owned();
                match classify_status(*expected, *status) {
                    StatusVerdict::Rejected => {
                        let text = text.concat(" error 0x");
                        let text = push_hex2(text, *status, true);
                        let text = text.concat(": ");
                        text.concat(status_reason(*expected, *status))
                    },
                    _ => {
                        let text = text.concat(" unknown status: 0x");
                        push_hex2(text, *status, false)
                    },
                }
            },
            FirmwareError::UnknownPhase { expected } => {
                let text = "Unknown phase: 0x".to_owned();
                push_hex2(text, *expected, false)
            },
            FirmwareError::OutOfOrder => "Unexpected answer from the device".to_owned(),
        }
    }
}

/// What the two checks before anything is read say of an update: it goes
/// over USB only, and the image has the length of a firmware image.
pub open spec fn spec_check_update_request(is_bt: bool, firmware_len: nat) -> Result<
    (),
    FirmwareError,
> {
    if is_bt {
        Err(FirmwareError::Bluetooth)
    } else if firmware_len != FIRMWARE_SIZE {
        Err(FirmwareError::InvalidSize { size: firmware_len as usize })
    } else {
        Ok(())
    }
}

/// Checks transport and image length, in this order.
pub fn check_update_request(is_bt: bool, firmware_len: usize) -> (r: Result<(), FirmwareError>)
    ensures
        r == spec_check_update_request(is_bt, firmware_len as nat),
{
    if is_bt {
        Err(FirmwareError::Bluetooth)
    } else if firmware_len != FIRMWARE_SIZE {
        Err(FirmwareError::InvalidSize { size: firmware_len })
    } else {
        Ok(())
    }
}

/// What the check of the charge says.
pub open spec fn spec_check_battery_level(capacity: u8) -> Result<(), FirmwareError> {
    if capacity < DS_BATTERY_THRESHOLD {
        Err(FirmwareError::BatteryLow { capacity })
    } else {
        Ok(())
    }
}

/// Checks that the battery holds the least charge for an update.
pub fn check_battery_level(capacity: u8) -> (r: Result<(), FirmwareError>)
    ensures
        r == spec_check_battery_level(capacity),
{
    if capacity < DS_BATTERY_THRESHOLD {
        Err(FirmwareError::BatteryLow { capacity })
    } else {
        Ok(())
    }
}

/// The product id for which an image is made.
pub open spec fn spec_firmware_product_id(firmware: Seq<u8>) -> u16 {
    spec_u16_le(firmware[FW_PRODUCT_ID_OFFSET as int], firmware[FW_PRODUCT_ID_OFFSET + 1])
}

/// The version of an image.
pub open spec fn spec_firmware_version(firmware: Seq<u8>) -> u16 {
    spec_u16_le(firmware[FW_VERSION_OFFSET as int], firmware[FW_VERSION_OFFSET + 1])
}

/// What the check of an image against a device says.
pub open spec fn spec_check_firmware_compatibility(product_id: u16, firmware: Seq<u8>) -> Result<
    (),
    FirmwareError,
> {
    if firmware.len() < FW_HEADER_SIZE {
        Err(FirmwareError::TooSmall)
    } else if spec_firmware_product_id(firmware) != product_id {
        Err(
            FirmwareError::Incompatible {
                firmware: spec_firmware_product_id(firmware),
                device: product_id,
            },
        )
    } else {
        Ok(())
    }
}

/// Checks that an image is made for the product with id `product_id`.
pub fn check_firmware_compatibility(product_id: u16, firmware: &[u8]) -> (r: Result<
    (),
    FirmwareError,
>)
    ensures
        r == spec_check_firmware_compatibility(product_id, firmware@),
{
    if firmware.len() < FW_HEADER_SIZE {
        return Err(FirmwareError::TooSmall);
    }
    let fw_product_id = u16_from_le(
        firmware[FW_PRODUCT_ID_OFFSET],
        firmware[FW_PRODUCT_ID_OFFSET + 1],
    );
    if fw_product_id != product_id {
        return Err(FirmwareError::Incompatible { firmware: fw_product_id, device: product_id });
    }
    Ok(())
}

/// Reads the version of an image; an image shorter than its header has none.
pub fn firmware_version(firmware: &[u8]) -> (version: Option<u16>)
    ensures
        firmware@.len() < FW_HEADER_SIZE ==> version is None,
        firmware@.len() >= FW_HEADER_SIZE ==> version == Some(spec_firmware_version(firmware@)),
{
    if firmware.len() < FW_HEADER_SIZE {
        None
    } else {
        Some(u16_from_le(firmware[FW_VERSION_OFFSET], firmware[FW_VERSION_OFFSET + 1]))
    }
}

/// The name of a product.
pub open spec fn spec_product_name(product_id: u16) -> Seq<char> {
    if product_id == DS_PID {
        "DualSense"@
    } else if product_id == DSE_PID {
        "DualSense Edge"@
    } else {
        "Unknown"@
    }
}

pub fn get_product_name(product_id: u16) -> (name: &'static str)
    ensures
        name@ == spec_product_name(product_id),
{
    if product_id == DS_PID {
        "DualSense"
    } else if product_id == DSE_PID {
        "DualSense Edge"
    } else {
        "Unknown"
    }
}

} // verus!

use crate::bytes::{i16_from_le, spec_i16_le, spec_u32_le, u32_from_le};
use crate::inputs::{
    ControllerState, TouchPoint, BTN_CIRCLE, BTN_CREATE, BTN_CROSS, BTN_L1, BTN_L2, BTN_L3,
    BTN_MUTE, BTN_OPTIONS, BTN_PS, BTN_R1, BTN_R2, BTN_R3, BTN_SQUARE, BTN_TOUCHPAD,
    BTN_TRIANGLE, TOUCHPAD_MAX_X, TOUCHPAD_MAX_Y,
};
use vstd::prelude::*;
use vstd::slice::slice_subrange;

verus! {

/// Report id of an input report over USB.
pub const DS_INPUT_REPORT_USB: u8 = 0x01;

/// Length of an input report over USB.
pub const DS_INPUT_REPORT_USB_SIZE: usize = 64;

/// Report id of an input report over Bluetooth.
pub const DS_INPUT_REPORT_BT: u8 = 0x31;

/// Length of an input report over Bluetooth.
pub const DS_INPUT_REPORT_BT_SIZE: usize = 78;

/// Why a report that was read is not taken.
#[derive(Clone, Copy, Debug, PartialEq, Eq, Structural)]
pub enum ReportError {
    /// Nothing arrived before the read timed out.
    Timeout,
    /// The report has another id or another length than the transport's input report.
    Unexpected { id: u8, size: usize, expected_id: u8, expected_size: usize },
}

/// Id of the input report of a transport.
pub open spec fn spec_input_id(is_bt: bool) -> u8 {
    if is_bt {
        DS_INPUT_REPORT_BT
    } else {
        DS_INPUT_REPORT_USB
    }
}

/// Length of the input report of a transport.
pub open spec fn spec_input_size(is_bt: bool) -> usize {
    if is_bt {
        DS_INPUT_REPORT_BT_SIZE
    } else {
        DS_INPUT_REPORT_USB_SIZE
    }
}

/// Index in an input report at which the payload begins.
pub open spec fn spec_payload_offset(is_bt: bool) -> int {
    if is_bt {
        2
    } else {
        1
    }
}

/// What `check_input_frame` answers for a report.
pub open spec fn spec_check_input_frame(is_bt: bool, report: Seq<u8>) -> Result<(), ReportError> {
    if report.len() == 0 {
        Err(ReportError::Timeout)
    } else if report[0] != spec_input_id(is_bt) || report.len() != spec_input_size(is_bt) {
        Err(
            ReportError::Unexpected {
                id: report[0],
                size: report.len() as usize,
                expected_id: spec_input_id(is_bt),
                expected_size: spec_input_size(is_bt),
            },
        )
    } else {
        Ok(())
    }
}

/// Tests that `report`, the bytes of one read, is an input report of the
/// transport: not empty, with the transport's id and length.
pub fn check_input_frame(is_bt: bool, report: &[u8]) -> (r: Result<(), ReportError>)
    ensures
        r == spec_check_input_frame(is_bt, report@),
{
    if report.len() == 0 {
        return Err(ReportError::Timeout);
    }
    let (id, expected_size) = if is_bt {
        (DS_INPUT_REPORT_BT, DS_INPUT_REPORT_BT_SIZE)
    } else {
        (DS_INPUT_REPORT_USB, DS_INPUT_REPORT_USB_SIZE)
    };
    if report[0] != id || report.len() != expected_size {
        return Err(
            ReportError::Unexpected {
                id: report[0],
                size: report.len(),
                expected_id: id,
                expected_size,
            },
        );
    }
    Ok(())
}

/// `mask` if `on`, else nothing: one row of a bit table.
pub open spec fn spec_flag(on: bool, mask: u32) -> int {
    if on {
        mask as int
    } else {
        0
    }
}

/// The bits of square, cross, circle and triangle, which the first status byte holds.
pub open spec fn spec_face_buttons(b0: u8) -> int {
    spec_flag(b0 & 0x10 != 0, BTN_SQUARE) + spec_flag(b0 & 0x20 != 0, BTN_CROSS) + spec_flag(
        b0 & 0x40 != 0,
        BTN_CIRCLE,
    ) + spec_flag(b0 & 0x80 != 0, BTN_TRIANGLE)
}

/// The bits of the shoulder buttons, create, options and the stick buttons,
/// which the second status byte holds.
pub open spec fn spec_shoulder_buttons(b1: u8) -> int {
    spec_flag(b1 & 0x01 != 0, BTN_L1) + spec_flag(b1 & 0x02 != 0, BTN_R1) + spec_flag(
        b1 & 0x04 != 0,
        BTN_L2,
    ) + spec_flag(b1 & 0x08 != 0, BTN_R2) + spec_flag(b1 & 0x10 != 0, BTN_CREATE) + spec_flag(
        b1 & 0x20 != 0,
        BTN_OPTIONS,
    ) + spec_flag(b1 & 0x40 != 0, BTN_L3) + spec_flag(b1 & 0x80 != 0, BTN_R3)
}

/// The bits of PS, touchpad and mute, which the third status byte holds.
pub open spec fn spec_system_buttons(b2: u8) -> int {
    spec_flag(b2 & 0x01 != 0, BTN_PS) + spec_flag(b2 & 0x02 != 0, BTN_TOUCHPAD) + spec_flag(
        b2 & 0x04 != 0,
        BTN_MUTE,
    )
}

/// The button mask that the three status bytes of a payload stand for.
pub open spec fn spec_decode_buttons(b0: u8, b1: u8, b2: u8) -> u32 {
    (spec_face_buttons(b0) + spec_shoulder_buttons(b1) + spec_system_buttons(b2)) as u32
}

fn flag(on: bool, mask: u32) -> (v: u32)
    ensures
        v == spec_flag(on, mask),
        v <= mask,
{
    if on {
        mask
    } else {
        0
    }
}

fn face_buttons(b0: u8) -> (v: u32)
    ensures
        v == spec_face_buttons(b0),
        v <= 0x000f,
{
    flag(b0 & 0x10 != 0, BTN_SQUARE) + flag(b0 & 0x20 != 0, BTN_CROSS) + flag(
        b0 & 0x40 != 0,
        BTN_CIRCLE,
    ) + flag(b0 & 0x80 != 0, BTN_TRIANGLE)
}

fn shoulder_buttons(b1: u8) -> (v: u32)
    ensures
        v == spec_shoulder_buttons(b1),
        v <= 0x0ff0,
{
    flag(b1 & 0x01 != 0, BTN_L1) + flag(b1 & 0x02 != 0, BTN_R1) + flag(b1 & 0x04 != 0, BTN_L2)
        + flag(b1 & 0x08 != 0, BTN_R2) + flag(b1 & 0x10 != 0, BTN_CREATE) + flag(
        b1 & 0x20 != 0,
        BTN_OPTIONS,
    ) + flag(b1 & 0x40 != 0, BTN_L3) + flag(b1 & 0x80 != 0, BTN_R3)
}

fn system_buttons(b2: u8) -> (v: u32)
    ensures
        v == spec_system_buttons(b2),
        v <= 0x7000,
{
    flag(b2 & 0x01 != 0, BTN_PS) + flag(b2 & 0x02 != 0, BTN_TOUCHPAD) + flag(
        b2 & 0x04 != 0,
        BTN_MUTE,
    )
}

/// Decodes the three button status bytes of a payload into a button mask.
pub fn decode_buttons(b0: u8, b1: u8, b2: u8) -> (mask: u32)
    ensures
        mask == spec_decode_buttons(b0, b1, b2),
        mask <= 0x7fff,
{
    face_buttons(b0) + shoulder_buttons(b1) + system_buttons(b2)
}

/// The four button bits of the first status byte, taken together, are
/// its high half.
proof fn lemma_face_bits(b0: u8)
    by (bit_vector)
    ensures
        (if b0 & 0x10 != 0 {
            1u32
        } else {
            0u32
        }) + (if b0 & 0x20 != 0 {
            2u32
        } else {
            0u32
        }) + (if b0 & 0x40 != 0 {
            4u32
        } else {
            0u32
        }) + (if b0 & 0x80 != 0 {
            8u32
        } else {
            0u32
        }) == (b0 as u32) >> 4,
{
}

/// The eight button bits of the second status byte, taken together, are
/// the byte, four places up.
proof fn lemma_shoulder_bits(b1: u8)
    by (bit_vector)
    ensures
        (if b1 & 0x01 != 0 {
            0x0010u32
        } else {
            0u32
        }) + (if b1 & 0x02 != 0 {
            0x0020u32
        } else {
            0u32
        }) + (if b1 & 0x04 != 0 {
            0x0040u32
        } else {
            0u32
        }) + (if b1 & 0x08 != 0 {
            0x0080u32
        } else {
            0u32
        }) + (if b1 & 0x10 != 0 {
            0x0100u32
        } else {
            0u32
        }) + (if b1 & 0x20 != 0 {
            0x0200u32
        } else {
            0u32
        }) + (if b1 & 0x40 != 0 {
            0x0400u32
        } else {
            0u32
        }) + (if b1 & 0x80 != 0 {
            0x0800u32
        } else {
            0u32
        }) == (b1 as u32) << 4,
{
}

/// The three button bits of the third status byte, taken together, are
/// its low three bits, twelve places up.
proof fn lemma_system_bits(b2: u8)
    by (bit_vector)
    ensures
        (if b2 & 0x01 != 0 {
            0x1000u32
        } else {
            0u32
        }) + (if b2 & 0x02 != 0 {
            0x2000u32
        } else {
            0u32
        }) + (if b2 & 0x04 != 0 {
            0x4000u32
        } else {
            0u32
        }) == ((b2 as u32) & 7) << 12,
{
}

proof fn lemma_face_value(b0: u8)
    ensures
        spec_face_buttons(b0) == (b0 as u32) >> 4,
        spec_face_buttons(b0) <= 0x000f,
{
    lemma_face_bits(b0);
    assert((b0 as u32) >> 4 <= 0x000f) by (bit_vector);
}

proof fn lemma_shoulder_value(b1: u8)
    ensures
        spec_shoulder_buttons(b1) == (b1 as u32) << 4,
        spec_shoulder_buttons(b1) <= 0x0ff0,
{
    lemma_shoulder_bits(b1);
    assert((b1 as u32) << 4 <= 0x0ff0) by (bit_vector);
}

proof fn lemma_system_value(b2: u8)
    ensures
        spec_system_buttons(b2) == ((b2 as u32) & 7) << 12,
        spec_system_buttons(b2) <= 0x7000,
{
    lemma_system_bits(b2);
    assert(((b2 as u32) & 7) << 12 <= 0x7000) by (bit_vector);
}

/// The bits of a mask that is put together from the three status bytes.
proof fn lemma_joined_bits(b0: u8, b1: u8, b2: u8, m: u32)
    by (bit_vector)
    requires
        m == ((b0 as u32) >> 4) + ((b1 as u32) << 4) + (((b2 as u32) & 7) << 12),
    ensures
        m <= 0x7fff,
        (m & 0x0001 != 0) == (b0 & 0x10 != 0),
        (m & 0x0002 != 0) == (b0 & 0x20 != 0),
        (m & 0x0004 != 0) == (b0 & 0x40 != 0),
        (m & 0x0008 != 0) == (b0 & 0x80 != 0),
        (m & 0x0010 != 0) == (b1 & 0x01 != 0),
        (m & 0x0020 != 0) == (b1 & 0x02 != 0),
        (m & 0x0040 != 0) == (b1 & 0x04 != 0),
        (m & 0x0080 != 0) == (b1 & 0x08 != 0),
        (m & 0x0100 != 0) == (b1 & 0x10 != 0),
        (m & 0x0200 != 0) == (b1 & 0x20 != 0),
        (m & 0x0400 != 0) == (b1 & 0x40 != 0),
        (m & 0x0800 != 0) == (b1 & 0x80 != 0),
        (m & 0x1000 != 0) == (b2 & 0x01 != 0),
        (m & 0x2000 != 0) == (b2 & 0x02 != 0),
        (m & 0x4000 != 0) == (b2 & 0x04 != 0),
{
}

/// The button mask follows the table of the input report: a button's bit
/// is set in the mask exactly when its bit is set in its status byte, and
/// the mask holds no other bit.
pub proof fn lemma_buttons_follow_the_table(b0: u8, b1: u8, b2: u8)
    ensures
        spec_decode_buttons(b0, b1, b2) <= 0x7fff,
        (spec_decode_buttons(b0, b1, b2) & BTN_SQUARE != 0) == (b0 & 0x10 != 0),
        (spec_decode_buttons(b0, b1, b2) & BTN_CROSS != 0) == (b0 & 0x20 != 0),
        (spec_decode_buttons(b0, b1, b2) & BTN_CIRCLE != 0) == (b0 & 0x40 != 0),
        (spec_decode_buttons(b0, b1, b2) & BTN_TRIANGLE != 0) == (b0 & 0x80 != 0),
        (spec_decode_buttons(b0, b1, b2) & BTN_L1 != 0) == (b1 & 0x01 != 0),
        (spec_decode_buttons(b0, b1, b2) & BTN_R1 != 0) == (b1 & 0x02 != 0),
        (spec_decode_buttons(b0, b1, b2) & BTN_L2 != 0) == (b1 & 0x04 != 0),
        (spec_decode_buttons(b0, b1, b2) & BTN_R2 != 0) == (b1 & 0x08 != 0),
        (spec_decode_buttons(b0, b1, b2) & BTN_CREATE != 0) == (b1 & 0x10 != 0),
        (spec_decode_buttons(b0, b1, b2) & BTN_OPTIONS != 0) == (b1 & 0x20 != 0),
        (spec_decode_buttons(b0, b1, b2) & BTN_L3 != 0) == (b1 & 0x40 != 0),
        (spec_decode_buttons(b0, b1, b2) & BTN_R3 != 0) == (b1 & 0x80 != 0),
        (spec_decode_buttons(b0, b1, b2) & BTN_PS != 0) == (b2 & 0x01 != 0),
        (spec_decode_buttons(b0, b1, b2) & BTN_TOUCHPAD != 0) == (b2 & 0x02 != 0),
        (spec_decode_buttons(b0, b1, b2) & BTN_MUTE != 0) == (b2 & 0x04 != 0),
{
    lemma_face_value(b0);
    lemma_shoulder_value(b1);
    lemma_system_value(b2);
    let m = spec_decode_buttons(b0, b1, b2);
    lemma_joined_bits(b0, b1, b2, m);
}

/// The touch point that four bytes of a payload stand for: the first byte
/// holds the id and, in its top bit, whether the finger is lifted; the other
/// three hold twelve bits of `x` and twelve of `y`, which are clamped to the
/// pad. A lifted finger decodes to the default point.
pub open spec fn spec_decode_touch(b0: u8, b1: u8, b2: u8, b3: u8) -> TouchPoint {
    if b0 & 0x80 == 0 {
        let x = (b1 as u16) | (((b2 & 0x0f) as u16) << 8);
        let y = ((b2 >> 4) as u16) | ((b3 as u16) << 4);
        TouchPoint {
            active: true,
            id: b0 & 0x7f,
            x: if x < TOUCHPAD_MAX_X {
                x
            } else {
                (TOUCHPAD_MAX_X - 1) as u16
            },
            y: if y < TOUCHPAD_MAX_Y {
                y
            } else {
                (TOUCHPAD_MAX_Y - 1) as u16
            },
        }
    } else {
        TouchPoint::spec_default()
    }
}

/// Decodes one touch point from its four bytes.
pub fn decode_touch(b0: u8, b1: u8, b2: u8, b3: u8) -> (p: TouchPoint)
    ensures
        p == spec_decode_touch(b0, b1, b2, b3),
        p.wf(),
        p.active == (b0 & 0x80 == 0),
{
    assert(b0 & 0x7f < 0x80) by (bit_vector);
    if b0 & 0x80 == 0 {
        let x: u16 = (b1 as u16) | (((b2 & 0x0f) as u16) << 8);
        let y: u16 = ((b2 >> 4) as u16) | ((b3 as u16) << 4);
        TouchPoint {
            active: true,
            id: b0 & 0x7f,
            x: if x < TOUCHPAD_MAX_X {
                x
            } else {
                TOUCHPAD_MAX_X - 1
            },
            y: if y < TOUCHPAD_MAX_Y {
                y
            } else {
                TOUCHPAD_MAX_Y - 1
            },
        }
    } else {
        TouchPoint::default()
    }
}

/// How many of two touch points are active.
pub open spec fn spec_touch_count(first: TouchPoint, second: TouchPoint) -> u8 {
    ((if first.active {
        1int
    } else {
        0int
    }) + (if second.active {
        1int
    } else {
        0int
    })) as u8
}

/// Whether `state` is what the payload `d` of an input report decodes to.
pub open spec fn spec_is_decoded(d: Seq<u8>, state: ControllerState) -> bool {
    &&& state.left_x == d[0]
    &&& state.left_y == d[1]
    &&& state.right_x == d[2]
    &&& state.right_y == d[3]
    &&& state.l2 == d[4]
    &&& state.r2 == d[5]
    &&& state.dpad == d[7] & 0x0f
    &&& state.buttons == spec_decode_buttons(d[7], d[8], d[9])
    &&& state.gyro@ == seq![
        spec_i16_le(d[15], d[16]),
        spec_i16_le(d[17], d[18]),
        spec_i16_le(d[19], d[20]),
    ]
    &&& state.accel@ == seq![
        spec_i16_le(d[21], d[22]),
        spec_i16_le(d[23], d[24]),
        spec_i16_le(d[25], d[26]),
    ]
    &&& state.sensor_timestamp == spec_u32_le(d[27], d[28], d[29], d[30])
    &&& state.touch_points@ == seq![
        spec_decode_touch(d[32], d[33], d[34], d[35]),
        spec_decode_touch(d[36], d[37], d[38], d[39]),
    ]
    &&& state.touch_count == spec_touch_count(state.touch_points[0], state.touch_points[1])
}

/// Decodes the payload of an input report: the bytes behind the transport's prefix.
pub fn decode_payload(d: &[u8]) -> (state: ControllerState)
    requires
        d@.len() >= 40,
    ensures
        spec_is_decoded(d@, state),
        state.touch_points[0].wf(),
        state.touch_points[1].wf(),
        state.touch_count <= 2,
        state.buttons <= 0x7fff,
{
    let first = decode_touch(d[32], d[33], d[34], d[35]);
    let second = decode_touch(d[36], d[37], d[38], d[39]);
    let mut touch_count: u8 = 0;
    if first.active {
        touch_count += 1;
    }
    if second.active {
        touch_count += 1;
    }
    ControllerState {
        left_x: d[0],
        left_y: d[1],
        right_x: d[2],
        right_y: d[3],
        l2: d[4],
        r2: d[5],
        buttons: decode_buttons(d[7], d[8], d[9]),
        dpad: d[7] & 0x0f,
        gyro: [
            i16_from_le(d[15], d[16]),
            i16_from_le(d[17], d[18]),
            i16_from_le(d[19], d[20]),
        ],
        accel: [
            i16_from_le(d[21], d[22]),
            i16_from_le(d[23], d[24]),
            i16_from_le(d[25], d[26]),
        ],
        sensor_timestamp: u32_from_le(d[27], d[28], d[29], d[30]),
        touch_count,
        touch_points: [first, second],
    }
}

/// What `decode_input_report` answers for the bytes of one read.
pub open spec fn spec_input_payload(is_bt: bool, report: Seq<u8>) -> Seq<u8> {
    report.subrange(spec_payload_offset(is_bt), report.len() as int)
}

/// Decodes the bytes of one read into a controller state. A read that timed
/// out, or a report of another id or length, is refused and nothing else is.
pub fn decode_input_report(is_bt: bool, report: &[u8]) -> (r: Result<ControllerState, ReportError>)
    ensures
        match r {
            Ok(state) => {
                &&& spec_check_input_frame(is_bt, report@) is Ok
                &&& spec_is_decoded(spec_input_payload(is_bt, report@), state)
                &&& state.touch_points[0].wf()
                &&& state.touch_points[1].wf()
                &&& state.touch_count <= 2
                &&& state.buttons <= 0x7fff
            },
            Err(e) => spec_check_input_frame(is_bt, report@) == Err::<(), ReportError>(e),
        },
{
    match check_input_frame(is_bt, report) {
        Err(e) => Err(e),
        Ok(()) => {
            let offset: usize = if is_bt {
                2
            } else {
                1
            };
            let payload = slice_subrange(report, offset, report.len());
            Ok(decode_payload(payload))
        },
    }
}

/// Id of the feature report that describes the running firmware.
pub const DS_FEATURE_REPORT_FIRMWARE_INFO: u8 = 0x20;

/// Least length of a firmware description that is taken.
pub const FIRMWARE_INFO_MIN_SIZE: usize = 50;

/// `s` without the zero bytes at its end.
pub open spec fn spec_trim_nuls(s: Seq<u8>) -> Seq<u8>
    decreases s.len(),
{
    if s.len() > 0 && s.last() == 0 {
        spec_trim_nuls(s.drop_last())
    } else {
        s
    }
}

/// Length of `bytes` without the zero bytes at its end.
pub fn trimmed_len(bytes: &[u8]) -> (n: usize)
    ensures
        n <= bytes@.len(),
        bytes@.subrange(0, n as int) == spec_trim_nuls(bytes@),
        n > 0 ==> bytes@[n - 1] != 0,
        forall|i: int| n <= i < bytes@.len() ==> bytes@[i] == 0,
{
    let mut n = bytes.len();
    proof {
        assert(bytes@.subrange(0, n as int) == bytes@);
    }
    while n > 0 && bytes[n - 1] == 0
        invariant
            n <= bytes@.len(),
            spec_trim_nuls(bytes@.subrange(0, n as int)) == spec_trim_nuls(bytes@),
            forall|i: int| n <= i < bytes@.len() ==> bytes@[i] == 0,
        decreases n,
    {
        proof {
            let cur = bytes@.subrange(0, n as int);
            assert(cur.drop_last() == bytes@.subrange(0, n - 1));
        }
        n = n - 1;
    }
    n
}

/// What `String::from_utf8_lossy` makes of a run of bytes: its characters,
/// with U+FFFD in the place of what is not UTF-8.
pub uninterp spec fn utf8_lossy(bytes: Seq<u8>) -> Seq<char>;

/// Calls `String::from_utf8_lossy` of the standard library, which decodes
/// UTF-8 and puts U+FFFD where the bytes are not UTF-8. The result is a
/// function of the bytes alone; the contract gives it its name.
#[verifier::external_body]
fn lossy_string(bytes: &[u8]) -> (s: String)
    ensures
        s@ == utf8_lossy(bytes@),
{
    String::from_utf8_lossy(bytes).into_owned()
}

/// The text that a field of a feature report holds: its bytes up to the
/// trailing zero bytes, decoded as UTF-8.
pub open spec fn spec_field_text(field: Seq<u8>) -> Seq<char> {
    utf8_lossy(spec_trim_nuls(field))
}

/// Reads the text of a zero-padded field.
pub fn field_text(field: &[u8]) -> (s: String)
    ensures
        s@ == spec_field_text(field@),
{
    let n = trimmed_len(field);
    lossy_string(slice_subrange(field, 0, n))
}

/// Why a firmware description is not taken.
#[derive(Clone, Copy, Debug, PartialEq, Eq, Structural)]
pub enum FeatureError {
    /// The report has fewer bytes than a firmware description.
    TooShort { size: usize },
}

/// Decodes the feature report that describes the running firmware into its
/// update version, build date and build time. `report` holds the bytes that
/// the device returned; fewer than fifty are refused.
pub fn decode_firmware_info(report: &[u8]) -> (r: Result<(u16, String, String), FeatureError>)
    ensures
        report@.len() < FIRMWARE_INFO_MIN_SIZE ==> r == Err::<(u16, String, String), FeatureError>(
            FeatureError::TooShort { size: report@.len() as usize },
        ),
        report@.len() >= FIRMWARE_INFO_MIN_SIZE ==> r is Ok && r->Ok_0.0 == crate::bytes::spec_u16_le(
            report@[44],
            report@[45],
        ) && r->Ok_0.1@ == spec_field_text(report@.subrange(1, 12)) && r->Ok_0.2@
            == spec_field_text(report@.subrange(12, 20)),
{
    if report.len() < FIRMWARE_INFO_MIN_SIZE {
        return Err(FeatureError::TooShort { size: report.len() });
    }
    let version = crate::bytes::u16_from_le(report[44], report[45]);
    let build_date = field_text(slice_subrange(report, 1, 12));
    let build_time = field_text(slice_subrange(report, 12, 20));
    Ok((version, build_date, build_time))
}

} // verus!

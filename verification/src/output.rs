use crate::common::MicLedState;
use crate::text::str_eq;
use vstd::prelude::*;

verus! {

/// Report id of an output report over USB.
pub const DS_OUTPUT_REPORT_USB: u8 = 0x02;

/// Length of an output report over USB.
pub const DS_OUTPUT_REPORT_USB_SIZE: usize = 63;

/// Report id of an output report over Bluetooth.
pub const DS_OUTPUT_REPORT_BT: u8 = 0x31;

/// Length of an output report over Bluetooth.
pub const DS_OUTPUT_REPORT_BT_SIZE: usize = 78;

/// The tag byte of a Bluetooth output report.
pub const DS_OUTPUT_TAG: u8 = 0x10;

pub const DS_OUTPUT_VALID_FLAG0_COMPATIBLE_VIBRATION: u8 = 0x01;

pub const DS_OUTPUT_VALID_FLAG0_HAPTICS_SELECT: u8 = 0x02;

pub const DS_OUTPUT_VALID_FLAG0_RIGHT_TRIGGER_MOTOR_ENABLE: u8 = 0x04;

pub const DS_OUTPUT_VALID_FLAG0_LEFT_TRIGGER_MOTOR_ENABLE: u8 = 0x08;

pub const DS_OUTPUT_VALID_FLAG0_HEADPHONE_VOLUME_ENABLE: u8 = 0x10;

pub const DS_OUTPUT_VALID_FLAG0_SPEAKER_VOLUME_ENABLE: u8 = 0x20;

pub const DS_OUTPUT_VALID_FLAG0_MICROPHONE_VOLUME_ENABLE: u8 = 0x40;

pub const DS_OUTPUT_VALID_FLAG0_AUDIO_CONTROL_ENABLE: u8 = 0x80;

pub const DS_OUTPUT_VALID_FLAG1_MIC_MUTE_LED_CONTROL_ENABLE: u8 = 0x01;

pub const DS_OUTPUT_VALID_FLAG1_POWER_SAVE_CONTROL_ENABLE: u8 = 0x02;

pub const DS_OUTPUT_VALID_FLAG1_LIGHTBAR_CONTROL_ENABLE: u8 = 0x04;

pub const DS_OUTPUT_VALID_FLAG1_RELEASE_LEDS: u8 = 0x08;

pub const DS_OUTPUT_VALID_FLAG1_PLAYER_INDICATOR_CONTROL_ENABLE: u8 = 0x10;

pub const DS_OUTPUT_VALID_FLAG1_HAPTIC_LOW_PASS_FILTER: u8 = 0x20;

pub const DS_OUTPUT_VALID_FLAG1_VIBRATION_ATTENUATION_ENABLE: u8 = 0x40;

pub const DS_OUTPUT_VALID_FLAG1_AUDIO_CONTROL2_ENABLE: u8 = 0x80;

pub const DS_OUTPUT_VALID_FLAG2_LED_BRIGHTNESS_CONTROL_ENABLE: u8 = 0x01;

pub const DS_OUTPUT_VALID_FLAG2_LIGHTBAR_SETUP_CONTROL_ENABLE: u8 = 0x02;

pub const DS_OUTPUT_POWER_SAVE_CONTROL_AUDIO: u8 = 0x08;

pub const DS_OUTPUT_POWER_SAVE_CONTROL_MIC_MUTE: u8 = 0x10;

pub const DS_OUTPUT_LIGHTBAR_SETUP_LIGHT_ON: u8 = 0x01;

pub const DS_OUTPUT_LIGHTBAR_SETUP_LIGHT_OFF: u8 = 0x02;

/// Audio path byte for the built-in speaker.
pub const DS_OUTPUT_AUDIO_PATH_INTERNAL: u8 = 0x30;

/// Audio path byte for headphones and speaker together.
pub const DS_OUTPUT_AUDIO_PATH_BOTH: u8 = 0x20;

/// Audio path byte for headphones.
pub const DS_OUTPUT_AUDIO_PATH_HEADPHONE: u8 = 0x00;

pub const DS_TRIGGER_EFFECT_OFF: u8 = 0x05;

pub const DS_TRIGGER_EFFECT_FEEDBACK: u8 = 0x21;

/// Greatest volume that a caller can ask for.
pub const VOLUME_MAX: u16 = 255;

/// Greatest headphone volume of the device.
pub const HEADPHONE_VOLUME_MAX: u16 = 0x7f;

/// Greatest speaker volume of the device.
pub const SPEAKER_VOLUME_MAX: u16 = 0x64;

/// Body offsets of the fields of an output report.
pub const OFFSET_VALID_FLAG0: usize = 0;

pub const OFFSET_VALID_FLAG1: usize = 1;

pub const OFFSET_HEADPHONE_VOLUME: usize = 4;

pub const OFFSET_SPEAKER_VOLUME: usize = 5;

pub const OFFSET_AUDIO_PATH: usize = 7;

pub const OFFSET_MIC_LED: usize = 8;

pub const OFFSET_POWER_SAVE: usize = 9;

pub const OFFSET_RIGHT_TRIGGER: usize = 10;

pub const OFFSET_LEFT_TRIGGER: usize = 21;

pub const OFFSET_VIBRATION_ATTENUATION: usize = 36;

pub const OFFSET_VALID_FLAG2: usize = 38;

pub const OFFSET_LIGHTBAR_SETUP: usize = 41;

pub const OFFSET_PLAYER_INDICATOR: usize = 43;

pub const OFFSET_LIGHTBAR_RED: usize = 44;

pub const OFFSET_LIGHTBAR_GREEN: usize = 45;

pub const OFFSET_LIGHTBAR_BLUE: usize = 46;

/// Length of the output report of a transport.
pub open spec fn spec_output_size(is_bt: bool) -> nat {
    if is_bt {
        DS_OUTPUT_REPORT_BT_SIZE as nat
    } else {
        DS_OUTPUT_REPORT_USB_SIZE as nat
    }
}

/// Index in an output report at which the body begins.
pub open spec fn spec_body_offset(is_bt: bool) -> int {
    if is_bt {
        3
    } else {
        1
    }
}

/// The sequence number after `seq`: a counter of four bits.
pub open spec fn spec_next_seq(seq: u8) -> u8 {
    ((seq + 1) % 16) as u8
}

/// An output report that asks for nothing: all zero but for the report id
/// and, over Bluetooth, the sequence number in the high half of byte 1 and
/// the tag in byte 2.
pub open spec fn spec_blank_report(is_bt: bool, seq: u8) -> Seq<u8> {
    if is_bt {
        Seq::new(DS_OUTPUT_REPORT_BT_SIZE as nat, |i: int| 0u8).update(
            0,
            DS_OUTPUT_REPORT_BT,
        ).update(1, ((seq % 16) * 16) as u8).update(2, DS_OUTPUT_TAG)
    } else {
        Seq::new(DS_OUTPUT_REPORT_USB_SIZE as nat, |i: int| 0u8).update(0, DS_OUTPUT_REPORT_USB)
    }
}

/// Makes an output report that asks for nothing.
pub fn init_output_report(is_bt: bool, seq: u8) -> (buf: Vec<u8>)
    ensures
        buf@ == spec_blank_report(is_bt, seq),
        buf@.len() == spec_output_size(is_bt),
{
    if is_bt {
        let mut buf = vec![0u8; DS_OUTPUT_REPORT_BT_SIZE];
        assert(buf@ == Seq::new(DS_OUTPUT_REPORT_BT_SIZE as nat, |i: int| 0u8));
        buf[0] = DS_OUTPUT_REPORT_BT;
        buf[1] = (seq % 16) * 16;
        buf[2] = DS_OUTPUT_TAG;
        buf
    } else {
        let mut buf = vec![0u8; DS_OUTPUT_REPORT_USB_SIZE];
        assert(buf@ == Seq::new(DS_OUTPUT_REPORT_USB_SIZE as nat, |i: int| 0u8));
        buf[0] = DS_OUTPUT_REPORT_USB;
        buf
    }
}

fn body_offset(is_bt: bool) -> (o: usize)
    ensures
        o == spec_body_offset(is_bt),
{
    if is_bt {
        3
    } else {
        1
    }
}

/// A colour channel under a brightness: `channel * brightness / 255`.
pub open spec fn spec_scale_channel(channel: u8, brightness: u8) -> u8 {
    ((brightness as int) * (channel as int) / 255) as u8
}

fn scale_channel(channel: u8, brightness: u8) -> (v: u8)
    ensures
        v == spec_scale_channel(channel, brightness),
{
    assert((brightness as int) * (channel as int) <= 255 * 255) by (nonlinear_arith)
        requires
            0 <= brightness <= 255,
            0 <= channel <= 255,
    ;
    ((brightness as u16 * channel as u16) / 255) as u8
}

/// The report that sets the lightbar to a colour under a brightness.
pub open spec fn spec_lightbar_report(
    is_bt: bool,
    seq: u8,
    r: u8,
    g: u8,
    b: u8,
    brightness: u8,
) -> Seq<u8> {
    let o = spec_body_offset(is_bt);
    spec_blank_report(is_bt, seq).update(
        o + OFFSET_VALID_FLAG1,
        DS_OUTPUT_VALID_FLAG1_LIGHTBAR_CONTROL_ENABLE,
    ).update(o + OFFSET_LIGHTBAR_RED, spec_scale_channel(r, brightness)).update(
        o + OFFSET_LIGHTBAR_GREEN,
        spec_scale_channel(g, brightness),
    ).update(o + OFFSET_LIGHTBAR_BLUE, spec_scale_channel(b, brightness))
}

pub fn lightbar_report(is_bt: bool, seq: u8, r: u8, g: u8, b: u8, brightness: u8) -> (buf: Vec<u8>)
    ensures
        buf@ == spec_lightbar_report(is_bt, seq, r, g, b, brightness),
        buf@.len() == spec_output_size(is_bt),
{
    let mut buf = init_output_report(is_bt, seq);
    let o = body_offset(is_bt);
    buf[o + OFFSET_VALID_FLAG1] = DS_OUTPUT_VALID_FLAG1_LIGHTBAR_CONTROL_ENABLE;
    buf[o + OFFSET_LIGHTBAR_RED] = scale_channel(r, brightness);
    buf[o + OFFSET_LIGHTBAR_GREEN] = scale_channel(g, brightness);
    buf[o + OFFSET_LIGHTBAR_BLUE] = scale_channel(b, brightness);
    buf
}

/// The report that switches the lightbar on or off.
pub open spec fn spec_lightbar_enabled_report(is_bt: bool, seq: u8, enabled: bool) -> Seq<u8> {
    let o = spec_body_offset(is_bt);
    spec_blank_report(is_bt, seq).update(
        o + OFFSET_VALID_FLAG2,
        DS_OUTPUT_VALID_FLAG2_LIGHTBAR_SETUP_CONTROL_ENABLE,
    ).update(
        o + OFFSET_LIGHTBAR_SETUP,
        if enabled {
            DS_OUTPUT_LIGHTBAR_SETUP_LIGHT_ON
        } else {
            DS_OUTPUT_LIGHTBAR_SETUP_LIGHT_OFF
        },
    )
}

pub fn lightbar_enabled_report(is_bt: bool, seq: u8, enabled: bool) -> (buf: Vec<u8>)
    ensures
        buf@ == spec_lightbar_enabled_report(is_bt, seq, enabled),
        buf@.len() == spec_output_size(is_bt),
{
    let mut buf = init_output_report(is_bt, seq);
    let o = body_offset(is_bt);
    buf[o + OFFSET_VALID_FLAG2] = DS_OUTPUT_VALID_FLAG2_LIGHTBAR_SETUP_CONTROL_ENABLE;
    buf[o + OFFSET_LIGHTBAR_SETUP] = if enabled {
        DS_OUTPUT_LIGHTBAR_SETUP_LIGHT_ON
    } else {
        DS_OUTPUT_LIGHTBAR_SETUP_LIGHT_OFF
    };
    buf
}

/// Number of player LED patterns.
pub const PLAYER_LED_PATTERN_COUNT: u8 = 8;

/// The five-bit LED pattern of player `n`.
pub open spec fn spec_player_led_pattern(n: u8) -> u8 {
    if n == 0 {
        0b00000
    } else if n == 1 {
        0b00100
    } else if n == 2 {
        0b01010
    } else if n == 3 {
        0b10101
    } else if n == 4 {
        0b11011
    } else if n == 5 {
        0b11111
    } else if n == 6 {
        0b10001
    } else {
        0b01110
    }
}

/// Looks up the LED pattern of player `n`; there are eight.
pub fn player_led_pattern(n: u8) -> (p: Option<u8>)
    ensures
        n < PLAYER_LED_PATTERN_COUNT ==> p == Some(spec_player_led_pattern(n)),
        n >= PLAYER_LED_PATTERN_COUNT ==> p is None,
{
    let patterns: [u8; 8] = [
        0b00000,
        0b00100,
        0b01010,
        0b10101,
        0b11011,
        0b11111,
        0b10001,
        0b01110,
    ];
    if n >= PLAYER_LED_PATTERN_COUNT {
        None
    } else {
        Some(patterns[n as usize])
    }
}

/// The report that shows LED pattern `pattern` on the player indicator.
pub open spec fn spec_player_leds_report(is_bt: bool, seq: u8, pattern: u8) -> Seq<u8> {
    let o = spec_body_offset(is_bt);
    spec_blank_report(is_bt, seq).update(
        o + OFFSET_VALID_FLAG1,
        DS_OUTPUT_VALID_FLAG1_PLAYER_INDICATOR_CONTROL_ENABLE,
    ).update(o + OFFSET_PLAYER_INDICATOR, pattern)
}

pub fn player_leds_report(is_bt: bool, seq: u8, pattern: u8) -> (buf: Vec<u8>)
    ensures
        buf@ == spec_player_leds_report(is_bt, seq, pattern),
        buf@.len() == spec_output_size(is_bt),
{
    let mut buf = init_output_report(is_bt, seq);
    let o = body_offset(is_bt);
    buf[o + OFFSET_VALID_FLAG1] = DS_OUTPUT_VALID_FLAG1_PLAYER_INDICATOR_CONTROL_ENABLE;
    buf[o + OFFSET_PLAYER_INDICATOR] = pattern;
    buf
}

/// The audio path byte for a mode given by name; a name that is none of
/// `internal`, `headphone` and `both` selects the headphones.
pub open spec fn spec_audio_path(mode: Seq<char>) -> u8 {
    if mode == "internal"@ {
        DS_OUTPUT_AUDIO_PATH_INTERNAL
    } else if mode == "both"@ {
        DS_OUTPUT_AUDIO_PATH_BOTH
    } else {
        DS_OUTPUT_AUDIO_PATH_HEADPHONE
    }
}

pub fn audio_path(mode: &str) -> (path: u8)
    ensures
        path == spec_audio_path(mode@),
{
    if str_eq(mode, "internal") {
        DS_OUTPUT_AUDIO_PATH_INTERNAL
    } else if str_eq(mode, "both") {
        DS_OUTPUT_AUDIO_PATH_BOTH
    } else {
        DS_OUTPUT_AUDIO_PATH_HEADPHONE
    }
}

/// The report that routes audio to the speaker, the headphones or both.
pub open spec fn spec_speaker_report(is_bt: bool, seq: u8, mode: Seq<char>) -> Seq<u8> {
    let o = spec_body_offset(is_bt);
    spec_blank_report(is_bt, seq).update(
        o + OFFSET_VALID_FLAG0,
        DS_OUTPUT_VALID_FLAG0_AUDIO_CONTROL_ENABLE,
    ).update(o + OFFSET_AUDIO_PATH, spec_audio_path(mode))
}

pub fn speaker_report(is_bt: bool, seq: u8, mode: &str) -> (buf: Vec<u8>)
    ensures
        buf@ == spec_speaker_report(is_bt, seq, mode@),
        buf@.len() == spec_output_size(is_bt),
{
    let mut buf = init_output_report(is_bt, seq);
    let o = body_offset(is_bt);
    buf[o + OFFSET_VALID_FLAG0] = DS_OUTPUT_VALID_FLAG0_AUDIO_CONTROL_ENABLE;
    buf[o + OFFSET_AUDIO_PATH] = audio_path(mode);
    buf
}

/// A volume out of 255 on a device scale that ends at `max`: `volume * max / 255`.
pub open spec fn spec_scale_volume(volume: u8, max: u16) -> u8 {
    ((volume as int) * (max as int) / 255) as u8
}

fn scale_volume(volume: u8, max: u16) -> (v: u8)
    requires
        max <= 255,
    ensures
        v == spec_scale_volume(volume, max),
{
    assert((volume as int) * (max as int) <= 255 * 255) by (nonlinear_arith)
        requires
            0 <= volume <= 255,
            0 <= max <= 255,
    ;
    ((volume as u16 * max) / VOLUME_MAX) as u8
}

/// The report that sets the headphone and the speaker volume.
pub open spec fn spec_volume_report(is_bt: bool, seq: u8, volume: u8) -> Seq<u8> {
    let o = spec_body_offset(is_bt);
    spec_blank_report(is_bt, seq).update(
        o + OFFSET_VALID_FLAG0,
        (DS_OUTPUT_VALID_FLAG0_HEADPHONE_VOLUME_ENABLE
            + DS_OUTPUT_VALID_FLAG0_SPEAKER_VOLUME_ENABLE) as u8,
    ).update(o + OFFSET_HEADPHONE_VOLUME, spec_scale_volume(volume, HEADPHONE_VOLUME_MAX)).update(
        o + OFFSET_SPEAKER_VOLUME,
        spec_scale_volume(volume, SPEAKER_VOLUME_MAX),
    )
}

pub fn volume_report(is_bt: bool, seq: u8, volume: u8) -> (buf: Vec<u8>)
    ensures
        buf@ == spec_volume_report(is_bt, seq, volume),
        buf@.len() == spec_output_size(is_bt),
{
    let mut buf = init_output_report(is_bt, seq);
    let o = body_offset(is_bt);
    buf[o + OFFSET_VALID_FLAG0] = DS_OUTPUT_VALID_FLAG0_HEADPHONE_VOLUME_ENABLE
        + DS_OUTPUT_VALID_FLAG0_SPEAKER_VOLUME_ENABLE;
    buf[o + OFFSET_HEADPHONE_VOLUME] = scale_volume(volume, HEADPHONE_VOLUME_MAX);
    buf[o + OFFSET_SPEAKER_VOLUME] = scale_volume(volume, SPEAKER_VOLUME_MAX);
    buf
}

/// Two attenuation levels of three bits each in one byte: `rumble` in the
/// low half, `trigger` in the high half.
pub open spec fn spec_pack_attenuation(rumble: u8, trigger: u8) -> u8 {
    (rumble & 0x07) | ((trigger & 0x07) << 4)
}

/// The report that attenuates rumble and trigger vibration.
pub open spec fn spec_vibration_report(is_bt: bool, seq: u8, rumble: u8, trigger: u8) -> Seq<u8> {
    let o = spec_body_offset(is_bt);
    spec_blank_report(is_bt, seq).update(
        o + OFFSET_VALID_FLAG1,
        DS_OUTPUT_VALID_FLAG1_VIBRATION_ATTENUATION_ENABLE,
    ).update(o + OFFSET_VIBRATION_ATTENUATION, spec_pack_attenuation(rumble, trigger))
}

pub fn vibration_report(is_bt: bool, seq: u8, rumble: u8, trigger: u8) -> (buf: Vec<u8>)
    ensures
        buf@ == spec_vibration_report(is_bt, seq, rumble, trigger),
        buf@.len() == spec_output_size(is_bt),
{
    let mut buf = init_output_report(is_bt, seq);
    let o = body_offset(is_bt);
    buf[o + OFFSET_VALID_FLAG1] = DS_OUTPUT_VALID_FLAG1_VIBRATION_ATTENUATION_ENABLE;
    buf[o + OFFSET_VIBRATION_ATTENUATION] = (rumble & 0x07) | ((trigger & 0x07) << 4);
    buf
}

/// The report that switches the microphone on or mutes it.
pub open spec fn spec_mic_report(is_bt: bool, seq: u8, enabled: bool) -> Seq<u8> {
    let o = spec_body_offset(is_bt);
    spec_blank_report(is_bt, seq).update(
        o + OFFSET_VALID_FLAG1,
        DS_OUTPUT_VALID_FLAG1_POWER_SAVE_CONTROL_ENABLE,
    ).update(
        o + OFFSET_POWER_SAVE,
        if enabled {
            0u8
        } else {
            DS_OUTPUT_POWER_SAVE_CONTROL_MIC_MUTE
        },
    )
}

pub fn mic_report(is_bt: bool, seq: u8, enabled: bool) -> (buf: Vec<u8>)
    ensures
        buf@ == spec_mic_report(is_bt, seq, enabled),
        buf@.len() == spec_output_size(is_bt),
{
    let mut buf = init_output_report(is_bt, seq);
    let o = body_offset(is_bt);
    buf[o + OFFSET_VALID_FLAG1] = DS_OUTPUT_VALID_FLAG1_POWER_SAVE_CONTROL_ENABLE;
    buf[o + OFFSET_POWER_SAVE] = if enabled {
        0
    } else {
        DS_OUTPUT_POWER_SAVE_CONTROL_MIC_MUTE
    };
    buf
}

/// The byte that stands for a state of the microphone LED.
pub open spec fn spec_mic_led_code(state: MicLedState) -> u8 {
    match state {
        MicLedState::Off => 0,
        MicLedState::On => 1,
        MicLedState::Pulse => 2,
    }
}

/// The report that sets the microphone LED.
pub open spec fn spec_mic_led_report(is_bt: bool, seq: u8, state: MicLedState) -> Seq<u8> {
    let o = spec_body_offset(is_bt);
    spec_blank_report(is_bt, seq).update(
        o + OFFSET_VALID_FLAG1,
        DS_OUTPUT_VALID_FLAG1_MIC_MUTE_LED_CONTROL_ENABLE,
    ).update(o + OFFSET_MIC_LED, spec_mic_led_code(state))
}

pub fn mic_led_report(is_bt: bool, seq: u8, state: MicLedState) -> (buf: Vec<u8>)
    ensures
        buf@ == spec_mic_led_report(is_bt, seq, state),
        buf@.len() == spec_output_size(is_bt),
{
    let mut buf = init_output_report(is_bt, seq);
    let o = body_offset(is_bt);
    buf[o + OFFSET_VALID_FLAG1] = DS_OUTPUT_VALID_FLAG1_MIC_MUTE_LED_CONTROL_ENABLE;
    buf[o + OFFSET_MIC_LED] = match state {
        MicLedState::Off => 0,
        MicLedState::On => 1,
        MicLedState::Pulse => 2,
    };
    buf
}

/// Number of parameter bytes of a trigger effect.
pub const TRIGGER_PARAM_COUNT: usize = 10;

/// The valid flags of a trigger effect for the sides it is meant for.
pub open spec fn spec_trigger_flags(left: bool, right: bool) -> u8 {
    ((if right {
        DS_OUTPUT_VALID_FLAG0_RIGHT_TRIGGER_MOTOR_ENABLE as int
    } else {
        0
    }) + (if left {
        DS_OUTPUT_VALID_FLAG0_LEFT_TRIGGER_MOTOR_ENABLE as int
    } else {
        0
    })) as u8
}

/// How many of the given parameter bytes a trigger effect takes.
pub open spec fn spec_param_count(params: Seq<u8>) -> int {
    if params.len() < TRIGGER_PARAM_COUNT {
        params.len() as int
    } else {
        TRIGGER_PARAM_COUNT as int
    }
}

/// The report that sets a trigger effect. Mode and parameters are written
/// for both triggers; the valid flags say which of them obeys. Of `params`
/// the first ten bytes count, and where there are fewer the rest is zero.
pub open spec fn spec_trigger_effect_report(
    is_bt: bool,
    seq: u8,
    left: bool,
    right: bool,
    mode: u8,
    params: Seq<u8>,
) -> Seq<u8> {
    let o = spec_body_offset(is_bt);
    let n = spec_param_count(params);
    let blank = spec_blank_report(is_bt, seq);
    Seq::new(
        blank.len(),
        |i: int|
            if i == o + OFFSET_VALID_FLAG0 {
                spec_trigger_flags(left, right)
            } else if i == o + OFFSET_RIGHT_TRIGGER || i == o + OFFSET_LEFT_TRIGGER {
                mode
            } else if o + OFFSET_RIGHT_TRIGGER < i <= o + OFFSET_RIGHT_TRIGGER + n {
                params[i - o - OFFSET_RIGHT_TRIGGER - 1]
            } else if o + OFFSET_LEFT_TRIGGER < i <= o + OFFSET_LEFT_TRIGGER + n {
                params[i - o - OFFSET_LEFT_TRIGGER - 1]
            } else {
                blank[i]
            },
    )
}

pub fn trigger_effect_report(
    is_bt: bool,
    seq: u8,
    left: bool,
    right: bool,
    mode: u8,
    params: &[u8],
) -> (buf: Vec<u8>)
    ensures
        buf@ == spec_trigger_effect_report(is_bt, seq, left, right, mode, params@),
        buf@.len() == spec_output_size(is_bt),
{
    let mut buf = init_output_report(is_bt, seq);
    let o = body_offset(is_bt);
    let mut flags: u8 = 0;
    if right {
        flags += DS_OUTPUT_VALID_FLAG0_RIGHT_TRIGGER_MOTOR_ENABLE;
    }
    if left {
        flags += DS_OUTPUT_VALID_FLAG0_LEFT_TRIGGER_MOTOR_ENABLE;
    }
    buf[o + OFFSET_VALID_FLAG0] = flags;
    buf[o + OFFSET_RIGHT_TRIGGER] = mode;
    buf[o + OFFSET_LEFT_TRIGGER] = mode;
    let n = if params.len() < TRIGGER_PARAM_COUNT {
        params.len()
    } else {
        TRIGGER_PARAM_COUNT
    };
    let ghost blank = spec_blank_report(is_bt, seq);
    let mut i: usize = 0;
    while i < n
        invariant
            i <= n,
            n == spec_param_count(params@),
            o == spec_body_offset(is_bt),
            blank == spec_blank_report(is_bt, seq),
            buf@.len() == blank.len(),
            buf@ == Seq::new(
                blank.len(),
                |k: int|
                    if k == o + OFFSET_VALID_FLAG0 {
                        flags
                    } else if k == o + OFFSET_RIGHT_TRIGGER || k == o + OFFSET_LEFT_TRIGGER {
                        mode
                    } else if o + OFFSET_RIGHT_TRIGGER < k <= o + OFFSET_RIGHT_TRIGGER + i {
                        params@[k - o - OFFSET_RIGHT_TRIGGER - 1]
                    } else if o + OFFSET_LEFT_TRIGGER < k <= o + OFFSET_LEFT_TRIGGER + i {
                        params@[k - o - OFFSET_LEFT_TRIGGER - 1]
                    } else {
                        blank[k]
                    },
            ),
        decreases n - i,
    {
        buf[o + OFFSET_RIGHT_TRIGGER + 1 + i] = params[i];
        buf[o + OFFSET_LEFT_TRIGGER + 1 + i] = params[i];
        i += 1;
    }
    buf
}

/// Number of zones along the stroke of a trigger.
pub const TRIGGER_ZONE_COUNT: u8 = 10;

/// Two to the power `n`.
pub open spec fn spec_pow2(n: nat) -> int
    decreases n,
{
    if n == 0 {
        1
    } else {
        2 * spec_pow2((n - 1) as nat)
    }
}

/// Eight to the power `n`.
pub open spec fn spec_pow8(n: nat) -> int
    decreases n,
{
    if n == 0 {
        1
    } else {
        8 * spec_pow8((n - 1) as nat)
    }
}

/// Whether zone `zone` resists when feedback starts at `position` with `strength`.
pub open spec fn spec_zone_active(position: u8, strength: u8, zone: nat) -> bool {
    position <= zone && zone < TRIGGER_ZONE_COUNT && strength > 0
}

/// The three bits that stand for a strength from one to eight.
pub open spec fn spec_strength_code(strength: u8) -> int {
    (strength - 1) % 8
}

/// The bitmap of the active zones below `n`: bit `i` stands for zone `i`.
pub open spec fn spec_active_zones(position: u8, strength: u8, n: nat) -> int
    decreases n,
{
    if n == 0 {
        0
    } else {
        spec_active_zones(position, strength, (n - 1) as nat) + if spec_zone_active(
            position,
            strength,
            (n - 1) as nat,
        ) {
            spec_pow2((n - 1) as nat)
        } else {
            0
        }
    }
}

/// The strengths of the zones below `n`, three bits each: those of zone `i`
/// are bits `3i` to `3i + 2`.
pub open spec fn spec_strength_zones(position: u8, strength: u8, n: nat) -> int
    decreases n,
{
    if n == 0 {
        0
    } else {
        spec_strength_zones(position, strength, (n - 1) as nat) + if spec_zone_active(
            position,
            strength,
            (n - 1) as nat,
        ) {
            spec_strength_code(strength) * spec_pow8((n - 1) as nat)
        } else {
            0
        }
    }
}

/// The parameter bytes of a feedback effect: the zone bitmap in two bytes,
/// the zone strengths in four, both little-endian, then four zero bytes.
pub open spec fn spec_feedback_params(position: u8, strength: u8) -> Seq<u8> {
    let active = spec_active_zones(position, strength, TRIGGER_ZONE_COUNT as nat);
    let zones = spec_strength_zones(position, strength, TRIGGER_ZONE_COUNT as nat);
    seq![
        (active % 256) as u8,
        (active / 256 % 256) as u8,
        (zones % 256) as u8,
        (zones / 256 % 256) as u8,
        (zones / 65536 % 256) as u8,
        (zones / 16777216 % 256) as u8,
        0u8,
        0u8,
        0u8,
        0u8,
    ]
}

/// Builds the parameters of a feedback effect that resists from zone
/// `position` to the end of the stroke with `strength`.
pub fn feedback_params(position: u8, strength: u8) -> (params: [u8; 10])
    ensures
        params@ == spec_feedback_params(position, strength),
{
    let mut active: u16 = 0;
    let mut zones: u32 = 0;
    let mut bit: u16 = 1;
    let mut place: u32 = 1;
    let mut i: u8 = 0;
    while i < TRIGGER_ZONE_COUNT
        invariant
            i <= TRIGGER_ZONE_COUNT,
            bit == spec_pow2(i as nat),
            place == spec_pow8(i as nat),
            active == spec_active_zones(position, strength, i as nat),
            zones == spec_strength_zones(position, strength, i as nat),
            active < bit,
            zones < place,
        decreases TRIGGER_ZONE_COUNT - i,
    {
        proof {
            lemma_pow_bounds(i as nat);
        }
        if position <= i && strength > 0 {
            let code: u32 = ((strength - 1) % 8) as u32;
            assert(code * place <= 7 * place) by (nonlinear_arith)
                requires
                    code <= 7,
                    place >= 0,
            ;
            active = active + bit;
            zones = zones + code * place;
        }
        i += 1;
        bit = bit * 2;
        place = place * 8;
    }
    [
        (active % 256) as u8,
        (active / 256 % 256) as u8,
        (zones % 256) as u8,
        (zones / 256 % 256) as u8,
        (zones / 65536 % 256) as u8,
        (zones / 16777216 % 256) as u8,
        0,
        0,
        0,
        0,
    ]
}

proof fn lemma_pow_bounds(n: nat)
    requires
        n < 10,
    ensures
        1 <= spec_pow2(n) <= 512,
        1 <= spec_pow8(n) <= 134217728,
{
    reveal_with_fuel(spec_pow2, 11);
    reveal_with_fuel(spec_pow8, 11);
}

/// The three bytes of valid flags of an output report.
pub open spec fn spec_valid_flags(is_bt: bool, report: Seq<u8>) -> (u8, u8, u8) {
    let o = spec_body_offset(is_bt);
    (report[o + OFFSET_VALID_FLAG0], report[o + OFFSET_VALID_FLAG1], report[o + OFFSET_VALID_FLAG2])
}

/// Every report raises the valid flags of what it sets and no other, so
/// that the device obeys nothing that was not meant.
pub proof fn lemma_reports_raise_their_flags_only(
    is_bt: bool,
    seq: u8,
    a: u8,
    b: u8,
    c: u8,
    d: u8,
    on: bool,
    left: bool,
    right: bool,
    state: MicLedState,
    mode: Seq<char>,
    params: Seq<u8>,
)
    ensures
        spec_valid_flags(is_bt, spec_blank_report(is_bt, seq)) == (0u8, 0u8, 0u8),
        spec_valid_flags(is_bt, spec_lightbar_report(is_bt, seq, a, b, c, d)) == (
            0u8,
            DS_OUTPUT_VALID_FLAG1_LIGHTBAR_CONTROL_ENABLE,
            0u8,
        ),
        spec_valid_flags(is_bt, spec_lightbar_enabled_report(is_bt, seq, on)) == (
            0u8,
            0u8,
            DS_OUTPUT_VALID_FLAG2_LIGHTBAR_SETUP_CONTROL_ENABLE,
        ),
        spec_valid_flags(is_bt, spec_player_leds_report(is_bt, seq, a)) == (
            0u8,
            DS_OUTPUT_VALID_FLAG1_PLAYER_INDICATOR_CONTROL_ENABLE,
            0u8,
        ),
        spec_valid_flags(is_bt, spec_speaker_report(is_bt, seq, mode)) == (
            DS_OUTPUT_VALID_FLAG0_AUDIO_CONTROL_ENABLE,
            0u8,
            0u8,
        ),
        spec_valid_flags(is_bt, spec_volume_report(is_bt, seq, a)) == (
            (DS_OUTPUT_VALID_FLAG0_HEADPHONE_VOLUME_ENABLE
                + DS_OUTPUT_VALID_FLAG0_SPEAKER_VOLUME_ENABLE) as u8,
            0u8,
            0u8,
        ),
        spec_valid_flags(is_bt, spec_vibration_report(is_bt, seq, a, b)) == (
            0u8,
            DS_OUTPUT_VALID_FLAG1_VIBRATION_ATTENUATION_ENABLE,
            0u8,
        ),
        spec_valid_flags(is_bt, spec_mic_report(is_bt, seq, on)) == (
            0u8,
            DS_OUTPUT_VALID_FLAG1_POWER_SAVE_CONTROL_ENABLE,
            0u8,
        ),
        spec_valid_flags(is_bt, spec_mic_led_report(is_bt, seq, state)) == (
            0u8,
            DS_OUTPUT_VALID_FLAG1_MIC_MUTE_LED_CONTROL_ENABLE,
            0u8,
        ),
        spec_valid_flags(is_bt, spec_trigger_effect_report(is_bt, seq, left, right, a, params))
            == (spec_trigger_flags(left, right), 0u8, 0u8),
{
}

} // verus!

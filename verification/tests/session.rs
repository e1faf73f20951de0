use ds4u::common::MicLedState;
use ds4u::dualsense::{
    device_matches, find_device, is_dualsense, list_devices, DeviceInfo, DualSense, SessionError,
};
use ds4u::inputs::BTN_SQUARE;

fn device(product_id: u16, serial: Option<&str>, interface_number: i32) -> DeviceInfo {
    DeviceInfo {
        vendor_id: 0x054c,
        product_id,
        serial: serial.map(|s| s.to_string()),
        interface_number,
    }
}

fn usb() -> DualSense {
    DualSense::new(&device(0x0ce6, Some("usb-1"), 3))
}

fn bt() -> DualSense {
    DualSense::new(&device(0x0df2, Some("bt-1"), -1))
}

fn expect_usb(report: Option<Vec<u8>>, fields: &[(usize, u8)]) {
    let report = report.unwrap();
    let mut expected = vec![0u8; 63];
    expected[0] = 0x02;
    for (offset, value) in fields {
        expected[1 + offset] = *value;
    }
    assert_eq!(report, expected);
}

fn expect_bt(report: Option<Vec<u8>>, seq: u8, fields: &[(usize, u8)]) {
    let report = report.unwrap();
    let mut expected = vec![0u8; 78];
    expected[0] = 0x31;
    expected[1] = seq << 4;
    expected[2] = 0x10;
    for (offset, value) in fields {
        expected[3 + offset] = *value;
    }
    assert_eq!(report.len(), 78);
    assert_eq!(&report[..74], &expected[..74]);
    let crc = crc::Crc::<u32>::new(&crc::CRC_32_ISO_HDLC);
    let mut digest = crc.digest();
    digest.update(&[0xa2]);
    digest.update(&report[..74]);
    assert_eq!(&report[74..], &digest.finalize().to_le_bytes());
}

#[test]
fn a_new_session() {
    let ds = usb();
    assert!(!ds.is_bluetooth());
    assert!(!ds.is_updating());
    assert_eq!(ds.product_id(), 0x0ce6);
    assert_eq!(ds.serial(), "usb-1");
    assert_eq!(ds.output_seq(), 0);
    let ds = bt();
    assert!(ds.is_bluetooth());
    assert_eq!(ds.product_id(), 0x0df2);
    let ds = DualSense::new(&device(0x0ce6, None, 0));
    assert_eq!(ds.serial(), "Unknown");
    assert!(!ds.is_bluetooth());
}

#[test]
fn sequence_number_counts_bluetooth_reports() {
    let mut ds = bt();
    for n in 0..40u32 {
        assert_eq!(ds.output_seq() as u32, n % 16);
        let report = ds.set_mic(true).unwrap();
        assert_eq!(report[1] as u32, (n % 16) << 4);
    }
    assert_eq!(ds.output_seq(), 40 % 16);
    let mut ds = usb();
    for _ in 0..20 {
        ds.set_mic(true);
        assert_eq!(ds.output_seq(), 0);
    }
}

#[test]
fn sequence_number_moves_with_every_kind_of_report() {
    let mut ds = bt();
    ds.set_lightbar(1, 2, 3, 4);
    ds.set_lightbar_enabled(true);
    ds.set_player_leds(1).unwrap();
    ds.set_speaker("both");
    ds.set_volume(1);
    ds.set_vibration(1, 1);
    ds.set_mic(false);
    ds.set_mic_led(MicLedState::On);
    ds.set_trigger_effect(true, false, 0x21, &[1, 2, 3]);
    ds.set_trigger_off();
    ds.init_output_report();
    assert_eq!(ds.output_seq(), 11);
    assert_eq!(ds.set_player_leds(8), Err(SessionError::InvalidPlayer));
    assert_eq!(ds.output_seq(), 11);
}

#[test]
fn reports_over_usb() {
    let mut ds = usb();
    expect_usb(ds.set_lightbar(255, 128, 1, 255), &[(1, 0x04), (44, 255), (45, 128), (46, 1)]);
    expect_usb(ds.set_lightbar(255, 128, 1, 0), &[(1, 0x04)]);
    expect_usb(ds.set_lightbar(255, 254, 1, 254), &[(1, 0x04), (44, 254), (45, 253), (46, 0)]);
    expect_usb(ds.set_lightbar_enabled(true), &[(38, 0x02), (41, 1)]);
    expect_usb(ds.set_lightbar_enabled(false), &[(38, 0x02), (41, 2)]);
    expect_usb(ds.set_player_leds(3).unwrap(), &[(1, 0x10), (43, 0b10101)]);
    expect_usb(ds.set_player_leds(0).unwrap(), &[(1, 0x10)]);
    expect_usb(ds.set_speaker("internal"), &[(0, 0x80), (7, 0x30)]);
    expect_usb(ds.set_speaker("both"), &[(0, 0x80), (7, 0x20)]);
    expect_usb(ds.set_speaker("headphone"), &[(0, 0x80)]);
    expect_usb(ds.set_speaker("Internal"), &[(0, 0x80)]);
    expect_usb(ds.set_volume(255), &[(0, 0x30), (4, 0x7f), (5, 0x64)]);
    expect_usb(ds.set_volume(128), &[(0, 0x30), (4, 63), (5, 50)]);
    expect_usb(ds.set_volume(0), &[(0, 0x30)]);
    expect_usb(ds.set_vibration(3, 5), &[(1, 0x40), (36, 0x53)]);
    expect_usb(ds.set_vibration(0xff, 0xf8), &[(1, 0x40), (36, 0x07)]);
    expect_usb(ds.set_mic(true), &[(1, 0x02)]);
    expect_usb(ds.set_mic(false), &[(1, 0x02), (9, 0x10)]);
    expect_usb(ds.set_mic_led(MicLedState::Off), &[(1, 0x01)]);
    expect_usb(ds.set_mic_led(MicLedState::On), &[(1, 0x01), (8, 1)]);
    expect_usb(ds.set_mic_led(MicLedState::Pulse), &[(1, 0x01), (8, 2)]);
    expect_usb(ds.set_trigger_off(), &[(0, 0x0c), (10, 0x05), (21, 0x05)]);
}

#[test]
fn trigger_effect_reports() {
    let mut ds = usb();
    let params = [1u8, 2, 3, 4, 5, 6, 7, 8, 9, 10];
    let mut fields = vec![(0usize, 0x04u8), (10, 0x21), (21, 0x21)];
    for (i, p) in params.iter().enumerate() {
        fields.push((11 + i, *p));
        fields.push((22 + i, *p));
    }
    expect_usb(ds.set_trigger_effect(false, true, 0x21, &params), &fields);
    fields[0] = (0, 0x08);
    expect_usb(ds.set_trigger_effect(true, false, 0x21, &params), &fields);
    fields[0] = (0, 0x00);
    expect_usb(ds.set_trigger_effect(false, false, 0x21, &params), &fields);
    // more than ten parameters: the first ten count
    let long = [1u8, 2, 3, 4, 5, 6, 7, 8, 9, 10, 11, 12];
    fields[0] = (0, 0x0c);
    expect_usb(ds.set_trigger_effect(true, true, 0x21, &long), &fields);
    // fewer: the rest is zero
    expect_usb(
        ds.set_trigger_effect(true, true, 0x26, &[9, 8]),
        &[(0, 0x0c), (10, 0x26), (11, 9), (12, 8), (21, 0x26), (22, 9), (23, 8)],
    );
    expect_usb(ds.set_trigger_effect(true, true, 0x26, &[]), &[(0, 0x0c), (10, 0x26), (21, 0x26)]);
}

#[test]
fn reports_over_bluetooth() {
    let mut ds = bt();
    expect_bt(ds.set_lightbar(200, 100, 50, 128), 0, &[(1, 0x04), (44, 100), (45, 50), (46, 25)]);
    expect_bt(ds.set_player_leds(7).unwrap(), 1, &[(1, 0x10), (43, 0b01110)]);
    expect_bt(ds.set_volume(255), 2, &[(0, 0x30), (4, 0x7f), (5, 0x64)]);
    expect_bt(ds.set_trigger_off(), 3, &[(0, 0x0c), (10, 0x05), (21, 0x05)]);
    expect_bt(ds.set_lightbar_enabled(false), 4, &[(38, 0x02), (41, 2)]);
}

#[test]
fn update_mode_silences_the_session() {
    let mut ds = bt();
    assert_eq!(ds.set_update_mode(true), 1100);
    assert!(ds.is_updating());
    assert_eq!(ds.set_lightbar(1, 2, 3, 4), None);
    assert_eq!(ds.set_trigger_off(), None);
    assert_eq!(ds.set_player_leds(2), Ok(None));
    assert_eq!(ds.set_player_leds(9), Err(SessionError::InvalidPlayer));
    assert_eq!(ds.output_seq(), 3);
    assert_eq!(ds.input_read_size(), Err(SessionError::Updating));
    let mut report = vec![0u8; 78];
    report[0] = 0x31;
    assert_eq!(ds.get_input_state(&report), Err(SessionError::Updating));
    assert_eq!(ds.get_battery(&report), Err(SessionError::Updating));
    assert_eq!(ds.set_update_mode(false), 0);
    assert!(!ds.is_updating());
    assert_eq!(ds.input_read_size(), Ok(78));
    assert!(ds.get_input_state(&report).is_ok());
    assert!(ds.get_battery(&report).is_ok());
    assert!(ds.set_lightbar(1, 2, 3, 4).is_some());
}

#[test]
fn reading_through_a_session() {
    let ds = usb();
    let mut report = vec![0u8; 64];
    report[0] = 0x01;
    report[1 + 7] = 0x18;
    report[53] = 0x25;
    let state = ds.get_input_state(&report).unwrap();
    assert_eq!(state.buttons, BTN_SQUARE);
    assert_eq!(state.dpad, 8);
    let battery = ds.get_battery(&report).unwrap();
    assert_eq!(battery.capacity, 55);
    assert_eq!(battery.status, "Full");

    assert_eq!(ds.get_input_state(&[]), Err(SessionError::InputTimeout));
    assert_eq!(ds.get_battery(&[]), Err(SessionError::BatteryTimeout));
    let wrong = vec![0x31u8; 78];
    assert_eq!(
        ds.get_input_state(&wrong),
        Err(SessionError::UnexpectedReport {
            id: 0x31,
            size: 78,
            expected_id: 0x01,
            expected_size: 64
        })
    );
    assert_eq!(ds.get_battery(&wrong), Err(SessionError::InvalidReport));
}

#[test]
fn firmware_info_through_a_session() {
    let ds = usb();
    let request = ds.firmware_info_request();
    assert_eq!(request.len(), 64);
    assert_eq!(request[0], 0x20);
    assert!(request[1..].iter().all(|b| *b == 0));
    let mut r = vec![0u8; 64];
    r[1..12].copy_from_slice(b"Dec  1 2022");
    r[12..20].copy_from_slice(b"01:02:03");
    r[44] = 0x11;
    r[45] = 0x02;
    assert_eq!(
        ds.get_firmware_info(&r),
        Ok((0x0211, "Dec  1 2022".to_string(), "01:02:03".to_string()))
    );
    assert_eq!(ds.get_firmware_info(&r[..10]), Err(SessionError::FeatureTooShort { size: 10 }));
}

#[test]
fn error_texts() {
    assert_eq!(SessionError::Updating.message(), "");
    assert_eq!(SessionError::InputTimeout.message(), "Timeout reading input state");
    assert_eq!(SessionError::BatteryTimeout.message(), "Timeout");
    assert_eq!(SessionError::InvalidReport.message(), "Invalid report received");
    assert_eq!(SessionError::InvalidPlayer.message(), "Invalid player number");
    assert_eq!(
        SessionError::FeatureTooShort { size: 49 }.message(),
        "Feature report too short: 49 bytes"
    );
    assert_eq!(
        SessionError::UnexpectedReport { id: 0x0a, size: 78, expected_id: 0x31, expected_size: 64 }
            .message(),
        format!(
            "Unexpected input report: id=0x{:02X} size={} (expected id=0x{:02X} size={})",
            0x0a, 78, 0x31, 64
        )
    );
    assert_eq!(
        SessionError::NotFound { serial: Some("abc".to_string()) }.message(),
        "DualSense controller 'abc' not found.\nCheck connection and try refreshing"
    );
    assert_eq!(
        SessionError::NotFound { serial: None }.message(),
        "No DualSense controller found.\nPlease connect your controller via USB or Bluetooth."
    );
}

#[test]
fn devices_are_told_apart() {
    assert!(is_dualsense(0x054c, 0x0ce6));
    assert!(is_dualsense(0x054c, 0x0df2));
    assert!(!is_dualsense(0x054c, 0x05c4));
    assert!(!is_dualsense(0x054d, 0x0ce6));
    let pad = device(0x0ce6, Some("one"), 3);
    assert!(device_matches(&pad, None));
    assert!(device_matches(&pad, Some("one")));
    assert!(!device_matches(&pad, Some("two")));
    assert!(!device_matches(&device(0x0ce6, None, 3), Some("one")));
    assert!(device_matches(&device(0x0ce6, None, 3), None));
}

#[test]
fn the_first_matching_device_is_found() {
    let mut other = device(0x0ce6, Some("zero"), 0);
    other.vendor_id = 0x045e;
    let devices = vec![
        other,
        device(0x05c4, Some("old"), 0),
        device(0x0ce6, Some("one"), 3),
        device(0x0df2, Some("two"), -1),
        device(0x0ce6, Some("two"), 3),
    ];
    assert_eq!(find_device(&devices, None), Ok(2));
    assert_eq!(find_device(&devices, Some("two")), Ok(3));
    assert_eq!(find_device(&devices, Some("one")), Ok(2));
    assert_eq!(
        find_device(&devices, Some("zero")),
        Err(SessionError::NotFound { serial: Some("zero".to_string()) })
    );
    assert_eq!(find_device(&devices[..2].to_vec(), None), Err(SessionError::NotFound { serial: None }));
    assert_eq!(find_device(&Vec::new(), None), Err(SessionError::NotFound { serial: None }));
}

#[test]
fn connecting_picks_and_opens() {
    let devices = vec![
        device(0x05c4, Some("old"), 0),
        device(0x0ce6, Some("one"), 3),
        device(0x0df2, Some("two"), -1),
    ];
    let (place, session) = DualSense::connect(&devices, None).unwrap();
    assert_eq!(place, 1);
    assert_eq!(session.serial(), "one");
    assert!(!session.is_bluetooth());
    let (place, session) = DualSense::connect(&devices, Some("two")).unwrap();
    assert_eq!(place, 2);
    assert_eq!(session.product_id(), 0x0df2);
    assert!(session.is_bluetooth());
    assert_eq!(session.output_seq(), 0);
    assert!(!session.is_updating());
    match DualSense::connect(&devices, Some("three")) {
        Err(e) => assert_eq!(e, SessionError::NotFound { serial: Some("three".to_string()) }),
        Ok(_) => panic!("found"),
    }
}

#[test]
fn devices_are_listed() {
    let mut other = device(0x0ce6, Some("zero"), 0);
    other.vendor_id = 0x045e;
    let devices = vec![
        other,
        device(0x0ce6, Some("one"), 3),
        device(0x05c4, Some("old"), 0),
        device(0x0df2, None, -1),
        device(0x0df2, Some("three"), 0),
    ];
    assert_eq!(
        list_devices(&devices),
        vec!["one (USB)".to_string(), "Unknown (Bluetooth)".to_string(), "three (USB)".to_string()]
    );
    assert!(list_devices(&Vec::new()).is_empty());
}

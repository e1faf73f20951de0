use ds4u::crc32::{calc_crc32, seal_crc, store_crc};
use ds4u::dualsense::{DeviceInfo, DualSense};
use ds4u::output::{feedback_params, init_output_report, player_led_pattern};

fn usb_info() -> DeviceInfo {
    DeviceInfo {
        vendor_id: 0x054c,
        product_id: 0x0ce6,
        serial: Some("a1:b2:c3".to_string()),
        interface_number: 3,
    }
}

fn bt_info() -> DeviceInfo {
    DeviceInfo {
        vendor_id: 0x054c,
        product_id: 0x0df2,
        serial: Some("a1:b2:c3".to_string()),
        interface_number: -1,
    }
}

fn reference_crc(report: &[u8]) -> u32 {
    let crc = crc::Crc::<u32>::new(&crc::CRC_32_ISO_HDLC);
    let mut digest = crc.digest();
    digest.update(&[0xa2]);
    digest.update(&report[..report.len() - 4]);
    digest.finalize()
}

#[test]
fn lightbar_over_usb() {
    let mut ds = DualSense::new(&usb_info());
    let report = ds.set_lightbar(200, 100, 50, 128).unwrap();
    let mut expected = vec![0u8; 63];
    expected[0] = 0x02;
    expected[2] = 0x04;
    expected[45] = 100;
    expected[46] = 50;
    expected[47] = 25;
    assert_eq!(report, expected);
}

#[test]
fn lightbar_over_bluetooth_carries_checksum() {
    let mut ds = DualSense::new(&bt_info());
    let report = ds.set_lightbar(200, 100, 50, 128).unwrap();
    assert_eq!(report.len(), 78);
    assert_eq!(report[0], 0x31);
    assert_eq!(report[1], 0x00);
    assert_eq!(report[2], 0x10);
    assert_eq!(report[4], 0x04);
    assert_eq!(report[47], 100);
    assert_eq!(report[48], 50);
    assert_eq!(report[49], 25);
    let crc = reference_crc(&report);
    assert_eq!(&report[74..], &crc.to_le_bytes());
}

#[test]
fn checksum_is_that_of_the_catalogue() {
    // "123456789" behind the seed: the report is the text and four spare bytes.
    let mut report = b"123456789".to_vec();
    report.extend_from_slice(&[0, 0, 0, 0]);
    let crc = calc_crc32(&report);
    assert_eq!(crc, reference_crc(&report));
    // the checksum of the catalogue's check string, without a seed
    let plain = crc::Crc::<u32>::new(&crc::CRC_32_ISO_HDLC).checksum(b"123456789");
    assert_eq!(plain, 0xcbf43926);
    assert_ne!(crc, plain);
    assert_eq!(crc, 1675271954);
}

#[test]
fn store_crc_is_little_endian() {
    let mut report = vec![9u8; 8];
    store_crc(&mut report, 0x12345678);
    assert_eq!(report, vec![9, 9, 9, 9, 0x78, 0x56, 0x34, 0x12]);
}

#[test]
fn seal_crc_overwrites_the_trailer() {
    let mut report = vec![7u8; 78];
    seal_crc(&mut report);
    let crc = reference_crc(&report);
    assert_eq!(&report[74..], &crc.to_le_bytes());
    assert!(report[..74].iter().all(|b| *b == 7));
}

#[test]
fn blank_reports() {
    let usb = init_output_report(false, 9);
    assert_eq!(usb.len(), 63);
    assert_eq!(usb[0], 0x02);
    assert!(usb[1..].iter().all(|b| *b == 0));
    let bt = init_output_report(true, 9);
    assert_eq!(bt.len(), 78);
    assert_eq!(&bt[..3], &[0x31, 0x90, 0x10]);
    assert!(bt[3..].iter().all(|b| *b == 0));
}

#[test]
fn feedback_position_3_strength_5() {
    let params = feedback_params(3, 5);
    assert_eq!(params, [0xf8, 0x03, 0x00, 0x48, 0x92, 0x24, 0, 0, 0, 0]);
}

#[test]
fn player_patterns() {
    let expected = [0b00000, 0b00100, 0b01010, 0b10101, 0b11011, 0b11111, 0b10001, 0b01110];
    for n in 0..8u8 {
        assert_eq!(player_led_pattern(n), Some(expected[n as usize]));
    }
    assert_eq!(player_led_pattern(8), None);
    assert_eq!(player_led_pattern(255), None);
}

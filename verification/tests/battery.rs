use ds4u::dualsense::{decode_battery, decode_battery_status, BatteryInfo};
use ds4u::report::ReportError;

fn info(capacity: u8, status: &str) -> BatteryInfo {
    BatteryInfo { capacity, status: status.to_string() }
}

#[test]
fn bluetooth_report_with_status_1a() {
    let mut r = vec![0u8; 78];
    r[0] = 0x31;
    r[54] = 0x1a;
    assert_eq!(decode_battery(true, &r), Ok(info(100, "Charging")));
}

#[test]
fn usb_report_reads_byte_53() {
    let mut r = vec![0u8; 64];
    r[0] = 0x01;
    r[53] = 0x04;
    r[54] = 0x2a;
    assert_eq!(decode_battery(false, &r), Ok(info(45, "Discharging")));
}

#[test]
fn same_report_same_battery() {
    let mut r = vec![0u8; 78];
    r[0] = 0x31;
    for status in 0..=255u8 {
        r[54] = status;
        let first = decode_battery(true, &r);
        let second = decode_battery(true, &r);
        assert_eq!(first, second);
        assert!(first.unwrap().capacity <= 100);
    }
}

#[test]
fn status_bytes() {
    assert_eq!(decode_battery_status(0x00), info(5, "Discharging"));
    assert_eq!(decode_battery_status(0x09), info(95, "Discharging"));
    assert_eq!(decode_battery_status(0x0a), info(100, "Discharging"));
    assert_eq!(decode_battery_status(0x0f), info(100, "Discharging"));
    assert_eq!(decode_battery_status(0x13), info(35, "Charging"));
    assert_eq!(decode_battery_status(0x2a), info(100, "Full"));
    assert_eq!(decode_battery_status(0x27), info(75, "Full"));
    assert_eq!(decode_battery_status(0xa5), info(0, "Not charging"));
    assert_eq!(decode_battery_status(0xb5), info(0, "Not charging"));
    assert_eq!(decode_battery_status(0x35), info(0, "Unknown"));
    assert_eq!(decode_battery_status(0xf5), info(0, "Unknown"));
}

#[test]
fn battery_needs_an_input_report() {
    assert_eq!(decode_battery(true, &[]), Err(ReportError::Timeout));
    let r = vec![0x31u8; 64];
    assert_eq!(
        decode_battery(true, &r),
        Err(ReportError::Unexpected { id: 0x31, size: 64, expected_id: 0x31, expected_size: 78 })
    );
}
